//! Managed provisioning: a dedicated instance at the cloud provider.
//!
//! The flow brings an instance to a reachable state by create-or-reset:
//! it first tries to reset the instance's master password (the common
//! case, since most calls target a pre-existing instance) and falls back
//! to creating the instance when the provider reports it missing. Either
//! way it then polls the provider's reported lifecycle status on a fixed
//! interval until the awaited status is reached. The cloud client is an
//! external collaborator: the machine emits one [`ProviderAction`] at a
//! time and consumes the client's [`ProviderReply`]. Polling is bounded
//! by a budget fixed at the start, so a run can never poll forever: an
//! exhausted budget surfaces as `ProvisioningTimedOut`, and a reported
//! failure status is fatal at once.

use vstd::prelude::*;

use crate::engine::{engine_to_port, spec_engine_name, spec_engine_port, Engine};
use crate::error::{spec_retryable, AbsError, Error};
use crate::ident::{instance_id, spec_instance_id, spec_valid_project_name};
use crate::password::spec_valid_password;
use crate::response::{AbsProvisionResult, ProvisionResult};

verus! {

// ---------------------------------------------------------------------
// Actions handed to the cloud client, and its replies.
// ---------------------------------------------------------------------

/// One call for the cloud instance-lifecycle client.
#[derive(Clone, Debug)]
pub enum ProviderAction {
    /// Reset the instance's master password.
    ModifyInstance { instance_id: String, master_password: String },
    /// Create the instance with the fixed infrastructure constants.
    CreateInstance {
        instance_id: String,
        master_username: String,
        master_password: String,
        engine: String,
        instance_class: String,
        allocated_storage: i32,
        backup_retention: i32,
        publicly_accessible: bool,
        db_name: String,
        subnet_group: String,
    },
    /// Wait one poll interval, then fetch the instance's status.
    DescribeInstance { instance_id: String },
}

/// The mathematical image of a [`ProviderAction`].
pub enum AbsProviderAction {
    ModifyInstance { instance_id: Seq<char>, master_password: Seq<char> },
    CreateInstance {
        instance_id: Seq<char>,
        master_username: Seq<char>,
        master_password: Seq<char>,
        engine: Seq<char>,
        instance_class: Seq<char>,
        allocated_storage: int,
        backup_retention: int,
        publicly_accessible: bool,
        db_name: Seq<char>,
        subnet_group: Seq<char>,
    },
    DescribeInstance { instance_id: Seq<char> },
}

impl View for ProviderAction {
    type V = AbsProviderAction;

    open spec fn view(&self) -> AbsProviderAction {
        match self {
            ProviderAction::ModifyInstance { instance_id, master_password } => {
                AbsProviderAction::ModifyInstance {
                    instance_id: instance_id@,
                    master_password: master_password@,
                }
            },
            ProviderAction::CreateInstance {
                instance_id,
                master_username,
                master_password,
                engine,
                instance_class,
                allocated_storage,
                backup_retention,
                publicly_accessible,
                db_name,
                subnet_group,
            } => AbsProviderAction::CreateInstance {
                instance_id: instance_id@,
                master_username: master_username@,
                master_password: master_password@,
                engine: engine@,
                instance_class: instance_class@,
                allocated_storage: *allocated_storage as int,
                backup_retention: *backup_retention as int,
                publicly_accessible: *publicly_accessible,
                db_name: db_name@,
                subnet_group: subnet_group@,
            },
            ProviderAction::DescribeInstance { instance_id } => {
                AbsProviderAction::DescribeInstance { instance_id: instance_id@ }
            },
        }
    }
}

/// What the cloud client reports back for one action.
#[derive(Clone, Debug)]
pub enum ProviderReply {
    /// The modify call succeeded: the instance exists and is resetting.
    ModifyOk,
    /// The modify call failed because no such instance exists. This is
    /// an expected branch point, not an error surfaced to the caller.
    ModifyNotFound,
    /// The modify call failed with any other service error.
    ModifyError { detail: String },
    /// The create call succeeded.
    CreateOk,
    /// The create call failed.
    CreateError { detail: String },
    /// A describe call answered with the instance's reported state.
    Describe {
        status: String,
        address: Option<String>,
        master_username: Option<String>,
        db_name: Option<String>,
    },
    /// A describe call answered, but no instance was in the answer.
    DescribeMissing,
    /// A describe call failed.
    DescribeError { detail: String },
}

// ---------------------------------------------------------------------
// Lifecycle statuses.
// ---------------------------------------------------------------------

/// The status a poll waits for next.
#[derive(Clone, Copy, PartialEq, Eq, Structural, Debug)]
pub enum PollTarget {
    /// The provider is resetting the master credentials after a modify.
    ResettingCredentials,
    /// The provider is creating the instance.
    Creating,
    /// The instance is reachable.
    Available,
}

/// The provider's status text for each awaited stage.
pub open spec fn spec_target_status(t: PollTarget) -> Seq<char> {
    match t {
        PollTarget::ResettingCredentials => "resetting-master-credentials"@,
        PollTarget::Creating => "creating"@,
        PollTarget::Available => "available"@,
    }
}

/// The provider's status text for each awaited stage.
pub fn target_status(t: PollTarget) -> (r: String)
    ensures
        r@ == spec_target_status(t),
{
    match t {
        PollTarget::ResettingCredentials => "resetting-master-credentials".to_owned(),
        PollTarget::Creating => "creating".to_owned(),
        PollTarget::Available => "available".to_owned(),
    }
}

/// The diagnostic attached when the provider reports a failed instance.
pub open spec fn spec_failed_instance_detail() -> Seq<char> {
    "instance entered a failed status"@
}

// ---------------------------------------------------------------------
// The machine.
// ---------------------------------------------------------------------

/// Where the flow stands.
#[derive(Clone, Copy, PartialEq, Eq, Structural, Debug)]
pub enum ManagedPhase {
    /// Waiting for the provider's answer to the modify call.
    ModifyRequested,
    /// Waiting for the provider's answer to the create call.
    CreateRequested,
    /// Waiting for the next describe answer, until `target` is reached.
    Polling { target: PollTarget },
    /// Finished successfully.
    Complete,
    /// Finished with an error.
    Aborted,
}

/// What one step hands back: the next call for the provider, the
/// finished connection descriptor, or a classified error.
#[derive(Clone, Debug)]
pub enum ManagedStep {
    Next(ProviderAction),
    Done(ProvisionResult),
    Fail(Error),
}

/// The mathematical image of a [`ManagedStep`].
pub enum AbsManagedStep {
    Next(AbsProviderAction),
    Done(AbsProvisionResult),
    Fail(AbsError),
}

impl View for ManagedStep {
    type V = AbsManagedStep;

    open spec fn view(&self) -> AbsManagedStep {
        match self {
            ManagedStep::Next(a) => AbsManagedStep::Next(a@),
            ManagedStep::Done(r) => AbsManagedStep::Done(r@),
            ManagedStep::Fail(e) => AbsManagedStep::Fail(e@),
        }
    }
}

/// The create call's arguments: derived identity, fixed master username,
/// this call's password, the engine's name (also the initial database's
/// name), and the fixed instance class, storage, disabled backups,
/// public accessibility and subnet group.
pub open spec fn spec_create_action(
    project: Seq<char>,
    engine: Engine,
    password: Seq<char>,
) -> AbsProviderAction {
    AbsProviderAction::CreateInstance {
        instance_id: spec_instance_id(project, engine),
        master_username: "master"@,
        master_password: password,
        engine: spec_engine_name(engine),
        instance_class: "db.t4g.micro"@,
        allocated_storage: 20,
        backup_retention: 0,
        publicly_accessible: true,
        db_name: spec_engine_name(engine),
        subnet_group: "shuttle_rds"@,
    }
}

/// The connection descriptor of a completed managed provisioning. The
/// provider does not echo the password back, so the generated one is
/// reported; no private-network address is obtainable, so the private
/// address equals the public one.
pub open spec fn spec_managed_result(
    engine: Engine,
    password: Seq<char>,
    address: Seq<char>,
    username: Seq<char>,
    database: Seq<char>,
) -> AbsProvisionResult {
    AbsProvisionResult {
        engine: spec_engine_name(engine),
        username: username,
        password: password,
        database_name: database,
        address_private: address,
        address_public: address,
        port: spec_engine_port(engine),
    }
}

/// Entering (or continuing) the poll loop: consumes one unit of budget
/// and asks for the next describe, or times out when the budget is gone.
pub open spec fn spec_enter_poll(
    project: Seq<char>,
    engine: Engine,
    polls_left: nat,
    target: PollTarget,
) -> (ManagedPhase, nat, AbsManagedStep) {
    if polls_left == 0 {
        (ManagedPhase::Aborted, 0, AbsManagedStep::Fail(AbsError::ProvisioningTimedOut))
    } else {
        (
            ManagedPhase::Polling { target },
            (polls_left - 1) as nat,
            AbsManagedStep::Next(
                AbsProviderAction::DescribeInstance {
                    instance_id: spec_instance_id(project, engine),
                },
            ),
        )
    }
}

/// Which reply shapes the provider can produce for each pending call.
pub open spec fn spec_provider_reply_fits(phase: ManagedPhase, reply: ProviderReply) -> bool {
    match phase {
        ManagedPhase::ModifyRequested => {
            ||| reply matches ProviderReply::ModifyOk
            ||| reply matches ProviderReply::ModifyNotFound
            ||| reply matches ProviderReply::ModifyError { .. }
        },
        ManagedPhase::CreateRequested => {
            ||| reply matches ProviderReply::CreateOk
            ||| reply matches ProviderReply::CreateError { .. }
        },
        ManagedPhase::Polling { .. } => {
            ||| reply matches ProviderReply::Describe { .. }
            ||| reply matches ProviderReply::DescribeMissing
            ||| reply matches ProviderReply::DescribeError { .. }
        },
        ManagedPhase::Complete | ManagedPhase::Aborted => false,
    }
}

/// The transition relation of the managed flow, as a function: given the
/// machine's identity, remaining poll budget, pending phase and the
/// provider's reply, the next phase, the remaining budget, and what the
/// step hands back.
pub open spec fn spec_managed_step(
    project: Seq<char>,
    engine: Engine,
    password: Seq<char>,
    polls_left: nat,
    phase: ManagedPhase,
    reply: ProviderReply,
) -> (ManagedPhase, nat, AbsManagedStep) {
    match phase {
        ManagedPhase::ModifyRequested => match reply {
            ProviderReply::ModifyOk => {
                spec_enter_poll(project, engine, polls_left, PollTarget::ResettingCredentials)
            },
            ProviderReply::ModifyNotFound => (
                ManagedPhase::CreateRequested,
                polls_left,
                AbsManagedStep::Next(spec_create_action(project, engine, password)),
            ),
            ProviderReply::ModifyError { detail } => (
                ManagedPhase::Aborted,
                polls_left,
                AbsManagedStep::Fail(AbsError::UnexpectedProviderError(detail@)),
            ),
            _ => (
                ManagedPhase::Aborted,
                polls_left,
                AbsManagedStep::Fail(AbsError::MalformedProviderResponse),
            ),
        },
        ManagedPhase::CreateRequested => match reply {
            ProviderReply::CreateOk => {
                spec_enter_poll(project, engine, polls_left, PollTarget::Creating)
            },
            ProviderReply::CreateError { detail } => (
                ManagedPhase::Aborted,
                polls_left,
                AbsManagedStep::Fail(AbsError::UnexpectedProviderError(detail@)),
            ),
            _ => (
                ManagedPhase::Aborted,
                polls_left,
                AbsManagedStep::Fail(AbsError::MalformedProviderResponse),
            ),
        },
        ManagedPhase::Polling { target } => match reply {
            ProviderReply::Describe { status, address, master_username, db_name } => {
                if status@ == spec_target_status(target) {
                    if target is Available {
                        match (address, master_username, db_name) {
                            (Some(a), Some(u), Some(d)) => (
                                ManagedPhase::Complete,
                                polls_left,
                                AbsManagedStep::Done(
                                    spec_managed_result(engine, password, a@, u@, d@),
                                ),
                            ),
                            _ => (
                                ManagedPhase::Aborted,
                                polls_left,
                                AbsManagedStep::Fail(AbsError::MalformedProviderResponse),
                            ),
                        }
                    } else {
                        spec_enter_poll(project, engine, polls_left, PollTarget::Available)
                    }
                } else if status@ == "failed"@ {
                    (
                        ManagedPhase::Aborted,
                        polls_left,
                        AbsManagedStep::Fail(
                            AbsError::UnexpectedProviderError(spec_failed_instance_detail()),
                        ),
                    )
                } else {
                    spec_enter_poll(project, engine, polls_left, target)
                }
            },
            ProviderReply::DescribeMissing => (
                ManagedPhase::Aborted,
                polls_left,
                AbsManagedStep::Fail(AbsError::MalformedProviderResponse),
            ),
            ProviderReply::DescribeError { detail } => (
                ManagedPhase::Aborted,
                polls_left,
                AbsManagedStep::Fail(AbsError::UnexpectedProviderError(detail@)),
            ),
            _ => (
                ManagedPhase::Aborted,
                polls_left,
                AbsManagedStep::Fail(AbsError::MalformedProviderResponse),
            ),
        },
        ManagedPhase::Complete | ManagedPhase::Aborted => (
            phase,
            polls_left,
            AbsManagedStep::Fail(AbsError::MalformedProviderResponse),
        ),
    }
}

/// Drives one project's managed provisioning. Construct it with
/// [`ManagedInstanceProvisioner::start`], perform each emitted call
/// against the cloud client (waiting the poll interval before a
/// describe), and feed the reply to [`ManagedInstanceProvisioner::step`]
/// until it answers `Done` or `Fail`.
pub struct ManagedInstanceProvisioner {
    pub phase: ManagedPhase,
    pub project: String,
    pub engine: Engine,
    pub password: String,
    pub polls_left: u32,
}

impl ManagedInstanceProvisioner {
    /// The machine only ever exists for a validated project name and a
    /// well-formed generated password.
    pub open spec fn wf(self) -> bool {
        &&& spec_valid_project_name(self.project@)
        &&& spec_valid_password(self.password@)
    }

    /// Whether the flow still waits for a reply.
    pub open spec fn in_progress(self) -> bool {
        self.phase !is Complete && self.phase !is Aborted
    }

    /// Starts the flow: the first call resets the master password of the
    /// derived instance, treating "already exists" as the common case.
    /// `poll_budget` bounds how many describe calls the flow may make.
    pub fn start(project: &str, engine: Engine, password: String, poll_budget: u32) -> (r: (
        ManagedInstanceProvisioner,
        ProviderAction,
    ))
        requires
            spec_valid_project_name(project@),
            spec_valid_password(password@),
        ensures
            r.0.wf(),
            r.0.phase == ManagedPhase::ModifyRequested,
            r.0.project@ == project@,
            r.0.engine == engine,
            r.0.password@ == password@,
            r.0.polls_left == poll_budget,
            r.1@ == (AbsProviderAction::ModifyInstance {
                instance_id: spec_instance_id(project@, engine),
                master_password: password@,
            }),
    {
        let action = ProviderAction::ModifyInstance {
            instance_id: instance_id(project, engine),
            master_password: password.clone(),
        };
        let machine = ManagedInstanceProvisioner {
            phase: ManagedPhase::ModifyRequested,
            project: project.to_owned(),
            engine,
            password,
            polls_left: poll_budget,
        };
        (machine, action)
    }

    /// Feeds the provider's reply for the pending call and takes one
    /// transition of [`spec_managed_step`].
    pub fn step(&mut self, reply: ProviderReply) -> (out: ManagedStep)
        requires
            old(self).wf(),
            old(self).in_progress(),
            spec_provider_reply_fits(old(self).phase, reply),
        ensures
            final(self).wf(),
            final(self).project@ == old(self).project@,
            final(self).engine == old(self).engine,
            final(self).password@ == old(self).password@,
            ({
                let (next, polls, output) = spec_managed_step(
                    old(self).project@,
                    old(self).engine,
                    old(self).password@,
                    old(self).polls_left as nat,
                    old(self).phase,
                    reply,
                );
                final(self).phase == next && final(self).polls_left as nat == polls && out@
                    == output
            }),
    {
        let phase = self.phase;
        match phase {
            ManagedPhase::ModifyRequested => match reply {
                ProviderReply::ModifyOk => self.begin_poll(PollTarget::ResettingCredentials),
                ProviderReply::ModifyNotFound => {
                    self.phase = ManagedPhase::CreateRequested;
                    let engine_name = self.engine.name();
                    let initial_db = self.engine.name();
                    ManagedStep::Next(ProviderAction::CreateInstance {
                        instance_id: instance_id(self.project.as_str(), self.engine),
                        master_username: "master".to_owned(),
                        master_password: self.password.clone(),
                        engine: engine_name,
                        instance_class: "db.t4g.micro".to_owned(),
                        allocated_storage: 20,
                        backup_retention: 0,
                        publicly_accessible: true,
                        db_name: initial_db,
                        subnet_group: "shuttle_rds".to_owned(),
                    })
                },
                ProviderReply::ModifyError { detail } => {
                    self.phase = ManagedPhase::Aborted;
                    ManagedStep::Fail(Error::UnexpectedProviderError(detail))
                },
                _ => unreached(),
            },
            ManagedPhase::CreateRequested => match reply {
                ProviderReply::CreateOk => self.begin_poll(PollTarget::Creating),
                ProviderReply::CreateError { detail } => {
                    self.phase = ManagedPhase::Aborted;
                    ManagedStep::Fail(Error::UnexpectedProviderError(detail))
                },
                _ => unreached(),
            },
            ManagedPhase::Polling { target } => match reply {
                ProviderReply::Describe { status, address, master_username, db_name } => {
                    let awaited = target_status(target);
                    if status == awaited {
                        match target {
                            PollTarget::Available => {
                                match (address, master_username, db_name) {
                                    (Some(a), Some(u), Some(d)) => {
                                        self.phase = ManagedPhase::Complete;
                                        let address_public = a.clone();
                                        ManagedStep::Done(ProvisionResult {
                                            engine: self.engine.name(),
                                            username: u,
                                            password: self.password.clone(),
                                            database_name: d,
                                            address_private: a,
                                            address_public,
                                            port: engine_to_port(self.engine),
                                        })
                                    },
                                    _ => {
                                        self.phase = ManagedPhase::Aborted;
                                        ManagedStep::Fail(Error::MalformedProviderResponse)
                                    },
                                }
                            },
                            _ => self.begin_poll(PollTarget::Available),
                        }
                    } else {
                        let failed: String = "failed".to_owned();
                        if status == failed {
                            self.phase = ManagedPhase::Aborted;
                            ManagedStep::Fail(
                                Error::UnexpectedProviderError(
                                    "instance entered a failed status".to_owned(),
                                ),
                            )
                        } else {
                            self.begin_poll(target)
                        }
                    }
                },
                ProviderReply::DescribeMissing => {
                    self.phase = ManagedPhase::Aborted;
                    ManagedStep::Fail(Error::MalformedProviderResponse)
                },
                ProviderReply::DescribeError { detail } => {
                    self.phase = ManagedPhase::Aborted;
                    ManagedStep::Fail(Error::UnexpectedProviderError(detail))
                },
                _ => unreached(),
            },
            ManagedPhase::Complete | ManagedPhase::Aborted => unreached(),
        }
    }

    /// Spends one unit of poll budget on the next describe call, or
    /// times out when none is left.
    fn begin_poll(&mut self, target: PollTarget) -> (out: ManagedStep)
        requires
            old(self).wf(),
        ensures
            final(self).wf(),
            final(self).project@ == old(self).project@,
            final(self).engine == old(self).engine,
            final(self).password@ == old(self).password@,
            ({
                let (next, polls, output) = spec_enter_poll(
                    old(self).project@,
                    old(self).engine,
                    old(self).polls_left as nat,
                    target,
                );
                final(self).phase == next && final(self).polls_left as nat == polls && out@
                    == output
            }),
    {
        if self.polls_left == 0 {
            self.phase = ManagedPhase::Aborted;
            ManagedStep::Fail(Error::ProvisioningTimedOut)
        } else {
            self.polls_left = self.polls_left - 1;
            self.phase = ManagedPhase::Polling { target };
            ManagedStep::Next(ProviderAction::DescribeInstance {
                instance_id: instance_id(self.project.as_str(), self.engine),
            })
        }
    }
}

// ---------------------------------------------------------------------
// Laws: runs over recorded reply sequences.
// ---------------------------------------------------------------------

/// What a run of the managed flow over a recorded sequence of provider
/// replies did: where it ended, the budget left, how many create and
/// describe calls it emitted, and the final answer if it reached one.
pub struct ManagedRunSummary {
    pub phase: ManagedPhase,
    pub polls_left: nat,
    pub creates: nat,
    pub describes: nat,
    pub outcome: Option<AbsManagedStep>,
}

/// Folds [`spec_managed_step`] over a reply sequence, counting the calls
/// each step emits, until the flow finishes or the replies run out.
pub open spec fn spec_managed_run(
    project: Seq<char>,
    engine: Engine,
    password: Seq<char>,
    polls_left: nat,
    phase: ManagedPhase,
    replies: Seq<ProviderReply>,
) -> ManagedRunSummary
    decreases replies.len(),
{
    if phase is Complete || phase is Aborted || replies.len() == 0 {
        ManagedRunSummary { phase, polls_left, creates: 0, describes: 0, outcome: None }
    } else {
        let (next, polls, out) = spec_managed_step(
            project,
            engine,
            password,
            polls_left,
            phase,
            replies[0],
        );
        let rest = spec_managed_run(project, engine, password, polls, next, replies.drop_first());
        ManagedRunSummary {
            phase: rest.phase,
            polls_left: rest.polls_left,
            creates: rest.creates + (if out matches AbsManagedStep::Next(
                AbsProviderAction::CreateInstance { .. },
            ) {
                1nat
            } else {
                0nat
            }),
            describes: rest.describes + (if out matches AbsManagedStep::Next(
                AbsProviderAction::DescribeInstance { .. },
            ) {
                1nat
            } else {
                0nat
            }),
            outcome: if next is Complete || next is Aborted {
                Some(out)
            } else {
                rest.outcome
            },
        }
    }
}

/// An exhausted poll budget surfaces as an explicit timeout instead of
/// a further poll: the wait primitive cannot loop forever.
pub proof fn lemma_exhausted_budget_times_out(
    project: Seq<char>,
    engine: Engine,
    target: PollTarget,
)
    ensures
        spec_enter_poll(project, engine, 0, target) == (
            ManagedPhase::Aborted,
            0nat,
            AbsManagedStep::Fail(AbsError::ProvisioningTimedOut),
        ),
{
}

/// No run ever emits more describe calls than the budget it started
/// with: the poll loop is bounded, whatever the provider reports.
pub proof fn lemma_polling_bounded(
    project: Seq<char>,
    engine: Engine,
    password: Seq<char>,
    polls_left: nat,
    phase: ManagedPhase,
    replies: Seq<ProviderReply>,
)
    ensures
        spec_managed_run(project, engine, password, polls_left, phase, replies).describes
            <= polls_left,
    decreases replies.len(),
{
    if phase is Complete || phase is Aborted || replies.len() == 0 {
    } else {
        let (next, polls, out) = spec_managed_step(
            project,
            engine,
            password,
            polls_left,
            phase,
            replies[0],
        );
        lemma_polling_bounded(project, engine, password, polls, next, replies.drop_first());
    }
}

/// A reported "failed" status is fatal at once: the step aborts with a
/// non-retryable error, and a run seeing it emits no call at all after
/// the failure — it does not keep polling.
pub proof fn lemma_failed_status_is_fatal(
    project: Seq<char>,
    engine: Engine,
    password: Seq<char>,
    polls_left: nat,
    target: PollTarget,
    reply: ProviderReply,
    rest: Seq<ProviderReply>,
)
    requires
        reply matches ProviderReply::Describe { status, .. } && status@ == "failed"@,
    ensures
        spec_managed_step(
            project,
            engine,
            password,
            polls_left,
            ManagedPhase::Polling { target },
            reply,
        ) == (
            ManagedPhase::Aborted,
            polls_left,
            AbsManagedStep::Fail(AbsError::UnexpectedProviderError(spec_failed_instance_detail())),
        ),
        !spec_retryable(AbsError::UnexpectedProviderError(spec_failed_instance_detail())),
        ({
            let summary = spec_managed_run(
                project,
                engine,
                password,
                polls_left,
                ManagedPhase::Polling { target },
                seq![reply] + rest,
            );
            &&& summary.phase == ManagedPhase::Aborted
            &&& summary.creates == 0
            &&& summary.describes == 0
            &&& summary.outcome == Some(
                AbsManagedStep::Fail(
                    AbsError::UnexpectedProviderError(spec_failed_instance_detail()),
                ),
            )
        }),
{
    lemma_status_texts_differ();
    reveal_with_fuel(spec_managed_run, 3);
    let script = seq![reply] + rest;
    assert(script[0] == reply);
    assert(script.drop_first() =~= rest);
}

/// The four status texts the machine distinguishes are pairwise
/// distinct, so no reply can be read as two different stages.
pub proof fn lemma_status_texts_differ()
    ensures
        spec_target_status(PollTarget::ResettingCredentials) != "failed"@,
        spec_target_status(PollTarget::Creating) != "failed"@,
        spec_target_status(PollTarget::Available) != "failed"@,
        spec_target_status(PollTarget::Creating) != spec_target_status(PollTarget::Available),
        spec_target_status(PollTarget::ResettingCredentials) != spec_target_status(
            PollTarget::Available,
        ),
        spec_target_status(PollTarget::ResettingCredentials) != spec_target_status(
            PollTarget::Creating,
        ),
{
    reveal_strlit("resetting-master-credentials");
    reveal_strlit("creating");
    reveal_strlit("available");
    reveal_strlit("failed");
    assert(("resetting-master-credentials"@).len() == 28);
    assert(("creating"@).len() == 8);
    assert(("available"@).len() == 9);
    assert(("failed"@).len() == 6);
}

/// While waiting for "available", a run that sees "creating" k times and
/// then a complete "available" report finishes with the described
/// endpoint, emitting exactly one describe call per in-progress report.
proof fn lemma_poll_until_available(
    project: Seq<char>,
    engine: Engine,
    password: Seq<char>,
    polls_left: nat,
    replies: Seq<ProviderReply>,
    k: int,
    address: Seq<char>,
    username: Seq<char>,
    database: Seq<char>,
)
    requires
        0 <= k,
        replies.len() == k + 1,
        forall|i: int|
            0 <= i < k ==> ((#[trigger] replies[i]) matches ProviderReply::Describe {
                status,
                ..
            } && status@ == "creating"@),
        replies[k] matches ProviderReply::Describe { status, address: a, master_username: u, db_name: d }
            && status@ == "available"@ && (a matches Some(av) && av@ == address && (u matches Some(
            uv,
        ) && uv@ == username && (d matches Some(dv) && dv@ == database))),
        polls_left >= k,
    ensures
        ({
            let summary = spec_managed_run(
                project,
                engine,
                password,
                polls_left,
                ManagedPhase::Polling { target: PollTarget::Available },
                replies,
            );
            &&& summary.phase == ManagedPhase::Complete
            &&& summary.creates == 0
            &&& summary.describes == k
            &&& summary.outcome == Some(
                AbsManagedStep::Done(
                    spec_managed_result(engine, password, address, username, database),
                ),
            )
        }),
    decreases k,
{
    lemma_status_texts_differ();
    reveal_with_fuel(spec_managed_run, 2);
    if k == 0 {
    } else {
        assert(replies[0] matches ProviderReply::Describe { status, .. } && status@
            == "creating"@);
        let tail = replies.drop_first();
        assert(tail[k - 1] == replies[k]);
        assert forall|i: int| 0 <= i < k - 1 implies ((#[trigger] tail[i]) matches
            ProviderReply::Describe { status, .. } && status@ == "creating"@) by {
            assert(tail[i] == replies[i + 1]);
        }
        lemma_poll_until_available(
            project,
            engine,
            password,
            (polls_left - 1) as nat,
            tail,
            k - 1,
            address,
            username,
            database,
        );
    }
}

/// The create path of the state machine: a provider that reports the
/// instance missing, then "creating" for n polls, then a complete
/// "available" report, costs exactly one create call and n + 1 describe
/// calls, and the flow returns the described endpoint with the engine's
/// own port.
pub proof fn lemma_create_path_counts(
    project: Seq<char>,
    engine: Engine,
    password: Seq<char>,
    poll_budget: nat,
    replies: Seq<ProviderReply>,
    n: int,
    address: Seq<char>,
    username: Seq<char>,
    database: Seq<char>,
)
    requires
        1 <= n,
        poll_budget >= n + 1,
        replies.len() == n + 3,
        replies[0] is ModifyNotFound,
        replies[1] is CreateOk,
        forall|i: int|
            2 <= i < n + 2 ==> ((#[trigger] replies[i]) matches ProviderReply::Describe {
                status,
                ..
            } && status@ == "creating"@),
        replies[n + 2] matches ProviderReply::Describe { status, address: a, master_username: u, db_name: d }
            && status@ == "available"@ && (a matches Some(av) && av@ == address && (u matches Some(
            uv,
        ) && uv@ == username && (d matches Some(dv) && dv@ == database))),
    ensures
        ({
            let summary = spec_managed_run(
                project,
                engine,
                password,
                poll_budget,
                ManagedPhase::ModifyRequested,
                replies,
            );
            &&& summary.phase == ManagedPhase::Complete
            &&& summary.creates == 1
            &&& summary.describes == n + 1
            &&& summary.outcome == Some(
                AbsManagedStep::Done(
                    spec_managed_result(engine, password, address, username, database),
                ),
            )
        }),
        spec_managed_result(engine, password, address, username, database).port
            == spec_engine_port(engine),
{
    lemma_status_texts_differ();
    reveal_with_fuel(spec_managed_run, 4);
    let after_modify = replies.drop_first();
    let after_create = after_modify.drop_first();
    let polling = after_create.drop_first();
    assert(after_modify[0] == replies[1]);
    assert(after_create[0] == replies[2]);
    assert(replies[2] matches ProviderReply::Describe { status, .. } && status@ == "creating"@);
    assert(polling.len() == n);
    assert(polling[n - 1] == replies[n + 2]);
    assert forall|i: int| 0 <= i < n - 1 implies ((#[trigger] polling[i]) matches
        ProviderReply::Describe { status, .. } && status@ == "creating"@) by {
        assert(polling[i] == replies[i + 3]);
    }
    lemma_poll_until_available(
        project,
        engine,
        password,
        (poll_budget - 2) as nat,
        polling,
        n - 1,
        address,
        username,
        database,
    );
}

} // verus!
