//! Shared provisioning: a role/database pair on the multi-tenant cluster.
//!
//! The flow idempotently ensures that a login role and a database owned by
//! it exist for the project, rotating the role's password on every call.
//! SQL execution is an external collaborator: the machine here emits one
//! [`SqlAction`] at a time and consumes the executor's [`SqlReply`], so
//! every decision — create versus alter, create versus reuse, and the
//! classification of failures — is made by verified code. Existence check
//! and creation are two separate statements, so two concurrent calls for
//! the same new project can race; the duplicate-creation failure that the
//! loser sees is classified as a retryable conflict, and the retried call
//! converges on the resources the winner created.

use vstd::prelude::*;

use crate::error::{spec_retryable, AbsError, Error};
use crate::ident::{
    database_name, role_name, spec_database_name, spec_role_name, spec_safe_ident_char,
    spec_valid_project_name,
};
use crate::password::{spec_alphanumeric_char, spec_valid_password};
use crate::response::{AbsProvisionResult, ProvisionResult};

verus! {

// ---------------------------------------------------------------------
// Actions handed to the SQL executor, and its replies.
// ---------------------------------------------------------------------

/// One statement for the SQL executor. Existence queries bind their
/// argument as a parameter; the create/alter statements carry identifiers
/// and so are raw text, built only from validated parts.
#[derive(Clone, Debug)]
pub enum SqlAction {
    /// Ask whether a role with this name exists (parameterised query).
    QueryRoleExists { role_name: String },
    /// Run the raw statement creating the project's role.
    CreateRole { statement: String },
    /// Run the raw statement rotating the role's password.
    UpdateRole { statement: String },
    /// Ask whether a database with this name exists (parameterised query).
    QueryDatabaseExists { database_name: String },
    /// Run the raw statement creating the project's database.
    CreateDatabase { statement: String },
}

/// The mathematical image of a [`SqlAction`].
pub enum AbsSqlAction {
    QueryRoleExists { role_name: Seq<char> },
    CreateRole { statement: Seq<char> },
    UpdateRole { statement: Seq<char> },
    QueryDatabaseExists { database_name: Seq<char> },
    CreateDatabase { statement: Seq<char> },
}

impl View for SqlAction {
    type V = AbsSqlAction;

    open spec fn view(&self) -> AbsSqlAction {
        match self {
            SqlAction::QueryRoleExists { role_name } => AbsSqlAction::QueryRoleExists {
                role_name: role_name@,
            },
            SqlAction::CreateRole { statement } => AbsSqlAction::CreateRole {
                statement: statement@,
            },
            SqlAction::UpdateRole { statement } => AbsSqlAction::UpdateRole {
                statement: statement@,
            },
            SqlAction::QueryDatabaseExists { database_name } => AbsSqlAction::QueryDatabaseExists {
                database_name: database_name@,
            },
            SqlAction::CreateDatabase { statement } => AbsSqlAction::CreateDatabase {
                statement: statement@,
            },
        }
    }
}

/// What the SQL executor reports back for one action.
#[derive(Clone, Debug)]
pub enum SqlReply {
    /// An existence query came back; `found` says whether a row matched.
    Rows { found: bool },
    /// A statement executed successfully.
    ExecOk,
    /// The executor failed; `sqlstate` carries the server's error code
    /// when one was reported, `detail` its diagnostic text.
    Failed { sqlstate: Option<String>, detail: String },
}

/// The server error codes raised when a concurrent creator won the race:
/// duplicate object (role) and duplicate database.
pub open spec fn spec_duplicate_sqlstate(code: Seq<char>) -> bool {
    code == "42710"@ || code == "42P04"@
}

/// Classifies an executor error code as a duplicate-creation conflict.
pub fn is_duplicate_sqlstate(code: &String) -> (b: bool)
    ensures
        b == spec_duplicate_sqlstate(code@),
{
    let dup_object: String = "42710".to_owned();
    let dup_database: String = "42P04".to_owned();
    *code == dup_object || *code == dup_database
}

// ---------------------------------------------------------------------
// Statement construction.
// ---------------------------------------------------------------------

/// `CREATE ROLE "<role>" WITH LOGIN PASSWORD '<password>'`.
pub open spec fn spec_create_role_statement(role: Seq<char>, password: Seq<char>) -> Seq<char> {
    "CREATE ROLE \""@ + role + "\" WITH LOGIN PASSWORD '"@ + password + "'"@
}

/// `ALTER ROLE "<role>" WITH LOGIN PASSWORD '<password>'`.
pub open spec fn spec_update_role_statement(role: Seq<char>, password: Seq<char>) -> Seq<char> {
    "ALTER ROLE \""@ + role + "\" WITH LOGIN PASSWORD '"@ + password + "'"@
}

/// `CREATE DATABASE "<database>" OWNER '<role>'`.
pub open spec fn spec_create_database_statement(database: Seq<char>, role: Seq<char>) -> Seq<char> {
    "CREATE DATABASE \""@ + database + "\" OWNER '"@ + role + "'"@
}

/// Builds the create-role statement. Identifier binding is not available
/// for these statements, so the text is interpolated; the machine only
/// ever passes parts drawn from the safe character sets.
pub fn create_role_statement(role: &str, password: &str) -> (r: String)
    ensures
        r@ == spec_create_role_statement(role@, password@),
{
    let s: String = "CREATE ROLE \"".to_owned();
    let s = s.concat(role);
    let s = s.concat("\" WITH LOGIN PASSWORD '");
    let s = s.concat(password);
    s.concat("'")
}

/// Builds the alter-role statement rotating the password.
pub fn update_role_statement(role: &str, password: &str) -> (r: String)
    ensures
        r@ == spec_update_role_statement(role@, password@),
{
    let s: String = "ALTER ROLE \"".to_owned();
    let s = s.concat(role);
    let s = s.concat("\" WITH LOGIN PASSWORD '");
    let s = s.concat(password);
    s.concat("'")
}

/// Builds the create-database statement naming the owning role.
pub fn create_database_statement(database: &str, role: &str) -> (r: String)
    ensures
        r@ == spec_create_database_statement(database@, role@),
{
    let s: String = "CREATE DATABASE \"".to_owned();
    let s = s.concat(database);
    let s = s.concat("\" OWNER '");
    let s = s.concat(role);
    s.concat("'")
}

/// Free of every character that could close a quoted literal or a
/// quoted identifier, or separate statements.
pub open spec fn spec_no_quote_or_separator(s: Seq<char>) -> bool {
    forall|i: int| 0 <= i < s.len() ==> s[i] != '\'' && s[i] != '"' && s[i] != ';'
}

/// The injection defence carried into the statements: for a validated
/// project name and a well-formed password, every part interpolated into
/// the raw statements — the role name, the database name and the
/// password — is free of quotes and statement separators, so the
/// interpolated text cannot escape its quoted position.
pub proof fn lemma_interpolated_parts_are_safe(project: Seq<char>, password: Seq<char>)
    requires
        spec_valid_project_name(project),
        spec_valid_password(password),
    ensures
        spec_no_quote_or_separator(spec_role_name(project)),
        spec_no_quote_or_separator(spec_database_name(project)),
        spec_no_quote_or_separator(password),
{
    reveal_strlit("user-");
    reveal_strlit("db-");
    assert(("user-"@).len() == 5);
    assert(("db-"@).len() == 3);
    let role = spec_role_name(project);
    let database = spec_database_name(project);
    assert forall|i: int| 0 <= i < role.len() implies role[i] != '\'' && role[i] != '"' && role[i]
        != ';' by {
        if i < 5 {
            assert(role[i] == ("user-"@)[i]);
        } else {
            assert(role[i] == project[i - 5]);
            assert(spec_safe_ident_char(project[i - 5]));
        }
    }
    assert forall|i: int| 0 <= i < database.len() implies database[i] != '\'' && database[i] != '"'
        && database[i] != ';' by {
        if i < 3 {
            assert(database[i] == ("db-"@)[i]);
        } else {
            assert(database[i] == project[i - 3]);
            assert(spec_safe_ident_char(project[i - 3]));
        }
    }
    assert forall|i: int| 0 <= i < password.len() implies password[i] != '\'' && password[i] != '"'
        && password[i] != ';' by {
        assert(spec_alphanumeric_char(password[i]));
    }
}

// ---------------------------------------------------------------------
// The machine.
// ---------------------------------------------------------------------

/// Where the flow stands: each in-progress phase waits for the reply to
/// the action it just emitted.
#[derive(Clone, Copy, PartialEq, Eq, Structural, Debug)]
pub enum SharedPhase {
    /// Waiting for the role existence query's rows.
    RoleQueried,
    /// Waiting for the create-role statement to execute.
    RoleCreating,
    /// Waiting for the alter-role statement to execute.
    RoleUpdating,
    /// Waiting for the database existence query's rows.
    DatabaseQueried,
    /// Waiting for the create-database statement to execute.
    DatabaseCreating,
    /// Finished successfully.
    Complete,
    /// Finished with an error.
    Aborted,
}

/// What one step hands back: the next action for the executor, the
/// finished connection descriptor, or a classified error.
#[derive(Clone, Debug)]
pub enum SharedStep {
    Next(SqlAction),
    Done(ProvisionResult),
    Fail(Error),
}

/// The mathematical image of a [`SharedStep`].
pub enum AbsSharedStep {
    Next(AbsSqlAction),
    Done(AbsProvisionResult),
    Fail(AbsError),
}

impl View for SharedStep {
    type V = AbsSharedStep;

    open spec fn view(&self) -> AbsSharedStep {
        match self {
            SharedStep::Next(a) => AbsSharedStep::Next(a@),
            SharedStep::Done(r) => AbsSharedStep::Done(r@),
            SharedStep::Fail(e) => AbsSharedStep::Fail(e@),
        }
    }
}

/// The connection descriptor of a completed shared provisioning: fixed
/// engine, cluster addresses and port, derived names, this call's
/// password.
pub open spec fn spec_shared_result(project: Seq<char>, password: Seq<char>) -> AbsProvisionResult {
    AbsProvisionResult {
        engine: "postgres"@,
        username: spec_role_name(project),
        password: password,
        database_name: spec_database_name(project),
        address_private: "provisioner"@,
        address_public: "pg.shuttle.rs"@,
        port: "3306"@,
    }
}

/// Which reply shapes the executor can produce for each pending action:
/// queries answer with rows or a failure, statements with success or a
/// failure. Terminal phases expect no reply.
pub open spec fn spec_reply_fits(phase: SharedPhase, reply: SqlReply) -> bool {
    match phase {
        SharedPhase::RoleQueried | SharedPhase::DatabaseQueried => {
            reply matches SqlReply::Rows { .. } || reply matches SqlReply::Failed { .. }
        },
        SharedPhase::RoleCreating | SharedPhase::RoleUpdating | SharedPhase::DatabaseCreating => {
            reply matches SqlReply::ExecOk || reply matches SqlReply::Failed { .. }
        },
        SharedPhase::Complete | SharedPhase::Aborted => false,
    }
}

/// The transition relation of the shared flow, as a function: given the
/// project, this call's password, the pending phase and the executor's
/// reply, the next phase and what the step hands back.
pub open spec fn spec_shared_step(
    project: Seq<char>,
    password: Seq<char>,
    phase: SharedPhase,
    reply: SqlReply,
) -> (SharedPhase, AbsSharedStep) {
    let role = spec_role_name(project);
    let database = spec_database_name(project);
    match phase {
        SharedPhase::RoleQueried => match reply {
            SqlReply::Rows { found } => if found {
                (
                    SharedPhase::RoleUpdating,
                    AbsSharedStep::Next(
                        AbsSqlAction::UpdateRole {
                            statement: spec_update_role_statement(role, password),
                        },
                    ),
                )
            } else {
                (
                    SharedPhase::RoleCreating,
                    AbsSharedStep::Next(
                        AbsSqlAction::CreateRole {
                            statement: spec_create_role_statement(role, password),
                        },
                    ),
                )
            },
            SqlReply::Failed { detail, .. } => (
                SharedPhase::Aborted,
                AbsSharedStep::Fail(AbsError::CreateRoleFailed(detail@)),
            ),
            SqlReply::ExecOk => (
                SharedPhase::Aborted,
                AbsSharedStep::Fail(AbsError::MalformedProviderResponse),
            ),
        },
        SharedPhase::RoleCreating => match reply {
            SqlReply::ExecOk => (
                SharedPhase::DatabaseQueried,
                AbsSharedStep::Next(AbsSqlAction::QueryDatabaseExists { database_name: database }),
            ),
            SqlReply::Failed { sqlstate, detail } => (
                SharedPhase::Aborted,
                AbsSharedStep::Fail(
                    match sqlstate {
                        Some(code) => if spec_duplicate_sqlstate(code@) {
                            AbsError::DuplicateResourceConflict
                        } else {
                            AbsError::CreateRoleFailed(detail@)
                        },
                        None => AbsError::CreateRoleFailed(detail@),
                    },
                ),
            ),
            SqlReply::Rows { .. } => (
                SharedPhase::Aborted,
                AbsSharedStep::Fail(AbsError::MalformedProviderResponse),
            ),
        },
        SharedPhase::RoleUpdating => match reply {
            SqlReply::ExecOk => (
                SharedPhase::DatabaseQueried,
                AbsSharedStep::Next(AbsSqlAction::QueryDatabaseExists { database_name: database }),
            ),
            SqlReply::Failed { detail, .. } => (
                SharedPhase::Aborted,
                AbsSharedStep::Fail(AbsError::UpdateRoleFailed(detail@)),
            ),
            SqlReply::Rows { .. } => (
                SharedPhase::Aborted,
                AbsSharedStep::Fail(AbsError::MalformedProviderResponse),
            ),
        },
        SharedPhase::DatabaseQueried => match reply {
            SqlReply::Rows { found } => if found {
                (
                    SharedPhase::Complete,
                    AbsSharedStep::Done(spec_shared_result(project, password)),
                )
            } else {
                (
                    SharedPhase::DatabaseCreating,
                    AbsSharedStep::Next(
                        AbsSqlAction::CreateDatabase {
                            statement: spec_create_database_statement(database, role),
                        },
                    ),
                )
            },
            SqlReply::Failed { detail, .. } => (
                SharedPhase::Aborted,
                AbsSharedStep::Fail(AbsError::CreateDatabaseFailed(detail@)),
            ),
            SqlReply::ExecOk => (
                SharedPhase::Aborted,
                AbsSharedStep::Fail(AbsError::MalformedProviderResponse),
            ),
        },
        SharedPhase::DatabaseCreating => match reply {
            SqlReply::ExecOk => (
                SharedPhase::Complete,
                AbsSharedStep::Done(spec_shared_result(project, password)),
            ),
            SqlReply::Failed { sqlstate, detail } => (
                SharedPhase::Aborted,
                AbsSharedStep::Fail(
                    match sqlstate {
                        Some(code) => if spec_duplicate_sqlstate(code@) {
                            AbsError::DuplicateResourceConflict
                        } else {
                            AbsError::CreateDatabaseFailed(detail@)
                        },
                        None => AbsError::CreateDatabaseFailed(detail@),
                    },
                ),
            ),
            SqlReply::Rows { .. } => (
                SharedPhase::Aborted,
                AbsSharedStep::Fail(AbsError::MalformedProviderResponse),
            ),
        },
        SharedPhase::Complete | SharedPhase::Aborted => (
            phase,
            AbsSharedStep::Fail(AbsError::MalformedProviderResponse),
        ),
    }
}

/// Drives one project's shared provisioning. Construct it with
/// [`SharedProvisioner::start`], hand each emitted action to the SQL
/// executor, and feed the reply to [`SharedProvisioner::step`] until it
/// answers `Done` or `Fail`.
pub struct SharedProvisioner {
    pub phase: SharedPhase,
    pub project: String,
    pub password: String,
}

impl SharedProvisioner {
    /// The machine only ever exists for a validated project name and a
    /// well-formed generated password: that is what makes the raw
    /// statements it builds injection-free.
    pub open spec fn wf(self) -> bool {
        &&& spec_valid_project_name(self.project@)
        &&& spec_valid_password(self.password@)
    }

    /// Whether the flow still waits for a reply.
    pub open spec fn in_progress(self) -> bool {
        self.phase !is Complete && self.phase !is Aborted
    }

    /// Starts the flow for a validated project: the first action is the
    /// role existence query, with the role name bound as a parameter.
    pub fn start(project: &str, password: String) -> (r: (SharedProvisioner, SqlAction))
        requires
            spec_valid_project_name(project@),
            spec_valid_password(password@),
        ensures
            r.0.wf(),
            r.0.phase == SharedPhase::RoleQueried,
            r.0.project@ == project@,
            r.0.password@ == password@,
            r.1@ == (AbsSqlAction::QueryRoleExists { role_name: spec_role_name(project@) }),
    {
        let machine = SharedProvisioner {
            phase: SharedPhase::RoleQueried,
            project: project.to_owned(),
            password,
        };
        let action = SqlAction::QueryRoleExists { role_name: role_name(project) };
        (machine, action)
    }

    /// Feeds the executor's reply for the pending action and takes one
    /// transition of [`spec_shared_step`].
    pub fn step(&mut self, reply: SqlReply) -> (out: SharedStep)
        requires
            old(self).wf(),
            old(self).in_progress(),
            spec_reply_fits(old(self).phase, reply),
        ensures
            final(self).wf(),
            final(self).project@ == old(self).project@,
            final(self).password@ == old(self).password@,
            ({
                let (next, output) = spec_shared_step(
                    old(self).project@,
                    old(self).password@,
                    old(self).phase,
                    reply,
                );
                final(self).phase == next && out@ == output
            }),
    {
        let phase = self.phase;
        match phase {
            SharedPhase::RoleQueried => match reply {
                SqlReply::Rows { found } => if found {
                    self.phase = SharedPhase::RoleUpdating;
                    let role = role_name(self.project.as_str());
                    let statement = update_role_statement(role.as_str(), self.password.as_str());
                    SharedStep::Next(SqlAction::UpdateRole { statement })
                } else {
                    self.phase = SharedPhase::RoleCreating;
                    let role = role_name(self.project.as_str());
                    let statement = create_role_statement(role.as_str(), self.password.as_str());
                    SharedStep::Next(SqlAction::CreateRole { statement })
                },
                SqlReply::Failed { detail, .. } => {
                    self.phase = SharedPhase::Aborted;
                    SharedStep::Fail(Error::CreateRoleFailed(detail))
                },
                SqlReply::ExecOk => unreached(),
            },
            SharedPhase::RoleCreating => match reply {
                SqlReply::ExecOk => {
                    self.phase = SharedPhase::DatabaseQueried;
                    let database = database_name(self.project.as_str());
                    SharedStep::Next(SqlAction::QueryDatabaseExists { database_name: database })
                },
                SqlReply::Failed { sqlstate, detail } => {
                    self.phase = SharedPhase::Aborted;
                    match sqlstate {
                        Some(code) => if is_duplicate_sqlstate(&code) {
                            SharedStep::Fail(Error::DuplicateResourceConflict)
                        } else {
                            SharedStep::Fail(Error::CreateRoleFailed(detail))
                        },
                        None => SharedStep::Fail(Error::CreateRoleFailed(detail)),
                    }
                },
                SqlReply::Rows { .. } => unreached(),
            },
            SharedPhase::RoleUpdating => match reply {
                SqlReply::ExecOk => {
                    self.phase = SharedPhase::DatabaseQueried;
                    let database = database_name(self.project.as_str());
                    SharedStep::Next(SqlAction::QueryDatabaseExists { database_name: database })
                },
                SqlReply::Failed { detail, .. } => {
                    self.phase = SharedPhase::Aborted;
                    SharedStep::Fail(Error::UpdateRoleFailed(detail))
                },
                SqlReply::Rows { .. } => unreached(),
            },
            SharedPhase::DatabaseQueried => match reply {
                SqlReply::Rows { found } => if found {
                    self.phase = SharedPhase::Complete;
                    SharedStep::Done(self.connection_info())
                } else {
                    self.phase = SharedPhase::DatabaseCreating;
                    let database = database_name(self.project.as_str());
                    let role = role_name(self.project.as_str());
                    let statement = create_database_statement(database.as_str(), role.as_str());
                    SharedStep::Next(SqlAction::CreateDatabase { statement })
                },
                SqlReply::Failed { detail, .. } => {
                    self.phase = SharedPhase::Aborted;
                    SharedStep::Fail(Error::CreateDatabaseFailed(detail))
                },
                SqlReply::ExecOk => unreached(),
            },
            SharedPhase::DatabaseCreating => match reply {
                SqlReply::ExecOk => {
                    self.phase = SharedPhase::Complete;
                    SharedStep::Done(self.connection_info())
                },
                SqlReply::Failed { sqlstate, detail } => {
                    self.phase = SharedPhase::Aborted;
                    match sqlstate {
                        Some(code) => if is_duplicate_sqlstate(&code) {
                            SharedStep::Fail(Error::DuplicateResourceConflict)
                        } else {
                            SharedStep::Fail(Error::CreateDatabaseFailed(detail))
                        },
                        None => SharedStep::Fail(Error::CreateDatabaseFailed(detail)),
                    }
                },
                SqlReply::Rows { .. } => unreached(),
            },
            SharedPhase::Complete | SharedPhase::Aborted => unreached(),
        }
    }

    /// Assembles the fixed shared-cluster connection descriptor for this
    /// project and this call's password.
    pub fn connection_info(&self) -> (r: ProvisionResult)
        ensures
            r@ == spec_shared_result(self.project@, self.password@),
    {
        ProvisionResult {
            engine: "postgres".to_owned(),
            username: role_name(self.project.as_str()),
            password: self.password.clone(),
            database_name: database_name(self.project.as_str()),
            address_private: "provisioner".to_owned(),
            address_public: "pg.shuttle.rs".to_owned(),
            port: "3306".to_owned(),
        }
    }
}

// ---------------------------------------------------------------------
// Laws: the flow against a faithful server.
// ---------------------------------------------------------------------

/// An abstract model of the cluster's administrative state: which role
/// names and which database names exist.
pub struct ServerModel {
    pub roles: Set<Seq<char>>,
    pub databases: Set<Seq<char>>,
}

/// The reply a healthy server gives in each in-progress phase: an
/// existence query answers from the model, a statement executes.
pub open spec fn spec_faithful_reply(
    s: ServerModel,
    project: Seq<char>,
    phase: SharedPhase,
) -> SqlReply {
    match phase {
        SharedPhase::RoleQueried => SqlReply::Rows {
            found: s.roles.contains(spec_role_name(project)),
        },
        SharedPhase::DatabaseQueried => SqlReply::Rows {
            found: s.databases.contains(spec_database_name(project)),
        },
        _ => SqlReply::ExecOk,
    }
}

/// The effect on the server of executing the statement a phase waits
/// on: creating the role or the database adds its name; queries and the
/// password rotation leave the resources unchanged.
pub open spec fn spec_apply_statement(
    s: ServerModel,
    project: Seq<char>,
    phase: SharedPhase,
) -> ServerModel {
    match phase {
        SharedPhase::RoleCreating => ServerModel {
            roles: s.roles.insert(spec_role_name(project)),
            databases: s.databases,
        },
        SharedPhase::DatabaseCreating => ServerModel {
            roles: s.roles,
            databases: s.databases.insert(spec_database_name(project)),
        },
        _ => s,
    }
}

/// Runs the flow against a faithful server, returning the final server
/// state, the final phase, and the sequence of phases entered.
pub open spec fn spec_faithful_run(
    s: ServerModel,
    project: Seq<char>,
    password: Seq<char>,
    phase: SharedPhase,
    fuel: nat,
) -> (ServerModel, SharedPhase, Seq<SharedPhase>)
    decreases fuel,
{
    if fuel == 0 || phase is Complete || phase is Aborted {
        (s, phase, seq![])
    } else {
        let reply = spec_faithful_reply(s, project, phase);
        let s1 = spec_apply_statement(s, project, phase);
        let (next, _out) = spec_shared_step(project, password, phase, reply);
        let rest = spec_faithful_run(s1, project, password, next, (fuel - 1) as nat);
        (rest.0, rest.1, seq![next] + rest.2)
    }
}

/// Idempotence: shared provisioning converges. One run against any
/// server completes and leaves exactly the project's role and database
/// added. A second run — with a fresh password — also completes, rotates
/// the password instead of creating the role, recreates nothing, and
/// leaves the server's resources exactly as they were.
pub proof fn lemma_shared_provisioning_idempotent(
    s: ServerModel,
    project: Seq<char>,
    password1: Seq<char>,
    password2: Seq<char>,
)
    ensures
        ({
            let run1 = spec_faithful_run(s, project, password1, SharedPhase::RoleQueried, 5);
            &&& run1.1 == SharedPhase::Complete
            &&& run1.0.roles == s.roles.insert(spec_role_name(project))
            &&& run1.0.databases == s.databases.insert(spec_database_name(project))
            &&& ({
                let run2 = spec_faithful_run(run1.0, project, password2, SharedPhase::RoleQueried, 5);
                &&& run2.1 == SharedPhase::Complete
                &&& run2.0 == run1.0
                &&& run2.2 == seq![
                    SharedPhase::RoleUpdating,
                    SharedPhase::DatabaseQueried,
                    SharedPhase::Complete,
                ]
            })
        }),
{
    reveal_with_fuel(spec_faithful_run, 6);
    let role = spec_role_name(project);
    let database = spec_database_name(project);
    if s.roles.contains(role) {
        assert(s.roles.insert(role) =~= s.roles);
    }
    if s.databases.contains(database) {
        assert(s.databases.insert(database) =~= s.databases);
    }
    let run1 = spec_faithful_run(s, project, password1, SharedPhase::RoleQueried, 5);
    assert(run1.0.roles =~= s.roles.insert(role));
    assert(run1.0.databases =~= s.databases.insert(database));
    let run2 = spec_faithful_run(run1.0, project, password2, SharedPhase::RoleQueried, 5);
    assert(run2.2 =~= seq![
        SharedPhase::RoleUpdating,
        SharedPhase::DatabaseQueried,
        SharedPhase::Complete,
    ]);
}

/// A never-seen project gets exactly one role and one database: the run
/// passes through each creating phase exactly once and completes.
pub proof fn lemma_shared_fresh_project_creates_once(
    s: ServerModel,
    project: Seq<char>,
    password: Seq<char>,
)
    requires
        !s.roles.contains(spec_role_name(project)),
        !s.databases.contains(spec_database_name(project)),
    ensures
        ({
            let run = spec_faithful_run(s, project, password, SharedPhase::RoleQueried, 5);
            &&& run.1 == SharedPhase::Complete
            &&& run.0.roles == s.roles.insert(spec_role_name(project))
            &&& run.0.databases == s.databases.insert(spec_database_name(project))
            &&& run.2 == seq![
                SharedPhase::RoleCreating,
                SharedPhase::DatabaseQueried,
                SharedPhase::DatabaseCreating,
                SharedPhase::Complete,
            ]
        }),
{
    reveal_with_fuel(spec_faithful_run, 6);
    let run = spec_faithful_run(s, project, password, SharedPhase::RoleQueried, 5);
    assert(run.2 =~= seq![
        SharedPhase::RoleCreating,
        SharedPhase::DatabaseQueried,
        SharedPhase::DatabaseCreating,
        SharedPhase::Complete,
    ]);
}

/// Non-idempotence boundary of password rotation: two calls for the same
/// project agree on the username and the database name, and each returns
/// exactly its own generated password — so calls with different
/// passwords hand out different credentials for the same identity.
pub proof fn lemma_password_rotation_boundary(project: Seq<char>, password1: Seq<char>, password2: Seq<char>)
    requires
        password1 != password2,
    ensures
        spec_shared_result(project, password1).username == spec_shared_result(project, password2).username,
        spec_shared_result(project, password1).database_name == spec_shared_result(
            project,
            password2,
        ).database_name,
        spec_shared_result(project, password1).password == password1,
        spec_shared_result(project, password2).password == password2,
        spec_shared_result(project, password1).password != spec_shared_result(project, password2).password,
{
}

/// A duplicate-creation failure — the error a concurrent creator's loser
/// sees from either create statement — is classified as the retryable
/// conflict, never as a fatal error.
pub proof fn lemma_duplicate_creation_is_retryable(
    project: Seq<char>,
    password: Seq<char>,
    phase: SharedPhase,
    reply: SqlReply,
)
    requires
        phase == SharedPhase::RoleCreating || phase == SharedPhase::DatabaseCreating,
        reply matches SqlReply::Failed { sqlstate: Some(code), .. } && spec_duplicate_sqlstate(
            code@,
        ),
    ensures
        spec_shared_step(project, password, phase, reply).0 == SharedPhase::Aborted,
        spec_shared_step(project, password, phase, reply).1 == AbsSharedStep::Fail(
            AbsError::DuplicateResourceConflict,
        ),
        spec_retryable(AbsError::DuplicateResourceConflict),
{
}

/// Concurrency: two calls racing for the same brand-new project both
/// eventually succeed. The winner's run creates the role and the
/// database; the loser, retrying its whole request after the conflict,
/// completes against the winner's resources without creating anything
/// further, and the server converges on one role and one database.
pub proof fn lemma_racing_creators_converge(
    s: ServerModel,
    project: Seq<char>,
    password1: Seq<char>,
    password2: Seq<char>,
)
    requires
        !s.roles.contains(spec_role_name(project)),
        !s.databases.contains(spec_database_name(project)),
    ensures
        ({
            let winner = spec_faithful_run(s, project, password1, SharedPhase::RoleQueried, 5);
            &&& winner.1 == SharedPhase::Complete
            &&& ({
                let retry = spec_faithful_run(winner.0, project, password2, SharedPhase::RoleQueried, 5);
                &&& retry.1 == SharedPhase::Complete
                &&& retry.0 == winner.0
                &&& !retry.2.contains(SharedPhase::RoleCreating)
                &&& !retry.2.contains(SharedPhase::DatabaseCreating)
                &&& winner.0.roles == s.roles.insert(spec_role_name(project))
                &&& winner.0.databases == s.databases.insert(spec_database_name(project))
            })
        }),
{
    lemma_shared_fresh_project_creates_once(s, project, password1);
    lemma_shared_provisioning_idempotent(s, project, password1, password2);
    let winner = spec_faithful_run(s, project, password1, SharedPhase::RoleQueried, 5);
    let retry = spec_faithful_run(winner.0, project, password2, SharedPhase::RoleQueried, 5);
    assert(retry.2 == seq![
        SharedPhase::RoleUpdating,
        SharedPhase::DatabaseQueried,
        SharedPhase::Complete,
    ]);
    assert forall|i: int| 0 <= i < retry.2.len() implies retry.2[i] != SharedPhase::RoleCreating
        && retry.2[i] != SharedPhase::DatabaseCreating by {
        assert(retry.2[0] == SharedPhase::RoleUpdating);
        assert(retry.2[1] == SharedPhase::DatabaseQueried);
        assert(retry.2[2] == SharedPhase::Complete);
    }
}

} // verus!
