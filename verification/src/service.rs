//! The provisioning service: the single entry point.
//!
//! A request names a project and a resource kind. The service validates
//! the project name — before anything else, so no statement or identifier
//! is ever built from an unsafe name — generates this call's password,
//! and dispatches to the shared or the managed flow. It performs no
//! further business logic and keeps no state across calls.

use vstd::prelude::*;

use crate::engine::Engine;
use crate::error::{AbsError, Error};
use crate::ident::{is_valid_project_name, spec_role_name, spec_valid_project_name};
use crate::managed::{AbsProviderAction, ManagedInstanceProvisioner, ManagedPhase, ProviderAction};
use crate::password::generate_password;
use crate::shared::{AbsSqlAction, SharedPhase, SharedProvisioner, SqlAction};

verus! {

/// Which resource a request asks for: a role/database pair on the shared
/// cluster, or a dedicated managed instance running `engine`. A closed
/// sum: a new kind cannot be added without every dispatch handling it.
#[derive(Clone, Copy, PartialEq, Eq, Structural, Debug)]
pub enum ResourceKind {
    Shared,
    ManagedRds { engine: Engine },
}

/// An incoming provisioning request.
#[derive(Clone, Debug)]
pub struct ProvisionRequest {
    pub project_name: String,
    pub resource_kind: ResourceKind,
}

/// How many describe calls a managed flow may make before timing out:
/// at one call per one-second poll interval, ten minutes.
pub const DEFAULT_POLL_BUDGET: u32 = 600;

/// A dispatched flow: the machine driving the chosen strategy, paired
/// with the first action for its collaborator.
pub enum ProvisionFlow {
    Shared(SharedProvisioner, SqlAction),
    Managed(ManagedInstanceProvisioner, ProviderAction),
}

/// Dispatches a request. An unsafe project name is rejected with
/// `InvalidProjectName` before any flow exists, so no statement is issued
/// for it; a valid one gets a freshly generated password and the machine
/// for its resource kind, already holding the first action to perform.
pub fn provision_database(request: &ProvisionRequest, poll_budget: u32) -> (r: Result<
    ProvisionFlow,
    Error,
>)
    ensures
        !spec_valid_project_name(request.project_name@) ==> (r matches Err(e) && e@
            == AbsError::InvalidProjectName),
        spec_valid_project_name(request.project_name@) ==> (r matches Ok(flow)
            && match request.resource_kind {
            ResourceKind::Shared => flow matches ProvisionFlow::Shared(m, a) && m.wf() && m.phase
                == SharedPhase::RoleQueried && m.project@ == request.project_name@ && a@ == (
            AbsSqlAction::QueryRoleExists { role_name: spec_role_name(request.project_name@) }),
            ResourceKind::ManagedRds { engine } => flow matches ProvisionFlow::Managed(m, a)
                && m.wf() && m.phase == ManagedPhase::ModifyRequested && m.project@
                == request.project_name@ && m.engine == engine && m.polls_left == poll_budget && (
            a@ matches AbsProviderAction::ModifyInstance { instance_id, master_password }
                && instance_id == crate::ident::spec_instance_id(request.project_name@, engine)
                && master_password == m.password@),
        }),
{
    if !is_valid_project_name(request.project_name.as_str()) {
        return Err(Error::InvalidProjectName);
    }
    let password = generate_password();
    match request.resource_kind {
        ResourceKind::Shared => {
            let (machine, action) = SharedProvisioner::start(
                request.project_name.as_str(),
                password,
            );
            Ok(ProvisionFlow::Shared(machine, action))
        },
        ResourceKind::ManagedRds { engine } => {
            let (machine, action) = ManagedInstanceProvisioner::start(
                request.project_name.as_str(),
                engine,
                password,
                poll_budget,
            );
            Ok(ProvisionFlow::Managed(machine, action))
        },
    }
}

} // verus!
