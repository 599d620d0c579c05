use provisioner::engine::Engine;
use provisioner::error::Error;
use provisioner::service::{
    provision_database, ProvisionFlow, ProvisionRequest, ResourceKind, DEFAULT_POLL_BUDGET,
};
use provisioner::shared::SqlAction;

fn request(name: &str, kind: ResourceKind) -> ProvisionRequest {
    ProvisionRequest { project_name: name.to_string(), resource_kind: kind }
}

#[test]
fn unsafe_names_are_rejected_before_any_statement() {
    for name in ["it's", "x\"y", "a;b", "", "a b", "p\u{7}q"] {
        for kind in [ResourceKind::Shared, ResourceKind::ManagedRds { engine: Engine::Postgres }] {
            let r = provision_database(&request(name, kind), DEFAULT_POLL_BUDGET);
            // No flow exists, so no statement was or can be issued.
            match r {
                Err(e) => {
                    assert_eq!(e, Error::InvalidProjectName);
                    assert!(!e.retryable());
                }
                Ok(_) => panic!("unsafe name {name:?} was accepted"),
            }
        }
    }
}

#[test]
fn shared_requests_start_with_the_role_query() {
    let r = provision_database(&request("myapp", ResourceKind::Shared), DEFAULT_POLL_BUDGET);
    match r.expect("valid name dispatches") {
        ProvisionFlow::Shared(_, SqlAction::QueryRoleExists { role_name }) => {
            assert_eq!(role_name, "user-myapp");
        }
        _ => panic!("expected the shared flow with the role existence query"),
    }
}

#[test]
fn managed_requests_start_with_the_modify_call() {
    let r = provision_database(
        &request("myapp", ResourceKind::ManagedRds { engine: Engine::MariaDb }),
        DEFAULT_POLL_BUDGET,
    );
    match r.expect("valid name dispatches") {
        ProvisionFlow::Managed(machine, action) => match action {
            provisioner::managed::ProviderAction::ModifyInstance {
                instance_id,
                master_password,
            } => {
                assert_eq!(instance_id, "myapp-mariadb");
                assert_eq!(master_password.len(), 12);
                assert_eq!(machine.password, master_password);
            }
            other => panic!("unexpected action: {other:?}"),
        },
        _ => panic!("expected the managed flow"),
    }
}
