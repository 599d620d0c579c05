use provisioner::engine::Engine;
use provisioner::error::Error;
use provisioner::managed::{
    ManagedInstanceProvisioner, ManagedStep, PollTarget, ProviderAction, ProviderReply,
};

const PW: &str = "A1b2C3d4E5f6";

fn describe(status: &str) -> ProviderReply {
    ProviderReply::Describe {
        status: status.to_string(),
        address: None,
        master_username: None,
        db_name: None,
    }
}

fn describe_full(status: &str) -> ProviderReply {
    ProviderReply::Describe {
        status: status.to_string(),
        address: Some("db.example.net".to_string()),
        master_username: Some("master".to_string()),
        db_name: Some("postgres".to_string()),
    }
}

#[test]
fn create_path_counts_one_create_and_n_plus_one_describes() {
    let n = 3;
    let (mut machine, first) =
        ManagedInstanceProvisioner::start("myapp", Engine::Postgres, PW.to_string(), 10);
    match &first {
        ProviderAction::ModifyInstance { instance_id, master_password } => {
            assert_eq!(instance_id, "myapp-postgres");
            assert_eq!(master_password, PW);
        }
        other => panic!("unexpected first action: {other:?}"),
    }
    let mut creates = 0;
    let mut describes = 0;
    let mut replies: Vec<ProviderReply> = vec![ProviderReply::ModifyNotFound, ProviderReply::CreateOk];
    for _ in 0..n {
        replies.push(describe("creating"));
    }
    replies.push(describe_full("available"));
    let mut done = None;
    for reply in replies {
        match machine.step(reply) {
            ManagedStep::Next(ProviderAction::CreateInstance {
                instance_id,
                master_username,
                master_password,
                engine,
                instance_class,
                allocated_storage,
                backup_retention,
                publicly_accessible,
                db_name,
                subnet_group,
            }) => {
                creates += 1;
                assert_eq!(instance_id, "myapp-postgres");
                assert_eq!(master_username, "master");
                assert_eq!(master_password, PW);
                assert_eq!(engine, "postgres");
                assert_eq!(instance_class, "db.t4g.micro");
                assert_eq!(allocated_storage, 20);
                assert_eq!(backup_retention, 0);
                assert!(publicly_accessible);
                assert_eq!(db_name, "postgres");
                assert_eq!(subnet_group, "shuttle_rds");
            }
            ManagedStep::Next(ProviderAction::DescribeInstance { instance_id }) => {
                describes += 1;
                assert_eq!(instance_id, "myapp-postgres");
            }
            ManagedStep::Next(other) => panic!("unexpected action: {other:?}"),
            ManagedStep::Done(info) => {
                done = Some(info);
            }
            ManagedStep::Fail(e) => panic!("flow failed: {e:?}"),
        }
    }
    assert_eq!(creates, 1);
    assert_eq!(describes, n + 1);
    let info = done.expect("flow completed");
    assert_eq!(info.engine, "postgres");
    assert_eq!(info.port, "5432");
    assert_eq!(info.username, "master");
    assert_eq!(info.password, PW);
    assert_eq!(info.database_name, "postgres");
    assert_eq!(info.address_private, "db.example.net");
    assert_eq!(info.address_public, "db.example.net");
}

#[test]
fn mysql_and_mariadb_get_port_3306() {
    for engine in [Engine::MySql, Engine::MariaDb] {
        let (mut machine, _) =
            ManagedInstanceProvisioner::start("myapp", engine, PW.to_string(), 10);
        assert!(matches!(machine.step(ProviderReply::ModifyOk), ManagedStep::Next(_)));
        assert!(matches!(
            machine.step(describe("resetting-master-credentials")),
            ManagedStep::Next(ProviderAction::DescribeInstance { .. })
        ));
        let mut full = describe_full("available");
        if let ProviderReply::Describe { db_name, .. } = &mut full {
            *db_name = Some("mysql".to_string());
        }
        match machine.step(full) {
            ManagedStep::Done(info) => assert_eq!(info.port, "3306"),
            other => panic!("unexpected step: {other:?}"),
        }
    }
}

#[test]
fn modify_path_polls_reset_then_available() {
    let (mut machine, _) =
        ManagedInstanceProvisioner::start("myapp", Engine::Postgres, PW.to_string(), 10);
    assert!(matches!(
        machine.step(ProviderReply::ModifyOk),
        ManagedStep::Next(ProviderAction::DescribeInstance { .. })
    ));
    // Not yet resetting: keeps waiting for the reset status.
    assert!(matches!(
        machine.step(describe("backing-up")),
        ManagedStep::Next(ProviderAction::DescribeInstance { .. })
    ));
    assert!(matches!(
        machine.step(describe("resetting-master-credentials")),
        ManagedStep::Next(ProviderAction::DescribeInstance { .. })
    ));
    assert!(matches!(
        machine.step(describe("creating")),
        ManagedStep::Next(ProviderAction::DescribeInstance { .. })
    ));
    match machine.step(describe_full("available")) {
        ManagedStep::Done(info) => {
            assert_eq!(info.engine, "postgres");
            assert_eq!(info.port, "5432");
        }
        other => panic!("unexpected step: {other:?}"),
    }
}

#[test]
fn failed_status_mid_poll_is_fatal_and_not_retried() {
    let (mut machine, _) =
        ManagedInstanceProvisioner::start("myapp", Engine::Postgres, PW.to_string(), 10);
    assert!(matches!(machine.step(ProviderReply::ModifyOk), ManagedStep::Next(_)));
    let out = machine.step(describe("failed"));
    let err = match out {
        ManagedStep::Fail(e) => e,
        other => panic!("unexpected step: {other:?}"),
    };
    assert_eq!(
        err,
        Error::UnexpectedProviderError("instance entered a failed status".to_string())
    );
    assert!(!err.retryable());
}

#[test]
fn poll_budget_exhaustion_times_out() {
    let (mut machine, _) =
        ManagedInstanceProvisioner::start("myapp", Engine::Postgres, PW.to_string(), 1);
    assert!(matches!(machine.step(ProviderReply::ModifyOk), ManagedStep::Next(_)));
    let out = machine.step(describe("creating"));
    let err = match out {
        ManagedStep::Fail(e) => e,
        other => panic!("unexpected step: {other:?}"),
    };
    assert_eq!(err, Error::ProvisioningTimedOut);
    assert!(!err.retryable());
}

#[test]
fn unexpected_modify_error_is_fatal() {
    let (mut machine, _) =
        ManagedInstanceProvisioner::start("myapp", Engine::Postgres, PW.to_string(), 10);
    let out = machine.step(ProviderReply::ModifyError { detail: "throttled".to_string() });
    match out {
        ManagedStep::Fail(e) => {
            assert_eq!(e, Error::UnexpectedProviderError("throttled".to_string()));
            assert!(!e.retryable());
        }
        other => panic!("unexpected step: {other:?}"),
    }
}

#[test]
fn create_error_is_fatal() {
    let (mut machine, _) =
        ManagedInstanceProvisioner::start("myapp", Engine::Postgres, PW.to_string(), 10);
    assert!(matches!(machine.step(ProviderReply::ModifyNotFound), ManagedStep::Next(_)));
    let out = machine.step(ProviderReply::CreateError { detail: "quota exceeded".to_string() });
    match out {
        ManagedStep::Fail(e) => {
            assert_eq!(e, Error::UnexpectedProviderError("quota exceeded".to_string()))
        }
        other => panic!("unexpected step: {other:?}"),
    }
}

#[test]
fn available_without_endpoint_is_malformed() {
    let (mut machine, _) =
        ManagedInstanceProvisioner::start("myapp", Engine::Postgres, PW.to_string(), 10);
    assert!(matches!(machine.step(ProviderReply::ModifyOk), ManagedStep::Next(_)));
    assert!(matches!(
        machine.step(describe("resetting-master-credentials")),
        ManagedStep::Next(_)
    ));
    let out = machine.step(describe("available"));
    match out {
        ManagedStep::Fail(e) => assert_eq!(e, Error::MalformedProviderResponse),
        other => panic!("unexpected step: {other:?}"),
    }
}

#[test]
fn missing_instance_in_describe_answer_is_malformed() {
    let (mut machine, _) =
        ManagedInstanceProvisioner::start("myapp", Engine::Postgres, PW.to_string(), 10);
    assert!(matches!(machine.step(ProviderReply::ModifyOk), ManagedStep::Next(_)));
    let out = machine.step(ProviderReply::DescribeMissing);
    match out {
        ManagedStep::Fail(e) => assert_eq!(e, Error::MalformedProviderResponse),
        other => panic!("unexpected step: {other:?}"),
    }
}

#[test]
fn poll_target_statuses_are_distinct() {
    // The three awaited stages map to three distinct status texts.
    let targets = [PollTarget::ResettingCredentials, PollTarget::Creating, PollTarget::Available];
    let texts: Vec<String> =
        targets.iter().map(|t| provisioner::managed::target_status(*t)).collect();
    assert_eq!(texts[0], "resetting-master-credentials");
    assert_eq!(texts[1], "creating");
    assert_eq!(texts[2], "available");
}
