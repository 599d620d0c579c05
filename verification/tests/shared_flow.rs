use provisioner::error::Error;
use provisioner::response::ProvisionResult;
use provisioner::shared::{SharedProvisioner, SharedStep, SqlAction, SqlReply};

const PW1: &str = "A1b2C3d4E5f6";
const PW2: &str = "Z9y8X7w6V5u4";

fn run_to_completion(project: &str, password: &str, replies: Vec<SqlReply>) -> (Result<ProvisionResult, Error>, Vec<SqlAction>) {
    let (mut machine, first) = SharedProvisioner::start(project, password.to_string());
    let mut actions = vec![first];
    for reply in replies {
        match machine.step(reply) {
            SharedStep::Next(a) => actions.push(a),
            SharedStep::Done(r) => return (Ok(r), actions),
            SharedStep::Fail(e) => return (Err(e), actions),
        }
    }
    panic!("flow did not finish on the scripted replies");
}

#[test]
fn fresh_project_creates_role_then_database() {
    let (result, actions) = run_to_completion(
        "myapp",
        PW1,
        vec![
            SqlReply::Rows { found: false },
            SqlReply::ExecOk,
            SqlReply::Rows { found: false },
            SqlReply::ExecOk,
        ],
    );
    assert_eq!(actions.len(), 4);
    match &actions[0] {
        SqlAction::QueryRoleExists { role_name } => assert_eq!(role_name, "user-myapp"),
        other => panic!("unexpected action: {other:?}"),
    }
    match &actions[1] {
        SqlAction::CreateRole { statement } => assert_eq!(
            statement,
            "CREATE ROLE \"user-myapp\" WITH LOGIN PASSWORD 'A1b2C3d4E5f6'"
        ),
        other => panic!("unexpected action: {other:?}"),
    }
    match &actions[2] {
        SqlAction::QueryDatabaseExists { database_name } => assert_eq!(database_name, "db-myapp"),
        other => panic!("unexpected action: {other:?}"),
    }
    match &actions[3] {
        SqlAction::CreateDatabase { statement } => assert_eq!(
            statement,
            "CREATE DATABASE \"db-myapp\" OWNER 'user-myapp'"
        ),
        other => panic!("unexpected action: {other:?}"),
    }
    let info = result.expect("fresh project provisions");
    assert_eq!(info.engine, "postgres");
    assert_eq!(info.username, "user-myapp");
    assert_eq!(info.password, PW1);
    assert_eq!(info.database_name, "db-myapp");
    assert_eq!(info.address_private, "provisioner");
    assert_eq!(info.address_public, "pg.shuttle.rs");
    assert_eq!(info.port, "3306");
}

#[test]
fn existing_project_rotates_password_and_recreates_nothing() {
    let (result, actions) = run_to_completion(
        "myapp",
        PW2,
        vec![
            SqlReply::Rows { found: true },
            SqlReply::ExecOk,
            SqlReply::Rows { found: true },
        ],
    );
    assert_eq!(actions.len(), 3);
    match &actions[1] {
        SqlAction::UpdateRole { statement } => assert_eq!(
            statement,
            "ALTER ROLE \"user-myapp\" WITH LOGIN PASSWORD 'Z9y8X7w6V5u4'"
        ),
        other => panic!("unexpected action: {other:?}"),
    }
    let info = result.expect("existing project provisions");
    assert_eq!(info.username, "user-myapp");
    assert_eq!(info.database_name, "db-myapp");
    assert_eq!(info.password, PW2);
}

#[test]
fn two_calls_rotate_only_the_password() {
    let fresh = vec![
        SqlReply::Rows { found: false },
        SqlReply::ExecOk,
        SqlReply::Rows { found: false },
        SqlReply::ExecOk,
    ];
    let again = vec![
        SqlReply::Rows { found: true },
        SqlReply::ExecOk,
        SqlReply::Rows { found: true },
    ];
    let (first, _) = run_to_completion("myapp", PW1, fresh);
    let (second, _) = run_to_completion("myapp", PW2, again);
    let first = first.unwrap();
    let second = second.unwrap();
    assert_eq!(first.username, second.username);
    assert_eq!(first.database_name, second.database_name);
    assert_ne!(first.password, second.password);
}

#[test]
fn duplicate_role_creation_is_a_retryable_conflict() {
    let (result, _) = run_to_completion(
        "myapp",
        PW1,
        vec![
            SqlReply::Rows { found: false },
            SqlReply::Failed {
                sqlstate: Some("42710".to_string()),
                detail: "role \"user-myapp\" already exists".to_string(),
            },
        ],
    );
    let err = result.expect_err("duplicate creation fails the call");
    assert_eq!(err, Error::DuplicateResourceConflict);
    assert!(err.retryable());
}

#[test]
fn duplicate_database_creation_is_a_retryable_conflict() {
    let (result, _) = run_to_completion(
        "myapp",
        PW1,
        vec![
            SqlReply::Rows { found: false },
            SqlReply::ExecOk,
            SqlReply::Rows { found: false },
            SqlReply::Failed {
                sqlstate: Some("42P04".to_string()),
                detail: "database \"db-myapp\" already exists".to_string(),
            },
        ],
    );
    let err = result.expect_err("duplicate creation fails the call");
    assert_eq!(err, Error::DuplicateResourceConflict);
    assert!(err.retryable());
}

#[test]
fn racing_creators_converge_after_retry() {
    // Two flows for the same brand-new project both see "no role yet".
    let (mut winner, _) = SharedProvisioner::start("fresh", PW1.to_string());
    let (mut loser, _) = SharedProvisioner::start("fresh", PW2.to_string());
    assert!(matches!(
        winner.step(SqlReply::Rows { found: false }),
        SharedStep::Next(SqlAction::CreateRole { .. })
    ));
    assert!(matches!(
        loser.step(SqlReply::Rows { found: false }),
        SharedStep::Next(SqlAction::CreateRole { .. })
    ));
    // The winner's create executes; the loser's collides.
    let loser_out = loser.step(SqlReply::Failed {
        sqlstate: Some("42710".to_string()),
        detail: "role \"user-fresh\" already exists".to_string(),
    });
    let err = match loser_out {
        SharedStep::Fail(e) => e,
        other => panic!("unexpected step: {other:?}"),
    };
    assert_eq!(err, Error::DuplicateResourceConflict);
    assert!(err.retryable());
    // The winner finishes; the loser retries the whole request and now
    // finds the winner's role and database.
    let (winner_result, _) = {
        let mut actions = Vec::new();
        let mut out = winner.step(SqlReply::ExecOk);
        loop {
            match out {
                SharedStep::Next(a) => {
                    let reply = match &a {
                        SqlAction::QueryDatabaseExists { .. } => SqlReply::Rows { found: false },
                        _ => SqlReply::ExecOk,
                    };
                    actions.push(a);
                    out = winner.step(reply);
                }
                SharedStep::Done(r) => break (Ok::<_, Error>(r), actions),
                SharedStep::Fail(e) => break (Err(e), actions),
            }
        }
    };
    let (retry_result, retry_actions) = run_to_completion(
        "fresh",
        PW2,
        vec![
            SqlReply::Rows { found: true },
            SqlReply::ExecOk,
            SqlReply::Rows { found: true },
        ],
    );
    let winner_info = winner_result.unwrap();
    let retry_info = retry_result.unwrap();
    assert_eq!(winner_info.username, retry_info.username);
    assert_eq!(winner_info.database_name, retry_info.database_name);
    // The retry created nothing: it only rotated the password and reused
    // the database.
    assert!(retry_actions
        .iter()
        .all(|a| !matches!(a, SqlAction::CreateRole { .. } | SqlAction::CreateDatabase { .. })));
}

#[test]
fn role_query_failure_is_reported_with_detail() {
    let (result, _) = run_to_completion(
        "myapp",
        PW1,
        vec![SqlReply::Failed { sqlstate: None, detail: "connection lost".to_string() }],
    );
    let err = result.expect_err("query failure fails the call");
    assert_eq!(err, Error::CreateRoleFailed("connection lost".to_string()));
    assert!(err.retryable());
}

#[test]
fn alter_role_failure_is_an_update_failure() {
    let (result, _) = run_to_completion(
        "myapp",
        PW1,
        vec![
            SqlReply::Rows { found: true },
            SqlReply::Failed { sqlstate: None, detail: "permission denied".to_string() },
        ],
    );
    let err = result.expect_err("alter failure fails the call");
    assert_eq!(err, Error::UpdateRoleFailed("permission denied".to_string()));
}

#[test]
fn database_creation_failure_is_reported_with_detail() {
    let (result, _) = run_to_completion(
        "myapp",
        PW1,
        vec![
            SqlReply::Rows { found: false },
            SqlReply::ExecOk,
            SqlReply::Rows { found: false },
            SqlReply::Failed { sqlstate: Some("53100".to_string()), detail: "disk full".to_string() },
        ],
    );
    let err = result.expect_err("create database failure fails the call");
    assert_eq!(err, Error::CreateDatabaseFailed("disk full".to_string()));
}
