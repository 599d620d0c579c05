use provisioner::engine::{engine_to_port, Engine};
use provisioner::error::Error;
use provisioner::ident::{database_name, instance_id, is_valid_project_name, role_name};
use provisioner::password::generate_password;

#[test]
fn accepts_safe_project_names() {
    assert!(is_valid_project_name("myapp"));
    assert!(is_valid_project_name("my-app_2"));
    assert!(is_valid_project_name("A"));
    assert!(is_valid_project_name("0-starts-with-digit"));
}

#[test]
fn rejects_quotes_separators_and_controls() {
    assert!(!is_valid_project_name(""));
    assert!(!is_valid_project_name("it's"));
    assert!(!is_valid_project_name("a\"b"));
    assert!(!is_valid_project_name("a;b"));
    assert!(!is_valid_project_name("a b"));
    assert!(!is_valid_project_name("a\nb"));
    assert!(!is_valid_project_name("a\u{0}b"));
    assert!(!is_valid_project_name("Robert'); DROP TABLE pg_roles;--"));
}

#[test]
fn derives_identities_from_project_name() {
    assert_eq!(role_name("myapp"), "user-myapp");
    assert_eq!(database_name("myapp"), "db-myapp");
    assert_eq!(instance_id("myapp", Engine::Postgres), "myapp-postgres");
    assert_eq!(instance_id("myapp", Engine::MySql), "myapp-mysql");
    assert_eq!(instance_id("myapp", Engine::MariaDb), "myapp-mariadb");
}

#[test]
fn engine_port_mapping_is_total_and_exact() {
    assert_eq!(engine_to_port(Engine::Postgres), "5432");
    assert_eq!(engine_to_port(Engine::MySql), "3306");
    assert_eq!(engine_to_port(Engine::MariaDb), "3306");
}

#[test]
fn engine_names_match_provider_spelling() {
    assert_eq!(Engine::Postgres.name(), "postgres");
    assert_eq!(Engine::MySql.name(), "mysql");
    assert_eq!(Engine::MariaDb.name(), "mariadb");
}

#[test]
fn generated_passwords_are_twelve_alphanumeric_chars() {
    for _ in 0..32 {
        let p = generate_password();
        assert_eq!(p.len(), 12);
        assert!(p.chars().all(|c| c.is_ascii_alphanumeric()));
    }
}

#[test]
fn generated_passwords_differ_between_calls() {
    let a = generate_password();
    let b = generate_password();
    assert_ne!(a, b);
}

#[test]
fn retryable_classification_per_variant() {
    assert!(Error::CreateRoleFailed("x".to_string()).retryable());
    assert!(Error::UpdateRoleFailed("x".to_string()).retryable());
    assert!(Error::CreateDatabaseFailed("x".to_string()).retryable());
    assert!(Error::DuplicateResourceConflict.retryable());
    assert!(!Error::InvalidProjectName.retryable());
    assert!(!Error::UnexpectedProviderError("x".to_string()).retryable());
    assert!(!Error::ProvisioningTimedOut.retryable());
    assert!(!Error::MalformedProviderResponse.retryable());
}

#[test]
fn error_messages_name_the_failure() {
    assert_eq!(Error::InvalidProjectName.message(), "invalid project name");
    assert_eq!(
        Error::CreateRoleFailed("boom".to_string()).message(),
        "failed to create role: boom"
    );
    assert_eq!(
        Error::UpdateRoleFailed("boom".to_string()).message(),
        "failed to update role: boom"
    );
    assert_eq!(
        Error::CreateDatabaseFailed("boom".to_string()).message(),
        "failed to create database: boom"
    );
    assert_eq!(
        Error::DuplicateResourceConflict.message(),
        "duplicate resource created concurrently; retry the request"
    );
    assert_eq!(
        Error::UnexpectedProviderError("boom".to_string()).message(),
        "unexpected provider error: boom"
    );
    assert_eq!(
        Error::ProvisioningTimedOut.message(),
        "timed out waiting for the instance to become ready"
    );
    assert_eq!(
        Error::MalformedProviderResponse.message(),
        "provider response was missing a required field"
    );
}
