//! Credentials from an environment.

use snowflake_api::error::AuthError;
use snowflake_api::{AuthArgs, AuthType, SnowflakeApi, SnowflakeApiError};

fn env(pairs: &[(&str, &str)]) -> Vec<(String, String)> {
    pairs.iter().map(|(name, value)| (name.to_string(), value.to_string())).collect()
}

fn args(pairs: &[(&str, &str)]) -> AuthArgs {
    AuthArgs::from_env(&env(pairs)).expect("a complete environment")
}

fn missing(pairs: &[(&str, &str)]) -> String {
    match AuthArgs::from_env(&env(pairs)) {
        Err(SnowflakeApiError::AuthError(AuthError::MissingEnvArgument(name))) => name,
        Err(other) => panic!("unexpected {other:?}"),
        Ok(_) => panic!("expected an error"),
    }
}

#[test]
fn all_variables_are_read() {
    let found = args(&[
        ("SNOWFLAKE_ROLE", "analyst"),
        ("SNOWFLAKE_PASSWORD", "secret"),
        ("SNOWFLAKE_SCHEMA", "public"),
        ("SNOWFLAKE_DATABASE", "db"),
        ("SNOWLFLAKE_WAREHOUSE", "wh"),
        ("SNOWFLAKE_USER", "someone"),
        ("SNOWFLAKE_ACCOUNT", "org-acc"),
    ]);
    assert_eq!(found.account_identifier, "org-acc");
    assert_eq!(found.warehouse.as_deref(), Some("wh"));
    assert_eq!(found.database.as_deref(), Some("db"));
    assert_eq!(found.schema.as_deref(), Some("public"));
    assert_eq!(found.username, "someone");
    assert_eq!(found.role.as_deref(), Some("analyst"));
    match found.auth_type {
        AuthType::Password(args) => assert_eq!(args.password, "secret"),
        AuthType::Certificate(_) => panic!("expected a password"),
    }
}

#[test]
fn account_user_and_credential_suffice() {
    let found = args(&[
        ("SNOWFLAKE_ACCOUNT", "a"),
        ("SNOWFLAKE_USER", "u"),
        ("SNOWFLAKE_PRIVATE_KEY", "pem"),
    ]);
    assert_eq!(found.warehouse, None);
    assert_eq!(found.database, None);
    assert_eq!(found.schema, None);
    assert_eq!(found.role, None);
    match found.auth_type {
        AuthType::Certificate(args) => assert_eq!(args.private_key_pem, "pem"),
        AuthType::Password(_) => panic!("expected a private key"),
    }
}

#[test]
fn a_password_goes_before_a_private_key() {
    let found = args(&[
        ("SNOWFLAKE_PRIVATE_KEY", "pem"),
        ("SNOWFLAKE_PASSWORD", ""),
        ("SNOWFLAKE_ACCOUNT", "a"),
        ("SNOWFLAKE_USER", "u"),
    ]);
    match found.auth_type {
        AuthType::Password(args) => assert_eq!(args.password, ""),
        AuthType::Certificate(_) => panic!("expected a password"),
    }
}

#[test]
fn what_is_missing_is_named_in_order() {
    assert_eq!(missing(&[]), "SNOWFLAKE_ACCOUNT");
    assert_eq!(missing(&[("SNOWFLAKE_USER", "u")]), "SNOWFLAKE_ACCOUNT");
    assert_eq!(missing(&[("SNOWFLAKE_ACCOUNT", "a")]), "SNOWFLAKE_USER");
    assert_eq!(
        missing(&[("SNOWFLAKE_ACCOUNT", "a"), ("SNOWFLAKE_USER", "u"), ("snowflake_password", "p")]),
        "SNOWFLAKE_PASSWORD or SNOWFLAKE_PRIVATE_KEY"
    );
}

#[test]
fn the_first_of_two_values_counts() {
    let found = args(&[
        ("SNOWFLAKE_ACCOUNT", "first"),
        ("SNOWFLAKE_ACCOUNT", "second"),
        ("SNOWFLAKE_USER", "u"),
        ("SNOWFLAKE_PASSWORD", "p"),
    ]);
    assert_eq!(found.account_identifier, "first");
}

#[test]
fn a_client_needs_a_complete_environment() {
    match SnowflakeApi::from_env(&env(&[("SNOWFLAKE_ACCOUNT", "a")])) {
        Err(SnowflakeApiError::AuthError(AuthError::MissingEnvArgument(name))) => {
            assert_eq!(name, "SNOWFLAKE_USER")
        }
        Err(other) => panic!("unexpected {other:?}"),
        Ok(_) => panic!("expected an error"),
    }
}
