//! How clients are made.

use std::sync::Arc;

use reqwest_middleware::reqwest::Client;
use reqwest_middleware::ClientWithMiddleware;
use snowflake_api::connection::Connection;
use snowflake_api::error::ConnectionError;
use snowflake_api::session::Session;
use snowflake_api::{
    AuthArgs, AuthType, CertificateArgs, PasswordArgs, SnowflakeApi, SnowflakeApiBuilder,
    SnowflakeApiError,
};

fn client() -> ClientWithMiddleware {
    ClientWithMiddleware::from(Client::new())
}

fn auth(auth_type: AuthType) -> AuthArgs {
    AuthArgs {
        account_identifier: "org-acc\u{df}".to_string(),
        warehouse: Some("wh".to_string()),
        database: None,
        schema: Some("public".to_string()),
        username: "someone".to_string(),
        role: None,
        auth_type,
    }
}

fn password() -> AuthType {
    AuthType::Password(PasswordArgs { password: "secret".to_string() })
}

fn private_key() -> AuthType {
    AuthType::Certificate(CertificateArgs { private_key_pem: "pem".to_string() })
}

/// An error of an HTTP client: that of a malformed address.
fn request_error() -> ConnectionError {
    match Client::new().get("no address").build() {
        Err(error) => ConnectionError::RequestError(error),
        Ok(_) => panic!("expected an error"),
    }
}

fn check_session(session: &Session) {
    assert_eq!(session.account_identifier, "org-acc\u{df}");
    assert_eq!(session.warehouse.as_deref(), Some("wh"));
    assert_eq!(session.database, None);
    assert_eq!(session.schema.as_deref(), Some("public"));
    assert_eq!(session.username, "someone");
    assert_eq!(session.role, None);
}

fn is_password(session: &Session, expected: &str) -> bool {
    match &session.auth_type {
        AuthType::Password(args) => args.password == expected,
        AuthType::Certificate(_) => false,
    }
}

fn is_private_key(session: &Session, expected: &str) -> bool {
    match &session.auth_type {
        AuthType::Certificate(args) => args.private_key_pem == expected,
        AuthType::Password(_) => false,
    }
}

#[test]
fn the_builder_hands_everything_to_the_session() {
    let api = SnowflakeApiBuilder::new(auth(password())).with_client(client()).build().unwrap();
    check_session(api.session());
    assert!(is_password(api.session(), "secret"));

    let api = SnowflakeApiBuilder::new(auth(private_key())).with_client(client()).build().unwrap();
    check_session(api.session());
    assert!(is_private_key(api.session(), "pem"));
}

#[test]
fn the_account_is_upper_case_in_requests_only() {
    let api = SnowflakeApiBuilder::new(auth(password())).with_client(client()).build().unwrap();
    assert_eq!(api.account_identifier(), "ORG-ACCSS");
    assert_eq!(api.session().account_identifier, "org-acc\u{df}");
}

#[test]
fn a_client_shares_its_connection_with_the_session() {
    let api = SnowflakeApiBuilder::new(auth(password())).with_client(client()).build().unwrap();
    assert!(Arc::ptr_eq(api.connection(), &api.session().connection));
}

#[test]
fn the_builder_needs_no_http_client() {
    let api = SnowflakeApiBuilder::new(auth(private_key())).build().unwrap();
    check_session(api.session());
    assert_eq!(api.account_identifier(), "ORG-ACCSS");
}

#[test]
fn the_arguments_of_a_builder_stay_readable() {
    let builder = SnowflakeApiBuilder::new(auth(password()));
    assert_eq!(builder.auth.username, "someone");
    assert_eq!(builder.with_client(client()).auth.username, "someone");
}

#[test]
fn password_clients_are_made_directly_too() {
    let api = SnowflakeApi::with_password_auth(
        "org-acc\u{df}",
        Some("wh"),
        None,
        Some("public"),
        "someone",
        None,
        "secret",
    )
    .unwrap();
    check_session(api.session());
    assert!(is_password(api.session(), "secret"));
    assert_eq!(api.account_identifier(), "ORG-ACCSS");
}

#[test]
fn certificate_clients_are_made_directly_too() {
    let api = SnowflakeApi::with_certificate_auth(
        "org-acc\u{df}",
        Some("wh"),
        None,
        Some("public"),
        "someone",
        None,
        "pem",
    )
    .unwrap();
    check_session(api.session());
    assert!(is_private_key(api.session(), "pem"));
    assert_eq!(api.account_identifier(), "ORG-ACCSS");
}

#[test]
fn a_failed_connection_is_a_request_error() {
    let made = SnowflakeApi::connected_with_password(
        Err(request_error()),
        "a",
        None,
        None,
        None,
        "u",
        None,
        "p",
    );
    assert!(matches!(
        made,
        Err(SnowflakeApiError::RequestError(ConnectionError::RequestError(_)))
    ));
    let made = SnowflakeApi::connected_with_certificate(
        Err(request_error()),
        "a",
        None,
        None,
        None,
        "u",
        None,
        "p",
    );
    assert!(matches!(
        made,
        Err(SnowflakeApiError::RequestError(ConnectionError::RequestError(_)))
    ));
    let made = SnowflakeApiBuilder::build_over(auth(password()), Err(request_error()));
    assert!(matches!(
        made,
        Err(SnowflakeApiError::RequestError(ConnectionError::RequestError(_)))
    ));
}

#[test]
fn a_connection_is_made_over_a_client_that_was_built() {
    assert!(Connection::over(Ok(client())).is_ok());
    match Client::new().get("no address").build() {
        Err(error) => assert!(matches!(
            Connection::over(Err(error)),
            Err(ConnectionError::RequestError(_))
        )),
        Ok(_) => panic!("expected an error"),
    }
}

#[test]
fn clients_are_made_of_their_parts() {
    let connection = Arc::new(Connection::new_with_middware(client()));
    let session = Session::password_auth(
        Arc::clone(&connection),
        "lower",
        None,
        Some("db"),
        None,
        "u",
        Some("r"),
        "p",
    );
    let api = SnowflakeApi::new(connection, session, "as given".to_string());
    assert_eq!(api.account_identifier(), "as given");
    assert_eq!(api.session().account_identifier, "lower");
    assert_eq!(api.session().database.as_deref(), Some("db"));
    assert_eq!(api.session().role.as_deref(), Some("r"));
}

#[test]
fn a_complete_environment_makes_a_client() {
    let vars: Vec<(String, String)> = [
        ("SNOWFLAKE_ACCOUNT", "org-acc"),
        ("SNOWFLAKE_USER", "someone"),
        ("SNOWFLAKE_PASSWORD", "secret"),
        ("SNOWFLAKE_ROLE", "analyst"),
    ]
    .iter()
    .map(|(name, value)| (name.to_string(), value.to_string()))
    .collect();
    let api = SnowflakeApi::from_env(&vars).unwrap();
    assert_eq!(api.account_identifier(), "ORG-ACC");
    assert_eq!(api.session().account_identifier, "org-acc");
    assert_eq!(api.session().role.as_deref(), Some("analyst"));
    assert!(is_password(api.session(), "secret"));
}
