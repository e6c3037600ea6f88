//! Sessions with the service.

use std::sync::Arc;

use vstd::prelude::*;

use crate::auth::{AuthType, AuthTypeView, CertificateArgs, PasswordArgs};
use crate::connection::Connection;
use crate::text;

verus! {

/// A session to be opened with the first request.
pub struct Session {
    pub connection: Arc<Connection>,
    pub account_identifier: String,
    pub warehouse: Option<String>,
    pub database: Option<String>,
    pub schema: Option<String>,
    pub username: String,
    pub role: Option<String>,
    pub auth_type: AuthType,
}

/// What a session is opened with.
#[verifier::ext_equal]
pub struct SessionView {
    pub connection: Connection,
    pub account_identifier: Seq<char>,
    pub warehouse: Option<Seq<char>>,
    pub database: Option<Seq<char>>,
    pub schema: Option<Seq<char>>,
    pub username: Seq<char>,
    pub role: Option<Seq<char>>,
    pub auth_type: AuthTypeView,
}

impl View for Session {
    type V = SessionView;

    open spec fn view(&self) -> SessionView {
        SessionView {
            connection: *self.connection,
            account_identifier: self.account_identifier@,
            warehouse: text::chars_of(self.warehouse),
            database: text::chars_of(self.database),
            schema: text::chars_of(self.schema),
            username: self.username@,
            role: text::chars_of(self.role),
            auth_type: self.auth_type@,
        }
    }
}

impl Session {
    /// A session that authenticates with a password.
    pub fn password_auth(
        connection: Arc<Connection>,
        account_identifier: &str,
        warehouse: Option<&str>,
        database: Option<&str>,
        schema: Option<&str>,
        username: &str,
        role: Option<&str>,
        password: &str,
    ) -> (session: Session)
        ensures
            session@ == (SessionView {
                connection: *connection,
                account_identifier: account_identifier@,
                warehouse: text::chars_of_str(warehouse),
                database: text::chars_of_str(database),
                schema: text::chars_of_str(schema),
                username: username@,
                role: text::chars_of_str(role),
                auth_type: AuthTypeView::Password(password@),
            }),
    {
        Session {
            connection,
            account_identifier: account_identifier.to_owned(),
            warehouse: text::owned(warehouse),
            database: text::owned(database),
            schema: text::owned(schema),
            username: username.to_owned(),
            role: text::owned(role),
            auth_type: AuthType::Password(PasswordArgs { password: password.to_owned() }),
        }
    }

    /// A session that authenticates with a private key.
    pub fn cert_auth(
        connection: Arc<Connection>,
        account_identifier: &str,
        warehouse: Option<&str>,
        database: Option<&str>,
        schema: Option<&str>,
        username: &str,
        role: Option<&str>,
        private_key_pem: &str,
    ) -> (session: Session)
        ensures
            session@ == (SessionView {
                connection: *connection,
                account_identifier: account_identifier@,
                warehouse: text::chars_of_str(warehouse),
                database: text::chars_of_str(database),
                schema: text::chars_of_str(schema),
                username: username@,
                role: text::chars_of_str(role),
                auth_type: AuthTypeView::Certificate(private_key_pem@),
            }),
    {
        Session {
            connection,
            account_identifier: account_identifier.to_owned(),
            warehouse: text::owned(warehouse),
            database: text::owned(database),
            schema: text::owned(schema),
            username: username.to_owned(),
            role: text::owned(role),
            auth_type: AuthType::Certificate(
                CertificateArgs { private_key_pem: private_key_pem.to_owned() },
            ),
        }
    }
}

/// What an open session gives to each request.
pub struct AuthParts {
    pub session_token_auth_header: String,
    pub sequence_id: u64,
}

} // verus!
