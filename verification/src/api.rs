//! The client of the service, and how it is made.

use std::sync::Arc;

use reqwest_middleware::ClientWithMiddleware;
use vstd::prelude::*;

use crate::auth::{AuthArgs, AuthArgsView, AuthType, AuthTypeView};
use crate::connection::Connection;
use crate::error::{ConnectionError, SnowflakeApiError};
use crate::session::{Session, SessionView};
use crate::{auth, text};

verus! {

/// The client of the service. It keeps a pool of connections and manages the session.
pub struct SnowflakeApi {
    connection: Arc<Connection>,
    session: Session,
    account_identifier: String,
}

/// What a client is made of.
#[verifier::ext_equal]
pub struct SnowflakeApiView {
    pub connection: Connection,
    pub session: SessionView,
    pub account_identifier: Seq<char>,
}

impl View for SnowflakeApi {
    type V = SnowflakeApiView;

    closed spec fn view(&self) -> SnowflakeApiView {
        SnowflakeApiView {
            connection: *self.connection,
            session: self.session@,
            account_identifier: self.account_identifier@,
        }
    }
}

/// The client that arguments describe, over a connection. The session gets the account
/// identifier as it was given; requests carry it in upper case.
pub open spec fn api_for(auth: AuthArgsView, connection: Connection) -> SnowflakeApiView {
    SnowflakeApiView {
        connection,
        session: SessionView {
            connection,
            account_identifier: auth.account_identifier,
            warehouse: auth.warehouse,
            database: auth.database,
            schema: auth.schema,
            username: auth.username,
            role: auth.role,
            auth_type: auth.auth_type,
        },
        account_identifier: text::uppercase(auth.account_identifier),
    }
}

/// Whether a client, or the error in its place, is what arguments give over the outcome of
/// connecting.
pub open spec fn opens_over(
    api: Result<SnowflakeApi, SnowflakeApiError>,
    auth: AuthArgsView,
    connection: Result<Connection, ConnectionError>,
) -> bool {
    match connection {
        Ok(connection) => api matches Ok(api) && api@ == api_for(auth, connection),
        Err(error) => api == Err::<SnowflakeApi, SnowflakeApiError>(
            SnowflakeApiError::RequestError(error),
        ),
    }
}

/// Whether a client, or the error in its place, is what arguments give over a connection
/// with default settings, however connecting went.
pub open spec fn opens(
    api: Result<SnowflakeApi, SnowflakeApiError>,
    auth: AuthArgsView,
) -> bool {
    match api {
        Ok(api) => api@ == api_for(auth, api@.connection),
        Err(error) => error matches SnowflakeApiError::RequestError(
            ConnectionError::RequestError(_),
        ),
    }
}

/// Whether a client, or the error in its place, is what an environment gives.
pub open spec fn opens_from(
    api: Result<SnowflakeApi, SnowflakeApiError>,
    vars: Seq<(String, String)>,
) -> bool {
    match auth::env_auth_args(vars) {
        Ok(found) => opens(api, found),
        Err(missing) => api matches Err(error) && auth::is_missing_env(error, missing),
    }
}

/// Whether a client, or the error in its place, is what a builder makes.
pub open spec fn builds(
    api: Result<SnowflakeApi, SnowflakeApiError>,
    builder: SnowflakeApiBuilderView,
) -> bool {
    match builder.client {
        Some(client) => opens_over(api, builder.auth@, Ok(Connection { client })),
        None => opens(api, builder.auth@),
    }
}

/// The texts of arguments with a credential.
pub open spec fn auth_args(
    account_identifier: &str,
    warehouse: Option<&str>,
    database: Option<&str>,
    schema: Option<&str>,
    username: &str,
    role: Option<&str>,
    auth_type: AuthTypeView,
) -> AuthArgsView {
    AuthArgsView {
        account_identifier: account_identifier@,
        warehouse: text::chars_of_str(warehouse),
        database: text::chars_of_str(database),
        schema: text::chars_of_str(schema),
        username: username@,
        role: text::chars_of_str(role),
        auth_type,
    }
}

impl SnowflakeApi {
    /// A client over an existing connection and session.
    pub fn new(connection: Arc<Connection>, session: Session, account_identifier: String) -> (api:
        Self)
        ensures
            api@ == (SnowflakeApiView {
                connection: *connection,
                session: session@,
                account_identifier: account_identifier@,
            }),
    {
        Self { connection, session, account_identifier }
    }

    /// The connection of the client.
    pub fn connection(&self) -> (connection: &Arc<Connection>)
        ensures
            **connection == self@.connection,
    {
        &self.connection
    }

    /// The session of the client.
    pub fn session(&self) -> (session: &Session)
        ensures
            session@ == self@.session,
    {
        &self.session
    }

    /// The account identifier that requests carry.
    pub fn account_identifier(&self) -> (account_identifier: &str)
        ensures
            account_identifier@ == self@.account_identifier,
    {
        self.account_identifier.as_str()
    }

    /// A client with password authentication, over the outcome of connecting.
    pub fn connected_with_password(
        connection: Result<Connection, ConnectionError>,
        account_identifier: &str,
        warehouse: Option<&str>,
        database: Option<&str>,
        schema: Option<&str>,
        username: &str,
        role: Option<&str>,
        password: &str,
    ) -> (api: Result<Self, SnowflakeApiError>)
        ensures
            opens_over(
                api,
                auth_args(
                    account_identifier,
                    warehouse,
                    database,
                    schema,
                    username,
                    role,
                    AuthTypeView::Password(password@),
                ),
                connection,
            ),
    {
        let connection = match connection {
            Ok(connection) => Arc::new(connection),
            Err(error) => {
                return Err(SnowflakeApiError::from(error));
            },
        };
        let session = Session::password_auth(
            Arc::clone(&connection),
            account_identifier,
            warehouse,
            database,
            schema,
            username,
            role,
            password,
        );
        let account_identifier = text::to_uppercase(account_identifier);
        Ok(Self::new(connection, session, account_identifier))
    }

    /// A client with certificate authentication, over the outcome of connecting.
    pub fn connected_with_certificate(
        connection: Result<Connection, ConnectionError>,
        account_identifier: &str,
        warehouse: Option<&str>,
        database: Option<&str>,
        schema: Option<&str>,
        username: &str,
        role: Option<&str>,
        private_key_pem: &str,
    ) -> (api: Result<Self, SnowflakeApiError>)
        ensures
            opens_over(
                api,
                auth_args(
                    account_identifier,
                    warehouse,
                    database,
                    schema,
                    username,
                    role,
                    AuthTypeView::Certificate(private_key_pem@),
                ),
                connection,
            ),
    {
        let connection = match connection {
            Ok(connection) => Arc::new(connection),
            Err(error) => {
                return Err(SnowflakeApiError::from(error));
            },
        };
        let session = Session::cert_auth(
            Arc::clone(&connection),
            account_identifier,
            warehouse,
            database,
            schema,
            username,
            role,
            private_key_pem,
        );
        let account_identifier = text::to_uppercase(account_identifier);
        Ok(Self::new(connection, session, account_identifier))
    }

    /// A client with password authentication. Authentication happens with the first
    /// request.
    pub fn with_password_auth(
        account_identifier: &str,
        warehouse: Option<&str>,
        database: Option<&str>,
        schema: Option<&str>,
        username: &str,
        role: Option<&str>,
        password: &str,
    ) -> (api: Result<Self, SnowflakeApiError>)
        ensures
            opens(
                api,
                auth_args(
                    account_identifier,
                    warehouse,
                    database,
                    schema,
                    username,
                    role,
                    AuthTypeView::Password(password@),
                ),
            ),
    {
        Self::connected_with_password(
            Connection::new(),
            account_identifier,
            warehouse,
            database,
            schema,
            username,
            role,
            password,
        )
    }

    /// A client with private key authentication. Authentication happens with the first
    /// request.
    pub fn with_certificate_auth(
        account_identifier: &str,
        warehouse: Option<&str>,
        database: Option<&str>,
        schema: Option<&str>,
        username: &str,
        role: Option<&str>,
        private_key_pem: &str,
    ) -> (api: Result<Self, SnowflakeApiError>)
        ensures
            opens(
                api,
                auth_args(
                    account_identifier,
                    warehouse,
                    database,
                    schema,
                    username,
                    role,
                    AuthTypeView::Certificate(private_key_pem@),
                ),
            ),
    {
        Self::connected_with_certificate(
            Connection::new(),
            account_identifier,
            warehouse,
            database,
            schema,
            username,
            role,
            private_key_pem,
        )
    }

    /// A client for what an environment, given as names and values, says.
    pub fn from_env(vars: &Vec<(String, String)>) -> (api: Result<Self, SnowflakeApiError>)
        ensures
            match auth::env_auth_args(vars@) {
                Ok(found) => opens(api, found),
                Err(missing) => api matches Err(error) && auth::is_missing_env(error, missing),
            },
            opens_from(api, vars@),
    {
        match AuthArgs::from_env(vars) {
            Ok(args) => SnowflakeApiBuilder::new(args).build(),
            Err(error) => Err(error),
        }
    }
}

/// Collects what a client is made of.
#[must_use]
pub struct SnowflakeApiBuilder {
    pub auth: AuthArgs,
    client: Option<ClientWithMiddleware>,
}

/// What a builder has collected.
pub struct SnowflakeApiBuilderView {
    pub auth: AuthArgs,
    /// The HTTP client to use, where one was given.
    pub client: Option<ClientWithMiddleware>,
}

impl View for SnowflakeApiBuilder {
    type V = SnowflakeApiBuilderView;

    closed spec fn view(&self) -> SnowflakeApiBuilderView {
        SnowflakeApiBuilderView { auth: self.auth, client: self.client }
    }
}

impl SnowflakeApiBuilder {
    /// A builder for the given arguments, with a default HTTP client.
    pub fn new(auth: AuthArgs) -> (builder: Self)
        ensures
            builder@ == (SnowflakeApiBuilderView { auth, client: None }),
    {
        Self { auth, client: None }
    }

    /// The same with the given HTTP client.
    pub fn with_client(self, client: ClientWithMiddleware) -> (builder: Self)
        ensures
            builder@ == (SnowflakeApiBuilderView { auth: self@.auth, client: Some(client) }),
    {
        Self { auth: self.auth, client: Some(client) }
    }

    /// Makes the client.
    pub fn build(self) -> (api: Result<SnowflakeApi, SnowflakeApiError>)
        ensures
            match self@.client {
                Some(client) => opens_over(api, self@.auth@, Ok(Connection { client })),
                None => opens(api, self@.auth@),
            },
            builds(api, self@),
    {
        let connection = match self.client {
            Some(client) => Ok(Connection::new_with_middware(client)),
            None => Connection::new(),
        };
        Self::build_over(self.auth, connection)
    }

    /// Makes the client over the outcome of connecting.
    pub fn build_over(
        auth: AuthArgs,
        connection: Result<Connection, ConnectionError>,
    ) -> (api: Result<SnowflakeApi, SnowflakeApiError>)
        ensures
            opens_over(api, auth@, connection),
    {
        let account_identifier = auth.account_identifier.as_str();
        let warehouse = text::borrowed(&auth.warehouse);
        let database = text::borrowed(&auth.database);
        let schema = text::borrowed(&auth.schema);
        let username = auth.username.as_str();
        let role = text::borrowed(&auth.role);
        match &auth.auth_type {
            AuthType::Password(args) => SnowflakeApi::connected_with_password(
                connection,
                account_identifier,
                warehouse,
                database,
                schema,
                username,
                role,
                args.password.as_str(),
            ),
            AuthType::Certificate(args) => SnowflakeApi::connected_with_certificate(
                connection,
                account_identifier,
                warehouse,
                database,
                schema,
                username,
                role,
                args.private_key_pem.as_str(),
            ),
        }
    }
}

/// Equal arguments give equal clients over one connection, however they are handed over.
pub proof fn law_equal_arguments_give_equal_clients(
    one: Result<SnowflakeApi, SnowflakeApiError>,
    other: Result<SnowflakeApi, SnowflakeApiError>,
    auth: AuthArgsView,
    connection: Result<Connection, ConnectionError>,
)
    requires
        opens_over(one, auth, connection),
        opens_over(other, auth, connection),
    ensures
        one is Ok <==> other is Ok,
        one matches Ok(api) ==> api@ == other->Ok_0@,
        one matches Err(error) ==> error == other->Err_0,
{
}

/// The session of a client holds every argument as it was given: what is left out stays out,
/// and the rest has the same text. It shares the connection of the client, and only requests
/// name the account in upper case.
pub proof fn law_session_holds_every_argument(
    api: SnowflakeApi,
    session: Session,
    account_identifier: &str,
    warehouse: Option<&str>,
    database: Option<&str>,
    schema: Option<&str>,
    username: &str,
    role: Option<&str>,
    credential: AuthTypeView,
)
    requires
        opens_over(
            Ok(api),
            auth_args(
                account_identifier,
                warehouse,
                database,
                schema,
                username,
                role,
                credential,
            ),
            Ok(api@.connection),
        ) || opens(
            Ok(api),
            auth_args(
                account_identifier,
                warehouse,
                database,
                schema,
                username,
                role,
                credential,
            ),
        ),
        session@ == api@.session,
    ensures
        session.account_identifier@ == account_identifier@,
        session.warehouse is Some <==> warehouse is Some,
        session.warehouse matches Some(text) ==> text@ == warehouse->0@,
        session.database is Some <==> database is Some,
        session.database matches Some(text) ==> text@ == database->0@,
        session.schema is Some <==> schema is Some,
        session.schema matches Some(text) ==> text@ == schema->0@,
        session.username@ == username@,
        session.role is Some <==> role is Some,
        session.role matches Some(text) ==> text@ == role->0@,
        session.auth_type matches AuthType::Password(args) ==> credential
            == AuthTypeView::Password(args.password@),
        session.auth_type matches AuthType::Certificate(args) ==> credential
            == AuthTypeView::Certificate(args.private_key_pem@),
        *session.connection == api@.connection,
        api@.account_identifier == text::uppercase(account_identifier@),
{
    assert(session@.warehouse == text::chars_of(session.warehouse));
    assert(session@.database == text::chars_of(session.database));
    assert(session@.schema == text::chars_of(session.schema));
    assert(session@.role == text::chars_of(session.role));
}

/// The same of a client that is made of arguments as a whole.
pub proof fn law_session_holds_the_arguments_of_a_builder(
    api: SnowflakeApi,
    session: Session,
    auth: AuthArgs,
)
    requires
        opens_over(Ok(api), auth@, Ok(api@.connection)) || opens(Ok(api), auth@),
        session@ == api@.session,
    ensures
        session.account_identifier@ == auth.account_identifier@,
        session.warehouse is Some <==> auth.warehouse is Some,
        session.warehouse matches Some(text) ==> text@ == auth.warehouse->0@,
        session.database is Some <==> auth.database is Some,
        session.database matches Some(text) ==> text@ == auth.database->0@,
        session.schema is Some <==> auth.schema is Some,
        session.schema matches Some(text) ==> text@ == auth.schema->0@,
        session.username@ == auth.username@,
        session.role is Some <==> auth.role is Some,
        session.role matches Some(text) ==> text@ == auth.role->0@,
        session.auth_type is Password <==> auth.auth_type is Password,
        session.auth_type matches AuthType::Password(args) ==> auth.auth_type matches
            AuthType::Password(given) && args.password@ == given.password@,
        session.auth_type matches AuthType::Certificate(args) ==> auth.auth_type matches
            AuthType::Certificate(given) && args.private_key_pem@ == given.private_key_pem@,
        *session.connection == api@.connection,
        api@.account_identifier == text::uppercase(auth.account_identifier@),
{
    assert(session@.warehouse == text::chars_of(session.warehouse));
    assert(session@.database == text::chars_of(session.database));
    assert(session@.schema == text::chars_of(session.schema));
    assert(session@.role == text::chars_of(session.role));
    assert(auth@.warehouse == text::chars_of(auth.warehouse));
    assert(auth@.database == text::chars_of(auth.database));
    assert(auth@.schema == text::chars_of(auth.schema));
    assert(auth@.role == text::chars_of(auth.role));
}

/// A client is there exactly where the connection is, and uses it; else the error of the
/// connection comes back.
pub proof fn law_a_client_needs_its_connection(
    api: Result<SnowflakeApi, SnowflakeApiError>,
    auth: AuthArgsView,
    connection: Result<Connection, ConnectionError>,
)
    requires
        opens_over(api, auth, connection),
    ensures
        api is Ok <==> connection is Ok,
        api matches Ok(api) ==> api@.connection == connection->Ok_0 && api@.session.connection
            == connection->Ok_0,
        connection matches Err(error) ==> api == Err::<SnowflakeApi, SnowflakeApiError>(
            SnowflakeApiError::RequestError(error),
        ),
{
}

/// Over a connection with default settings nothing can fail but building its HTTP client.
pub proof fn law_only_the_default_client_can_fail(
    api: Result<SnowflakeApi, SnowflakeApiError>,
    auth: AuthArgsView,
)
    requires
        opens(api, auth),
    ensures
        api matches Err(error) ==> error matches SnowflakeApiError::RequestError(inner)
            && inner is RequestError,
        api matches Ok(api) ==> api@.session.connection == api@.connection,
{
}

/// A client from an environment is opened with every setting that the environment gives, and
/// none other; without an account, a user or a credential there is none.
pub proof fn law_an_environment_opens_its_session(
    api: Result<SnowflakeApi, SnowflakeApiError>,
    vars: Seq<(String, String)>,
)
    requires
        opens_from(api, vars),
    ensures
        api matches Ok(api) ==> {
            &&& Some(api@.session.account_identifier) == auth::env_value(
                vars,
                "SNOWFLAKE_ACCOUNT"@,
            )
            &&& Some(api@.session.username) == auth::env_value(vars, "SNOWFLAKE_USER"@)
            &&& api@.session.warehouse == auth::env_value(vars, "SNOWLFLAKE_WAREHOUSE"@)
            &&& api@.session.database == auth::env_value(vars, "SNOWFLAKE_DATABASE"@)
            &&& api@.session.schema == auth::env_value(vars, "SNOWFLAKE_SCHEMA"@)
            &&& api@.session.role == auth::env_value(vars, "SNOWFLAKE_ROLE"@)
            &&& auth::env_value(vars, "SNOWFLAKE_PASSWORD"@) matches Some(password)
                ==> api@.session.auth_type == AuthTypeView::Password(password)
            &&& auth::env_value(vars, "SNOWFLAKE_PASSWORD"@) is None ==> (auth::env_value(
                vars,
                "SNOWFLAKE_PRIVATE_KEY"@,
            ) matches Some(key) && api@.session.auth_type == AuthTypeView::Certificate(key))
            &&& api@.account_identifier == text::uppercase(api@.session.account_identifier)
        },
        auth::env_value(vars, "SNOWFLAKE_ACCOUNT"@) is None || auth::env_value(
            vars,
            "SNOWFLAKE_USER"@,
        ) is None || auth::env_value(vars, "SNOWFLAKE_PASSWORD"@) is None && auth::env_value(
            vars,
            "SNOWFLAKE_PRIVATE_KEY"@,
        ) is None ==> (api matches Err(error) && (error matches SnowflakeApiError::AuthError(inner)
            && inner is MissingEnvArgument)),
{
}

/// A builder makes its client of its arguments, field by field, and over its HTTP client where
/// it has one, which then cannot fail.
pub proof fn law_a_builder_makes_what_it_was_given(
    api: Result<SnowflakeApi, SnowflakeApiError>,
    builder: SnowflakeApiBuilderView,
)
    requires
        builds(api, builder),
    ensures
        builder.client is Some ==> api is Ok,
        api matches Ok(api) ==> {
            &&& builder.client matches Some(client) ==> api@.connection.client == client
            &&& api@.session.connection == api@.connection
            &&& api@.session.account_identifier == builder.auth.account_identifier@
            &&& api@.session.username == builder.auth.username@
            &&& api@.session.warehouse == text::chars_of(builder.auth.warehouse)
            &&& api@.session.database == text::chars_of(builder.auth.database)
            &&& api@.session.schema == text::chars_of(builder.auth.schema)
            &&& api@.session.role == text::chars_of(builder.auth.role)
            &&& builder.auth.auth_type matches AuthType::Password(args)
                ==> api@.session.auth_type == AuthTypeView::Password(args.password@)
            &&& builder.auth.auth_type matches AuthType::Certificate(args)
                ==> api@.session.auth_type == AuthTypeView::Certificate(args.private_key_pem@)
            &&& api@.account_identifier == text::uppercase(builder.auth.account_identifier@)
        },
        api matches Err(error) ==> error is RequestError,
{
}

} // verus!
