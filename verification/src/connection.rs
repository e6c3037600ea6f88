//! Connections to the service, and the requests that go over them.

use reqwest_middleware::reqwest::Client;
use reqwest_middleware::ClientWithMiddleware;
use vstd::prelude::*;

use crate::error::ConnectionError;

verus! {

/// An HTTP client with middleware.
#[verifier::external_type_specification]
#[verifier::external_body]
pub struct ExClientWithMiddleware(ClientWithMiddleware);

/// A pool of connections to the service.
pub struct Connection {
    pub client: ClientWithMiddleware,
}

/// Builds a `reqwest` client with its defaults, and wraps it without middleware. It reads
/// the machine's proxy settings, so nothing is claimed of the outcome.
#[verifier::external_body]
fn default_client() -> (client: Result<ClientWithMiddleware, reqwest_middleware::reqwest::Error>) {
    Client::builder().build().map(ClientWithMiddleware::from)
}

/// Whether a connection, or the error in its place, is what the outcome of building an HTTP
/// client gives.
pub open spec fn connects(
    connection: Result<Connection, ConnectionError>,
    client: Result<ClientWithMiddleware, reqwest_middleware::reqwest::Error>,
) -> bool {
    match client {
        Ok(client) => connection matches Ok(connection) && connection.client == client,
        Err(error) => connection matches Err(ConnectionError::RequestError(returned)) && returned
            == error,
    }
}

impl Connection {
    /// A connection over an HTTP client with default settings. Whether such a client can be
    /// built is up to the machine; [`Connection::over`] says what comes of either outcome.
    pub fn new() -> (connection: Result<Connection, ConnectionError>)
        ensures
            connection matches Err(error) ==> error is RequestError,
    {
        Connection::over(default_client())
    }

    /// A connection over the given HTTP client.
    pub fn new_with_middware(client: ClientWithMiddleware) -> (connection: Connection)
        ensures
            connection.client == client,
    {
        Connection { client }
    }

    /// A connection over the outcome of building an HTTP client.
    pub fn over(
        client: Result<ClientWithMiddleware, reqwest_middleware::reqwest::Error>,
    ) -> (connection: Result<Connection, ConnectionError>)
        ensures
            connection == (match client {
                Ok(client) => Ok(Connection { client }),
                Err(error) => Err(ConnectionError::RequestError(error)),
            }),
            connects(connection, client),
    {
        match client {
            Ok(client) => Ok(Connection::new_with_middware(client)),
            Err(error) => Err(ConnectionError::RequestError(error)),
        }
    }
}

/// The kind of answer that a request asks for.
pub enum QueryType {
    JsonQuery,
    ArrowQuery,
}

/// A statement to execute.
pub struct ExecRequest {
    pub sql_text: String,
    pub async_exec: bool,
    pub sequence_id: u64,
    pub is_internal: bool,
}

/// A request to the service.
pub struct ApiRequest {
    pub query_type: QueryType,
    pub account_identifier: String,
    /// Further parameters of the URL, as names and values.
    pub extra_get_params: Vec<(String, String)>,
    /// The authorization header.
    pub auth: Option<String>,
    pub body: ExecRequest,
}

/// A connection is there exactly where its HTTP client is, and uses it.
pub proof fn law_a_connection_uses_its_client(
    connection: Result<Connection, ConnectionError>,
    client: Result<ClientWithMiddleware, reqwest_middleware::reqwest::Error>,
)
    requires
        connects(connection, client),
    ensures
        connection is Ok <==> client is Ok,
        connection matches Ok(connection) ==> Ok::<
            ClientWithMiddleware,
            reqwest_middleware::reqwest::Error,
        >(connection.client) == client,
        client matches Err(error) ==> connection == Err::<Connection, ConnectionError>(
            ConnectionError::RequestError(error),
        ),
{
}

} // verus!
