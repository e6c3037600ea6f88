//! The errors of the library.

use arrow_schema::ArrowError;
use base64::DecodeError;
use vstd::prelude::*;

verus! {

/// The error of a Base64 text that does not decode.
#[verifier::external_type_specification]
#[verifier::external_body]
pub struct ExDecodeError(DecodeError);

/// The error of an operation on local files.
#[verifier::external_type_specification]
#[verifier::external_body]
pub struct ExIoError(std::io::Error);

/// The error of an operation on an object store.
#[verifier::external_type_specification]
#[verifier::external_body]
pub struct ExObjectStoreError(object_store::Error);

/// The error of a path within an object store.
#[verifier::external_type_specification]
#[verifier::external_body]
pub struct ExObjectStorePathError(object_store::path::Error);

/// The error of a task that did not run to its end.
#[verifier::external_type_specification]
#[verifier::external_body]
pub struct ExJoinError(tokio::task::JoinError);

/// The error of a malformed file name pattern.
#[verifier::external_type_specification]
#[verifier::external_body]
pub struct ExPatternError(glob::PatternError);

/// The error of walking the files that a pattern matches.
#[verifier::external_type_specification]
#[verifier::external_body]
pub struct ExGlobError(glob::GlobError);

/// The error of an HTTP client.
#[verifier::external_type_specification]
#[verifier::external_body]
pub struct ExReqwestError(reqwest_middleware::reqwest::Error);

/// The error of an HTTP client with middleware.
#[verifier::external_type_specification]
#[verifier::external_body]
pub struct ExMiddlewareError(reqwest_middleware::Error);

/// What went wrong in talking to the service.
#[derive(Debug)]
pub enum ConnectionError {
    /// The HTTP client failed.
    RequestError(reqwest_middleware::reqwest::Error),
    /// The middleware around the HTTP client failed.
    MiddlewareError(reqwest_middleware::Error),
}

/// What went wrong in authenticating.
#[derive(Debug)]
pub enum AuthError {
    /// A required environment variable is not set.
    MissingEnvArgument(String),
    /// The service could not be reached.
    RequestError(ConnectionError),
}

/// Any error of the library.
#[derive(Debug)]
pub enum SnowflakeApiError {
    RequestError(ConnectionError),
    AuthError(AuthError),
    ResponseDeserializationError(DecodeError),
    ArrowError(ArrowError),
    /// The S3 bucket path in a PUT request is invalid.
    InvalidBucketPath(String),
    /// No file name could be extracted from the local path.
    InvalidLocalPath(String),
    LocalIoError(std::io::Error),
    ObjectStoreError(object_store::Error),
    ObjectStorePathError(object_store::path::Error),
    TokioTaskJoinError(tokio::task::JoinError),
    /// The service answered with an error: its code and message.
    ApiError(String, String),
    /// An empty response could mean that the query was not executed correctly.
    EmptyResponse,
    /// No usable rowsets were included in the response.
    BrokenResponse,
    /// A feature that is not implemented.
    Unimplemented(String),
    /// The response is not of the kind that the request calls for.
    UnexpectedResponse,
    GlobPatternError(glob::PatternError),
    GlobError(glob::GlobError),
}

impl vstd::std_specs::convert::FromSpecImpl<ConnectionError> for SnowflakeApiError {
    open spec fn obeys_from_spec() -> bool {
        true
    }

    open spec fn from_spec(error: ConnectionError) -> Self {
        SnowflakeApiError::RequestError(error)
    }
}

impl From<ConnectionError> for SnowflakeApiError {
    fn from(error: ConnectionError) -> (converted: Self) {
        SnowflakeApiError::RequestError(error)
    }
}

impl vstd::std_specs::convert::FromSpecImpl<AuthError> for SnowflakeApiError {
    open spec fn obeys_from_spec() -> bool {
        true
    }

    open spec fn from_spec(error: AuthError) -> Self {
        SnowflakeApiError::AuthError(error)
    }
}

impl From<AuthError> for SnowflakeApiError {
    fn from(error: AuthError) -> (converted: Self) {
        SnowflakeApiError::AuthError(error)
    }
}

impl vstd::std_specs::convert::FromSpecImpl<DecodeError> for SnowflakeApiError {
    open spec fn obeys_from_spec() -> bool {
        true
    }

    open spec fn from_spec(error: DecodeError) -> Self {
        SnowflakeApiError::ResponseDeserializationError(error)
    }
}

impl From<DecodeError> for SnowflakeApiError {
    fn from(error: DecodeError) -> (converted: Self) {
        SnowflakeApiError::ResponseDeserializationError(error)
    }
}

impl vstd::std_specs::convert::FromSpecImpl<ArrowError> for SnowflakeApiError {
    open spec fn obeys_from_spec() -> bool {
        true
    }

    open spec fn from_spec(error: ArrowError) -> Self {
        SnowflakeApiError::ArrowError(error)
    }
}

impl From<ArrowError> for SnowflakeApiError {
    fn from(error: ArrowError) -> (converted: Self) {
        SnowflakeApiError::ArrowError(error)
    }
}

impl vstd::std_specs::convert::FromSpecImpl<std::io::Error> for SnowflakeApiError {
    open spec fn obeys_from_spec() -> bool {
        true
    }

    open spec fn from_spec(error: std::io::Error) -> Self {
        SnowflakeApiError::LocalIoError(error)
    }
}

impl From<std::io::Error> for SnowflakeApiError {
    fn from(error: std::io::Error) -> (converted: Self) {
        SnowflakeApiError::LocalIoError(error)
    }
}

impl vstd::std_specs::convert::FromSpecImpl<object_store::Error> for SnowflakeApiError {
    open spec fn obeys_from_spec() -> bool {
        true
    }

    open spec fn from_spec(error: object_store::Error) -> Self {
        SnowflakeApiError::ObjectStoreError(error)
    }
}

impl From<object_store::Error> for SnowflakeApiError {
    fn from(error: object_store::Error) -> (converted: Self) {
        SnowflakeApiError::ObjectStoreError(error)
    }
}

impl vstd::std_specs::convert::FromSpecImpl<object_store::path::Error> for SnowflakeApiError {
    open spec fn obeys_from_spec() -> bool {
        true
    }

    open spec fn from_spec(error: object_store::path::Error) -> Self {
        SnowflakeApiError::ObjectStorePathError(error)
    }
}

impl From<object_store::path::Error> for SnowflakeApiError {
    fn from(error: object_store::path::Error) -> (converted: Self) {
        SnowflakeApiError::ObjectStorePathError(error)
    }
}

impl vstd::std_specs::convert::FromSpecImpl<tokio::task::JoinError> for SnowflakeApiError {
    open spec fn obeys_from_spec() -> bool {
        true
    }

    open spec fn from_spec(error: tokio::task::JoinError) -> Self {
        SnowflakeApiError::TokioTaskJoinError(error)
    }
}

impl From<tokio::task::JoinError> for SnowflakeApiError {
    fn from(error: tokio::task::JoinError) -> (converted: Self) {
        SnowflakeApiError::TokioTaskJoinError(error)
    }
}

impl vstd::std_specs::convert::FromSpecImpl<glob::PatternError> for SnowflakeApiError {
    open spec fn obeys_from_spec() -> bool {
        true
    }

    open spec fn from_spec(error: glob::PatternError) -> Self {
        SnowflakeApiError::GlobPatternError(error)
    }
}

impl From<glob::PatternError> for SnowflakeApiError {
    fn from(error: glob::PatternError) -> (converted: Self) {
        SnowflakeApiError::GlobPatternError(error)
    }
}

impl vstd::std_specs::convert::FromSpecImpl<glob::GlobError> for SnowflakeApiError {
    open spec fn obeys_from_spec() -> bool {
        true
    }

    open spec fn from_spec(error: glob::GlobError) -> Self {
        SnowflakeApiError::GlobError(error)
    }
}

impl From<glob::GlobError> for SnowflakeApiError {
    fn from(error: glob::GlobError) -> (converted: Self) {
        SnowflakeApiError::GlobError(error)
    }
}

/// Every error from elsewhere becomes the variant of its kind, and holds it unchanged.
pub proof fn law_errors_keep_their_kind(
    connection: ConnectionError,
    auth: AuthError,
    decoding: DecodeError,
    arrow: ArrowError,
    io: std::io::Error,
    store: object_store::Error,
    path: object_store::path::Error,
    join: tokio::task::JoinError,
    pattern: glob::PatternError,
    walk: glob::GlobError,
)
    ensures
        <SnowflakeApiError as vstd::std_specs::convert::FromSpec<ConnectionError>>::from_spec(
            connection,
        ) == SnowflakeApiError::RequestError(connection),
        <SnowflakeApiError as vstd::std_specs::convert::FromSpec<AuthError>>::from_spec(auth)
            == SnowflakeApiError::AuthError(auth),
        <SnowflakeApiError as vstd::std_specs::convert::FromSpec<DecodeError>>::from_spec(decoding)
            == SnowflakeApiError::ResponseDeserializationError(decoding),
        <SnowflakeApiError as vstd::std_specs::convert::FromSpec<ArrowError>>::from_spec(arrow)
            == SnowflakeApiError::ArrowError(arrow),
        <SnowflakeApiError as vstd::std_specs::convert::FromSpec<std::io::Error>>::from_spec(io)
            == SnowflakeApiError::LocalIoError(io),
        <SnowflakeApiError as vstd::std_specs::convert::FromSpec<object_store::Error>>::from_spec(
            store,
        ) == SnowflakeApiError::ObjectStoreError(store),
        <SnowflakeApiError as vstd::std_specs::convert::FromSpec<
            object_store::path::Error,
        >>::from_spec(path) == SnowflakeApiError::ObjectStorePathError(path),
        <SnowflakeApiError as vstd::std_specs::convert::FromSpec<
            tokio::task::JoinError,
        >>::from_spec(join) == SnowflakeApiError::TokioTaskJoinError(join),
        <SnowflakeApiError as vstd::std_specs::convert::FromSpec<glob::PatternError>>::from_spec(
            pattern,
        ) == SnowflakeApiError::GlobPatternError(pattern),
        <SnowflakeApiError as vstd::std_specs::convert::FromSpec<glob::GlobError>>::from_spec(walk)
            == SnowflakeApiError::GlobError(walk),
{
}

} // verus!
