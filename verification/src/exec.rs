//! The execution of statements.
//!
//! Talking to the service is left to the caller; here is what to ask it, and what to make of
//! its answers. A statement runs like this:
//!
//! * [`SnowflakeApi::exec_raw`] tells how it is to be run, its [`Flow`];
//! * [`Flow::request`] turns it and the session's token into a request;
//! * [`Flow::reply`] makes of the answer a result, an upload, or chunks to fetch;
//! * [`SnowflakeApi::finish_put`] and [`ChunkFetch::finish`] complete the latter two.

use std::collections::HashMap;

use base64::{DecodeError, Engine};
use bytes::Bytes;
use vstd::prelude::*;

use crate::api::SnowflakeApi;
use crate::arrow::{Opening, RecordBatch, Step};
use crate::auth::AuthArgsView;
use crate::connection::{ApiRequest, Connection, ExecRequest, QueryType};
use crate::error::{AuthError, ConnectionError, SnowflakeApiError};
use crate::query::{Decoded, JsonResult, QueryResult, RawQueryResult};
use crate::responses::{
    ExecErrorResponse, ExecResponse, ExecResponseChunk, QueryExecResponse, QueryExecResponseData,
};
use crate::session::AuthParts;
use crate::{api, arrow, query, statement, text};

verus! {

// ---------------------------------------------------------------------------
// Requests
// ---------------------------------------------------------------------------

/// How a statement is run.
pub enum Flow {
    /// The answer says what to upload where, and the result is the side effect.
    Put,
    /// The answer holds rows.
    Arrow,
}

/// The flow of a statement.
pub open spec fn flow_of(sql: Seq<char>) -> Flow {
    if statement::is_put(sql) {
        Flow::Put
    } else {
        Flow::Arrow
    }
}

impl Flow {
    /// The kind of answer that a flow asks for.
    pub open spec fn asks_for(self) -> QueryType {
        match self {
            Flow::Put => QueryType::JsonQuery,
            Flow::Arrow => QueryType::ArrowQuery,
        }
    }

    /// The kind of answer that a flow asks for.
    pub fn query_type(&self) -> (query_type: QueryType)
        ensures
            query_type == self.asks_for(),
    {
        match self {
            Flow::Put => QueryType::JsonQuery,
            Flow::Arrow => QueryType::ArrowQuery,
        }
    }
}

/// Whether a request asks, for an account, to execute a statement with the token of a
/// session.
pub open spec fn is_request(
    request: ApiRequest,
    account_identifier: Seq<char>,
    sql_text: Seq<char>,
    query_type: QueryType,
    parts: AuthParts,
) -> bool {
    &&& request.query_type == query_type
    &&& request.account_identifier@ == account_identifier
    &&& request.extra_get_params@.len() == 0
    &&& request.auth == Some(parts.session_token_auth_header)
    &&& request.body.sql_text@ == sql_text
    &&& !request.body.async_exec
    &&& request.body.sequence_id == parts.sequence_id
    &&& !request.body.is_internal
}

/// Whether the outcome of preparing a request is the one that the outcome of
/// authenticating calls for.
pub open spec fn prepared(
    request: Result<ApiRequest, SnowflakeApiError>,
    account_identifier: Seq<char>,
    sql_text: Seq<char>,
    query_type: QueryType,
    parts: Result<AuthParts, AuthError>,
) -> bool {
    match parts {
        Ok(parts) => request matches Ok(request) && is_request(
            request,
            account_identifier,
            sql_text,
            query_type,
            parts,
        ),
        Err(error) => request == Err::<ApiRequest, SnowflakeApiError>(
            SnowflakeApiError::AuthError(error),
        ),
    }
}

/// Whether a result is what the outcome of closing a session gives.
pub open spec fn session_closed(
    result: Result<(), SnowflakeApiError>,
    closed: Result<(), AuthError>,
) -> bool {
    match closed {
        Ok(()) => result is Ok,
        Err(error) => result matches Err(returned) && returned == SnowflakeApiError::AuthError(
            error,
        ),
    }
}

impl SnowflakeApi {
    /// How a statement is to be run: PUT commands go through a different flow.
    pub fn exec_raw(&self, sql: &str) -> (flow: Flow)
        ensures
            flow == flow_of(sql@),
    {
        if statement::is_put_statement(sql) {
            Flow::Put
        } else {
            Flow::Arrow
        }
    }

    /// The request for a statement, once the session has given its token.
    pub fn run_sql(
        &self,
        sql_text: &str,
        query_type: QueryType,
        parts: Result<AuthParts, AuthError>,
    ) -> (request: Result<ApiRequest, SnowflakeApiError>)
        ensures
            prepared(request, self@.account_identifier, sql_text@, query_type, parts),
    {
        let parts = match parts {
            Ok(parts) => parts,
            Err(error) => {
                return Err(SnowflakeApiError::from(error));
            },
        };
        let body = ExecRequest {
            sql_text: sql_text.to_owned(),
            async_exec: false,
            sequence_id: parts.sequence_id,
            is_internal: false,
        };
        Ok(
            ApiRequest {
                query_type,
                account_identifier: self.account_identifier().to_owned(),
                extra_get_params: Vec::new(),
                auth: Some(parts.session_token_auth_header),
                body,
            },
        )
    }

    /// The request for a statement whose answer is wanted as it is.
    pub fn exec_response(&self, sql: &str, parts: Result<AuthParts, AuthError>) -> (request: Result<
        ApiRequest,
        SnowflakeApiError,
    >)
        ensures
            prepared(request, self@.account_identifier, sql@, QueryType::ArrowQuery, parts),
    {
        self.run_sql(sql, QueryType::ArrowQuery, parts)
    }

    /// The request for a statement whose answer is wanted as raw JSON.
    pub fn exec_json(&self, sql: &str, parts: Result<AuthParts, AuthError>) -> (request: Result<
        ApiRequest,
        SnowflakeApiError,
    >)
        ensures
            prepared(request, self@.account_identifier, sql@, QueryType::JsonQuery, parts),
    {
        self.run_sql(sql, QueryType::JsonQuery, parts)
    }

    /// What comes of closing the session, which cleans up the temporary objects that depend
    /// on it.
    pub fn close_session(closed: Result<(), AuthError>) -> (result: Result<(), SnowflakeApiError>)
        ensures
            match closed {
                Ok(()) => result is Ok,
                Err(error) => result == Err::<(), SnowflakeApiError>(
                    SnowflakeApiError::AuthError(error),
                ),
            },
            session_closed(result, closed),
    {
        match closed {
            Ok(()) => Ok(()),
            Err(error) => Err(SnowflakeApiError::from(error)),
        }
    }
}

// ---------------------------------------------------------------------------
// Answers
// ---------------------------------------------------------------------------

/// Whether an error passes on the code and message that the service reports; a missing
/// message is an empty one.
pub open spec fn is_api_error(error: SnowflakeApiError, response: ExecErrorResponse) -> bool {
    &&& error matches SnowflakeApiError::ApiError(code, message)
    &&& code == response.data.error_code
    &&& message@ == (match response.message {
        Some(message) => message@,
        None => Seq::<char>::empty(),
    })
}

/// The error that the service reports.
fn api_error(response: ExecErrorResponse) -> (error: SnowflakeApiError)
    ensures
        is_api_error(error, response),
{
    let message = match response.message {
        Some(message) => message,
        None => String::new(),
    };
    SnowflakeApiError::ApiError(response.data.error_code, message)
}

/// Chunks of rows to be fetched, and rows that came with the answer.
pub struct ChunkFetch {
    /// Where the chunks are, in the order of their rows.
    pub urls: Vec<String>,
    /// The HTTP headers with which to fetch each.
    pub headers: HashMap<String, String>,
    /// The rows that came with the answer, as Base64; empty where there are none.
    pub rowset_base64: String,
}

/// What a query's answer leads to.
pub enum ArrowReply {
    Finished(RawQueryResult),
    Fetch(ChunkFetch),
}

/// The addresses of chunks.
pub open spec fn urls_of(chunks: Seq<ExecResponseChunk>) -> Seq<String> {
    chunks.map_values(|chunk: ExecResponseChunk| chunk.url)
}

/// Whether a reply is what an answer with rows leads to: nothing where no row was returned,
/// JSON where there is some, else a fetch where there is an Arrow rowset, be it empty.
pub open spec fn is_reply_to(
    reply: Result<ArrowReply, SnowflakeApiError>,
    data: QueryExecResponseData,
) -> bool {
    if data.returned == 0 {
        reply == Ok::<ArrowReply, SnowflakeApiError>(ArrowReply::Finished(RawQueryResult::Empty))
    } else if data.rowset is Some {
        &&& reply matches Ok(ArrowReply::Finished(RawQueryResult::Json(json)))
        &&& json.value == data.rowset->0
        &&& json.schema@ == query::schema_of(data.rowtype@)
    } else if data.rowset_base64 is Some {
        &&& reply matches Ok(ArrowReply::Fetch(fetch))
        &&& fetch.urls@ == urls_of(data.chunks@)
        &&& fetch.headers == data.chunk_headers
        &&& fetch.rowset_base64 == data.rowset_base64->0
    } else {
        reply == Err::<ArrowReply, SnowflakeApiError>(SnowflakeApiError::BrokenResponse)
    }
}

/// Whether a reply is what the answer to a query leads to.
pub open spec fn arrow_reply<P>(
    reply: Result<ArrowReply, SnowflakeApiError>,
    response: Result<ExecResponse<P>, ConnectionError>,
) -> bool {
    match response {
        Ok(ExecResponse::Query(query)) => is_reply_to(reply, query.data),
        Ok(ExecResponse::PutGet(_)) => reply == Err::<ArrowReply, SnowflakeApiError>(
            SnowflakeApiError::UnexpectedResponse,
        ),
        Ok(ExecResponse::Error(reported)) => reply matches Err(error) && is_api_error(
            error,
            reported,
        ),
        Err(error) => reply == Err::<ArrowReply, SnowflakeApiError>(
            SnowflakeApiError::RequestError(error),
        ),
    }
}

/// Whether a reply is what the answer to a PUT command leads to: the upload that it
/// describes.
pub open spec fn put_reply<P>(
    reply: Result<P, SnowflakeApiError>,
    response: Result<ExecResponse<P>, ConnectionError>,
) -> bool {
    match response {
        Ok(ExecResponse::Query(_)) => reply == Err::<P, SnowflakeApiError>(
            SnowflakeApiError::UnexpectedResponse,
        ),
        Ok(ExecResponse::PutGet(upload)) => reply == Ok::<P, SnowflakeApiError>(upload),
        Ok(ExecResponse::Error(reported)) => reply matches Err(error) && is_api_error(
            error,
            reported,
        ),
        Err(error) => reply == Err::<P, SnowflakeApiError>(SnowflakeApiError::RequestError(error)),
    }
}

/// Whether a result is what decoding a raw one gives, or the error in its place.
pub open spec fn executed(
    raw: Result<RawQueryResult, SnowflakeApiError>,
    result: Option<Result<QueryResult, SnowflakeApiError>>,
) -> bool {
    match raw {
        Ok(raw) => match result {
            Some(Ok(decoded)) => query::decodes_to(raw, Some(Ok(decoded))),
            Some(Err(SnowflakeApiError::ArrowError(error))) => query::decodes_to(
                raw,
                Some(Err(error)),
            ),
            Some(Err(_)) => false,
            None => query::decodes_to(raw, None),
        },
        Err(error) => result == Some(Err::<QueryResult, SnowflakeApiError>(error)),
    }
}

/// Whether a result is what a raw one without chunks gives, or the chunks in its place.
pub open spec fn executed_without_chunks(
    raw: Result<RawQueryResult, SnowflakeApiError>,
    result: Result<Result<QueryResult, SnowflakeApiError>, Vec<Bytes>>,
) -> bool {
    match result {
        Ok(result) => executed(raw, Some(result)) && !(raw matches Ok(RawQueryResult::Bytes(chunks))
            && chunks@.len() > 0),
        Err(chunks) => chunks@.len() > 0 && raw == Ok::<RawQueryResult, SnowflakeApiError>(
            RawQueryResult::Bytes(chunks),
        ),
    }
}

/// Whether a result is what the outcome of an upload gives.
pub open spec fn put_finished(
    result: Result<RawQueryResult, SnowflakeApiError>,
    uploaded: Result<(), SnowflakeApiError>,
) -> bool {
    match uploaded {
        Ok(()) => result matches Ok(raw) && raw is Empty,
        Err(error) => result matches Err(returned) && returned == error,
    }
}

/// The addresses of chunks, in order.
fn chunk_urls(chunks: Vec<ExecResponseChunk>) -> (urls: Vec<String>)
    ensures
        urls@ == urls_of(chunks@),
{
    let mut urls: Vec<String> = Vec::new();
    for chunk in rest: chunks.into_iter()
        invariant
            urls@ == urls_of(rest.seq().take(rest.index())),
    {
        urls.push(chunk.url);
    }
    urls
}

impl SnowflakeApi {
    /// What is to be uploaded, by the answer to a PUT command.
    pub fn exec_put<P>(response: Result<ExecResponse<P>, ConnectionError>) -> (reply: Result<
        P,
        SnowflakeApiError,
    >)
        ensures
            put_reply(reply, response),
    {
        match response {
            Ok(ExecResponse::Query(_)) => Err(SnowflakeApiError::UnexpectedResponse),
            Ok(ExecResponse::PutGet(upload)) => Ok(upload),
            Ok(ExecResponse::Error(reported)) => Err(api_error(reported)),
            Err(error) => Err(SnowflakeApiError::from(error)),
        }
    }

    /// The result of a PUT command, once the upload is over.
    pub fn finish_put(uploaded: Result<(), SnowflakeApiError>) -> (result: Result<
        RawQueryResult,
        SnowflakeApiError,
    >)
        ensures
            match uploaded {
                Ok(()) => result == Ok::<RawQueryResult, SnowflakeApiError>(RawQueryResult::Empty),
                Err(error) => result == Err::<RawQueryResult, SnowflakeApiError>(error),
            },
            put_finished(result, uploaded),
    {
        match uploaded {
            Ok(()) => Ok(RawQueryResult::Empty),
            Err(error) => Err(error),
        }
    }

    /// The result of a query, or the chunks that are still to be fetched, by its answer.
    pub fn exec_arrow_raw<P>(response: Result<ExecResponse<P>, ConnectionError>) -> (reply: Result<
        ArrowReply,
        SnowflakeApiError,
    >)
        ensures
            arrow_reply(reply, response),
    {
        let data = match response {
            Ok(ExecResponse::Query(query)) => query.data,
            Ok(ExecResponse::PutGet(_)) => {
                return Err(SnowflakeApiError::UnexpectedResponse);
            },
            Ok(ExecResponse::Error(reported)) => {
                return Err(api_error(reported));
            },
            Err(error) => {
                return Err(SnowflakeApiError::from(error));
            },
        };
        if data.returned == 0 {
            Ok(ArrowReply::Finished(RawQueryResult::Empty))
        } else if let Some(value) = data.rowset {
            // The session may be set to answer in JSON; status information comes so too.
            Ok(
                ArrowReply::Finished(
                    RawQueryResult::Json(
                        JsonResult { value, schema: query::field_schemas(data.rowtype) },
                    ),
                ),
            )
        } else if let Some(rowset_base64) = data.rowset_base64 {
            Ok(
                ArrowReply::Fetch(
                    ChunkFetch {
                        urls: chunk_urls(data.chunks),
                        headers: data.chunk_headers,
                        rowset_base64,
                    },
                ),
            )
        } else {
            Err(SnowflakeApiError::BrokenResponse)
        }
    }

    /// The decoded result of a query, by its raw result. `None` where the scale of a marked
    /// column cannot be computed with.
    pub fn exec(raw: Result<RawQueryResult, SnowflakeApiError>) -> (result: Option<
        Result<QueryResult, SnowflakeApiError>,
    >)
        requires
            raw matches Ok(raw) ==> query::readable(raw),
        ensures
            executed(raw, result),
    {
        match raw {
            Ok(raw) => match raw.try_deserialize_arrow() {
                Some(Ok(decoded)) => Some(Ok(decoded)),
                Some(Err(error)) => Some(Err(SnowflakeApiError::from(error))),
                None => None,
            },
            Err(error) => Some(Err(error)),
        }
    }

    /// The result of a query whose raw result holds no chunks, so that no stream has to be
    /// read. Chunks are handed back as they are.
    pub fn exec_without_chunks(raw: Result<RawQueryResult, SnowflakeApiError>) -> (result: Result<
        Result<QueryResult, SnowflakeApiError>,
        Vec<Bytes>,
    >)
        ensures
            match raw {
                Ok(RawQueryResult::Bytes(chunks)) if chunks@.len() > 0 => result == Err::<
                    Result<QueryResult, SnowflakeApiError>,
                    Vec<Bytes>,
                >(chunks),
                _ => result matches Ok(result) && executed(raw, Some(result)),
            },
            executed_without_chunks(raw, result),
    {
        match raw {
            Ok(RawQueryResult::Bytes(chunks)) => if chunks.len() > 0 {
                Err(chunks)
            } else {
                Ok(Self::exec(Ok(RawQueryResult::Bytes(chunks))).unwrap())
            },
            other => Ok(Self::exec(other).unwrap()),
        }
    }
}

// ---------------------------------------------------------------------------
// Chunks
// ---------------------------------------------------------------------------

/// What decoding a text as standard Base64 gives.
pub uninterp spec fn base64_decoded(text: Seq<char>) -> Result<Seq<u8>, DecodeError>;

/// Calls `Engine::decode` of the standard alphabet with padding. Trusted: the outcome is
/// determined by the text.
#[verifier::external_body]
fn decode_base64(text: &str) -> (decoded: Result<Vec<u8>, DecodeError>)
    ensures
        decoded is Ok <==> base64_decoded(text@) is Ok,
        decoded matches Ok(bytes) ==> bytes@ == base64_decoded(text@)->Ok_0,
        decoded matches Err(error) ==> error == base64_decoded(text@)->Err_0,
{
    base64::engine::general_purpose::STANDARD.decode(text)
}

/// Whether a result is made of the fetched chunks and, after them, the rows that came with
/// the answer, as the decoding of their Base64 left them.
pub open spec fn joins(
    result: Result<RawQueryResult, SnowflakeApiError>,
    chunks: Seq<Bytes>,
    rowset_base64: Seq<char>,
    decoded: Result<Seq<u8>, DecodeError>,
) -> bool {
    if rowset_base64.len() == 0 {
        result matches Ok(RawQueryResult::Bytes(joined)) && joined@ == chunks
    } else {
        match decoded {
            Ok(rows) => {
                &&& result matches Ok(RawQueryResult::Bytes(joined))
                &&& joined@.len() == chunks.len() + 1
                &&& joined@.drop_last() == chunks
                &&& arrow::bytes_of(joined@.last()) == rows
            },
            Err(error) => result == Err::<RawQueryResult, SnowflakeApiError>(
                SnowflakeApiError::ResponseDeserializationError(error),
            ),
        }
    }
}

/// Whether a result is what the outcome of fetching and the rows that came with the answer
/// give.
pub open spec fn gathered(
    result: Result<RawQueryResult, SnowflakeApiError>,
    rowset_base64: Seq<char>,
    fetched: Result<Vec<Bytes>, ConnectionError>,
) -> bool {
    match fetched {
        Ok(chunks) => joins(result, chunks@, rowset_base64, base64_decoded(rowset_base64)),
        Err(error) => result == Err::<RawQueryResult, SnowflakeApiError>(
            SnowflakeApiError::RequestError(error),
        ),
    }
}

impl ChunkFetch {
    /// The result of the query, once the chunks are there, or the first that could not be
    /// fetched has failed.
    pub fn finish(self, fetched: Result<Vec<Bytes>, ConnectionError>) -> (result: Result<
        RawQueryResult,
        SnowflakeApiError,
    >)
        ensures
            match fetched {
                Ok(chunks) => joins(
                    result,
                    chunks@,
                    self.rowset_base64@,
                    base64_decoded(self.rowset_base64@),
                ),
                Err(error) => result == Err::<RawQueryResult, SnowflakeApiError>(
                    SnowflakeApiError::RequestError(error),
                ),
            },
            gathered(result, self.rowset_base64@, fetched),
    {
        let chunks = match fetched {
            Ok(chunks) => chunks,
            Err(error) => {
                return Err(SnowflakeApiError::from(error));
            },
        };
        let text = self.rowset_base64.as_str();
        if text.is_empty() {
            return Ok(RawQueryResult::Bytes(chunks));
        }
        let decoded = decode_base64(text);
        join_chunks(chunks, text, decoded)
    }
}

/// The fetched chunks and, after them, the rows that came with the answer, given the
/// outcome of decoding their Base64.
pub fn join_chunks(
    chunks: Vec<Bytes>,
    rowset_base64: &str,
    decoded: Result<Vec<u8>, DecodeError>,
) -> (result: Result<RawQueryResult, SnowflakeApiError>)
    ensures
        joins(
            result,
            chunks@,
            rowset_base64@,
            match decoded {
                Ok(bytes) => Ok(bytes@),
                Err(error) => Err(error),
            },
        ),
{
    let mut chunks = chunks;
    if !rowset_base64.is_empty() {
        match decoded {
            Ok(bytes) => {
                let ghost fetched = chunks@;
                chunks.push(arrow::make_bytes(bytes));
                proof {
                    assert(chunks@.drop_last() =~= fetched);
                }
            },
            Err(error) => {
                return Err(SnowflakeApiError::from(error));
            },
        }
    }
    Ok(RawQueryResult::Bytes(chunks))
}

// ---------------------------------------------------------------------------
// Flows
// ---------------------------------------------------------------------------

/// What the answer to a statement leads to.
pub enum Reply<P> {
    Finished(RawQueryResult),
    Upload(P),
    Fetch(ChunkFetch),
}

/// Whether a reply is what the answer to a statement leads to in a flow.
pub open spec fn is_reply<P>(
    reply: Result<Reply<P>, SnowflakeApiError>,
    flow: Flow,
    response: Result<ExecResponse<P>, ConnectionError>,
) -> bool {
    match flow {
        Flow::Put => match reply {
            Ok(Reply::Upload(upload)) => put_reply(Ok(upload), response),
            Ok(_) => false,
            Err(error) => put_reply(Err(error), response),
        },
        Flow::Arrow => match reply {
            Ok(Reply::Finished(raw)) => arrow_reply(Ok(ArrowReply::Finished(raw)), response),
            Ok(Reply::Fetch(fetch)) => arrow_reply(Ok(ArrowReply::Fetch(fetch)), response),
            Ok(Reply::Upload(_)) => false,
            Err(error) => arrow_reply(Err(error), response),
        },
    }
}

impl Flow {
    /// The request for the statement, once the session has given its token.
    pub fn request(
        &self,
        api: &SnowflakeApi,
        sql: &str,
        parts: Result<AuthParts, AuthError>,
    ) -> (request: Result<ApiRequest, SnowflakeApiError>)
        ensures
            prepared(request, api@.account_identifier, sql@, self.asks_for(), parts),
    {
        api.run_sql(sql, self.query_type(), parts)
    }

    /// What the answer to the statement leads to.
    pub fn reply<P>(&self, response: Result<ExecResponse<P>, ConnectionError>) -> (reply: Result<
        Reply<P>,
        SnowflakeApiError,
    >)
        ensures
            is_reply(reply, *self, response),
    {
        match self {
            Flow::Put => match SnowflakeApi::exec_put(response) {
                Ok(upload) => Ok(Reply::Upload(upload)),
                Err(error) => Err(error),
            },
            Flow::Arrow => match SnowflakeApi::exec_arrow_raw(response) {
                Ok(ArrowReply::Finished(raw)) => Ok(Reply::Finished(raw)),
                Ok(ArrowReply::Fetch(fetch)) => Ok(Reply::Fetch(fetch)),
                Err(error) => Err(error),
            },
        }
    }
}

// ---------------------------------------------------------------------------
// Laws
// ---------------------------------------------------------------------------

/// A PUT command returns no rows: its answer leads to an upload, or to an error.
pub proof fn law_put_returns_no_rows<P>(
    sql: Seq<char>,
    response: Result<ExecResponse<P>, ConnectionError>,
    reply: Result<Reply<P>, SnowflakeApiError>,
)
    requires
        statement::is_put(sql),
        is_reply(reply, flow_of(sql), response),
    ensures
        reply matches Ok(reply) ==> reply is Upload,
        reply is Ok <==> response matches Ok(ExecResponse::PutGet(_)),
{
}

/// Any other statement uploads nothing.
pub proof fn law_query_uploads_nothing<P>(
    sql: Seq<char>,
    response: Result<ExecResponse<P>, ConnectionError>,
    reply: Result<Reply<P>, SnowflakeApiError>,
)
    requires
        !statement::is_put(sql),
        is_reply(reply, flow_of(sql), response),
    ensures
        reply matches Ok(reply) ==> reply !is Upload,
        reply is Ok ==> response matches Ok(ExecResponse::Query(_)),
{
}

/// An error that the service reports comes back with its code and message, whatever the
/// statement.
pub proof fn law_reported_error_comes_back<P>(
    sql: Seq<char>,
    reported: ExecErrorResponse,
    reply: Result<Reply<P>, SnowflakeApiError>,
)
    requires
        is_reply(reply, flow_of(sql), Ok(ExecResponse::Error(reported))),
    ensures
        reply matches Err(error) && is_api_error(error, reported),
{
}

/// An answer that did not arrive gives the error of the connection, whatever the statement.
pub proof fn law_connection_error_comes_back<P>(
    sql: Seq<char>,
    error: ConnectionError,
    reply: Result<Reply<P>, SnowflakeApiError>,
)
    requires
        is_reply(reply, flow_of(sql), Err(error)),
    ensures
        reply == Err::<Reply<P>, SnowflakeApiError>(SnowflakeApiError::RequestError(error)),
{
}

/// A query that returned no row gives an empty result, whatever else its answer holds.
pub proof fn law_no_rows_give_an_empty_result<P>(
    sql: Seq<char>,
    query: QueryExecResponse,
    reply: Result<Reply<P>, SnowflakeApiError>,
)
    requires
        !statement::is_put(sql),
        query.data.returned == 0,
        is_reply(reply, flow_of(sql), Ok(ExecResponse::Query(query))),
    ensures
        reply == Ok::<Reply<P>, SnowflakeApiError>(Reply::Finished(RawQueryResult::Empty)),
{
}

/// The rows that came with the answer decode after those of the fetched chunks.
pub proof fn law_inline_rows_come_last(
    joined: Vec<Bytes>,
    chunks: Seq<Bytes>,
    rowset_base64: Seq<char>,
    rows: Seq<u8>,
)
    requires
        rowset_base64.len() > 0,
        joins(Ok(RawQueryResult::Bytes(joined)), chunks, rowset_base64, Ok(rows)),
    ensures
        query::chunks_outcome(query::chunk_bytes(joined@)) == (match query::chunks_outcome(
            query::chunk_bytes(chunks),
        ) {
            Decoded::Batches(batches) => query::prepend(batches, query::chunk_outcome(rows)),
            other => other,
        }),
{
    let last = seq![rows];
    assert(query::chunk_bytes(joined@) =~= query::chunk_bytes(chunks) + last);
    query::law_chunks_decode_in_order(query::chunk_bytes(chunks), last);
    query::law_one_chunk_decodes_alone(rows);
}

/// Requests name the account in upper case, while the session keeps the name as it was
/// given.
pub proof fn law_requests_name_the_account_in_upper_case(
    api: SnowflakeApi,
    auth: AuthArgsView,
    connection: Connection,
    sql: Seq<char>,
    query_type: QueryType,
    parts: AuthParts,
    request: ApiRequest,
)
    requires
        api@ == api::api_for(auth, connection),
        prepared(Ok(request), api@.account_identifier, sql, query_type, Ok(parts)),
    ensures
        request.account_identifier@ == text::uppercase(auth.account_identifier),
        api@.session.account_identifier == auth.account_identifier,
{
}

/// Every chunk that an answer lists is fetched, in order, with the headers that it gives,
/// whether or not rows came with the answer; and those rows are kept.
pub proof fn law_every_listed_chunk_is_fetched<P>(query: QueryExecResponse, fetch: ChunkFetch)
    requires
        arrow_reply::<P>(Ok(ArrowReply::Fetch(fetch)), Ok(ExecResponse::Query(query)))
            || is_reply::<P>(
            Ok(Reply::Fetch(fetch)),
            Flow::Arrow,
            Ok(ExecResponse::Query(query)),
        ),
    ensures
        fetch.urls@.len() == query.data.chunks@.len(),
        forall|i: int|
            0 <= i < query.data.chunks@.len() ==> #[trigger] fetch.urls@[i]
                == query.data.chunks@[i].url,
        fetch.headers == query.data.chunk_headers,
        query.data.rowset_base64 == Some(fetch.rowset_base64),
        query.data.returned != 0,
        query.data.rowset is None,
{
}

/// What a query's answer holds decides: no rows give an empty result, JSON rows a JSON result
/// that describes every column, Arrow rows a fetch, and rows from nowhere an error.
pub proof fn law_what_the_answer_holds_decides<P>(
    query: QueryExecResponse,
    reply: Result<ArrowReply, SnowflakeApiError>,
)
    requires
        arrow_reply::<P>(reply, Ok(ExecResponse::Query(query))),
    ensures
        query.data.returned == 0 ==> reply == Ok::<ArrowReply, SnowflakeApiError>(
            ArrowReply::Finished(RawQueryResult::Empty),
        ),
        query.data.returned != 0 && query.data.rowset is Some ==> (reply matches Ok(
            ArrowReply::Finished(RawQueryResult::Json(json)),
        ) && Some(json.value) == query.data.rowset && json.schema@.len()
            == query.data.rowtype@.len() && (forall|i: int|
            0 <= i < query.data.rowtype@.len() ==> {
                let column = #[trigger] query.data.rowtype@[i];
                &&& json.schema@[i].name == column.name
                &&& json.schema@[i].type_ == column.type_
                &&& json.schema@[i].scale == column.scale
                &&& json.schema@[i].precision == column.precision
                &&& json.schema@[i].nullable == column.nullable
            })),
        query.data.returned != 0 && query.data.rowset is None && query.data.rowset_base64 is Some
            ==> reply matches Ok(ArrowReply::Fetch(_)),
        query.data.returned != 0 && query.data.rowset is None && query.data.rowset_base64 is None
            ==> reply == Err::<ArrowReply, SnowflakeApiError>(SnowflakeApiError::BrokenResponse),
{
    assert forall|i: int| 0 <= i < query.data.rowtype@.len() implies query::schema_of(
        query.data.rowtype@,
    )[i].name == (#[trigger] query.data.rowtype@[i]).name by {
        query::law_schema_describes_every_column(
            query.data.rowtype@,
            query::schema_of(query.data.rowtype@),
            i,
        );
    }
}

/// The same of a statement that is not a PUT command.
pub proof fn law_what_the_answer_holds_decides_the_reply<P>(
    query: QueryExecResponse,
    reply: Result<Reply<P>, SnowflakeApiError>,
)
    requires
        is_reply(reply, Flow::Arrow, Ok(ExecResponse::Query(query))),
    ensures
        query.data.returned == 0 ==> reply == Ok::<Reply<P>, SnowflakeApiError>(
            Reply::Finished(RawQueryResult::Empty),
        ),
        query.data.returned != 0 && query.data.rowset is Some ==> (reply matches Ok(
            Reply::Finished(RawQueryResult::Json(json)),
        ) && Some(json.value) == query.data.rowset && json.schema@.len()
            == query.data.rowtype@.len() && (forall|i: int|
            0 <= i < query.data.rowtype@.len() ==> {
                let column = #[trigger] query.data.rowtype@[i];
                &&& json.schema@[i].name == column.name
                &&& json.schema@[i].type_ == column.type_
                &&& json.schema@[i].scale == column.scale
                &&& json.schema@[i].precision == column.precision
                &&& json.schema@[i].nullable == column.nullable
            })),
        query.data.returned != 0 && query.data.rowset is None && query.data.rowset_base64 is Some
            ==> reply matches Ok(Reply::Fetch(_)),
        query.data.returned != 0 && query.data.rowset is None && query.data.rowset_base64 is None
            ==> reply == Err::<Reply<P>, SnowflakeApiError>(SnowflakeApiError::BrokenResponse),
{
}

/// The upload that an answer describes is the one that a PUT command leads to; rows are not
/// what it expects.
pub proof fn law_put_uploads_what_the_answer_describes<P>(
    upload: P,
    query: QueryExecResponse,
    uploads: Result<P, SnowflakeApiError>,
    refuses: Result<P, SnowflakeApiError>,
)
    requires
        put_reply(uploads, Ok(ExecResponse::PutGet(upload))),
        put_reply(refuses, Ok(ExecResponse::Query(query))),
    ensures
        uploads == Ok::<P, SnowflakeApiError>(upload),
        refuses == Err::<P, SnowflakeApiError>(SnowflakeApiError::UnexpectedResponse),
{
}

/// An answer of the other kind is an error in either flow, and one of its own kind is not
/// mistaken for another.
pub proof fn law_answers_of_the_other_kind_are_refused<P>(
    upload: P,
    query: QueryExecResponse,
    put_rows: Result<Reply<P>, SnowflakeApiError>,
    put_upload: Result<Reply<P>, SnowflakeApiError>,
    query_upload: Result<Reply<P>, SnowflakeApiError>,
    arrow_upload: Result<ArrowReply, SnowflakeApiError>,
)
    requires
        is_reply(put_rows, Flow::Put, Ok(ExecResponse::Query(query))),
        is_reply(put_upload, Flow::Put, Ok(ExecResponse::PutGet(upload))),
        is_reply(query_upload, Flow::Arrow, Ok(ExecResponse::PutGet(upload))),
        arrow_reply(arrow_upload, Ok(ExecResponse::PutGet(upload))),
    ensures
        put_rows == Err::<Reply<P>, SnowflakeApiError>(SnowflakeApiError::UnexpectedResponse),
        put_upload == Ok::<Reply<P>, SnowflakeApiError>(Reply::Upload(upload)),
        query_upload == Err::<Reply<P>, SnowflakeApiError>(SnowflakeApiError::UnexpectedResponse),
        arrow_upload == Err::<ArrowReply, SnowflakeApiError>(
            SnowflakeApiError::UnexpectedResponse,
        ),
{
}

/// The code and the message that the service reports come back as they are, and a missing
/// message as an empty one, in whatever step the report is met.
pub proof fn law_reports_come_back_word_by_word<P>(
    reported: ExecErrorResponse,
    flow: Flow,
    reply: Result<Reply<P>, SnowflakeApiError>,
    arrow: Result<ArrowReply, SnowflakeApiError>,
    put: Result<P, SnowflakeApiError>,
)
    requires
        is_reply(reply, flow, Ok(ExecResponse::Error(reported))),
        arrow_reply::<P>(arrow, Ok(ExecResponse::Error(reported))),
        put_reply(put, Ok(ExecResponse::Error(reported))),
    ensures
        reply matches Err(SnowflakeApiError::ApiError(code, message)) && code
            == reported.data.error_code && (reported.message matches Some(given) ==> message@
            == given@) && (reported.message is None ==> message@.len() == 0),
        arrow matches Err(SnowflakeApiError::ApiError(code, message)) && code
            == reported.data.error_code && (reported.message matches Some(given) ==> message@
            == given@) && (reported.message is None ==> message@.len() == 0),
        put matches Err(SnowflakeApiError::ApiError(code, message)) && code
            == reported.data.error_code && (reported.message matches Some(given) ==> message@
            == given@) && (reported.message is None ==> message@.len() == 0),
{
}

/// An answer that did not arrive gives the error of the connection, in whatever step.
pub proof fn law_lost_answers_give_their_error<P>(
    error: ConnectionError,
    flow: Flow,
    reply: Result<Reply<P>, SnowflakeApiError>,
    arrow: Result<ArrowReply, SnowflakeApiError>,
    put: Result<P, SnowflakeApiError>,
)
    requires
        is_reply(reply, flow, Err(error)),
        arrow_reply::<P>(arrow, Err(error)),
        put_reply(put, Err(error)),
    ensures
        reply == Err::<Reply<P>, SnowflakeApiError>(SnowflakeApiError::RequestError(error)),
        arrow == Err::<ArrowReply, SnowflakeApiError>(SnowflakeApiError::RequestError(error)),
        put == Err::<P, SnowflakeApiError>(SnowflakeApiError::RequestError(error)),
{
}

/// A request carries the statement, the account, the token and the sequence number that it was
/// given, and asks for nothing else; it is there exactly where the token is.
pub proof fn law_requests_carry_what_they_are_given(
    request: Result<ApiRequest, SnowflakeApiError>,
    account_identifier: Seq<char>,
    sql: Seq<char>,
    query_type: QueryType,
    parts: Result<AuthParts, AuthError>,
)
    requires
        prepared(request, account_identifier, sql, query_type, parts),
    ensures
        request is Ok <==> parts is Ok,
        parts matches Err(error) ==> request == Err::<ApiRequest, SnowflakeApiError>(
            SnowflakeApiError::AuthError(error),
        ),
        request matches Ok(request) ==> {
            &&& request.query_type == query_type
            &&& request.account_identifier@ == account_identifier
            &&& request.extra_get_params@ == Seq::<(String, String)>::empty()
            &&& request.auth == Some(parts->Ok_0.session_token_auth_header)
            &&& request.body.sql_text@ == sql
            &&& request.body.async_exec == false
            &&& request.body.sequence_id == parts->Ok_0.sequence_id
            &&& request.body.is_internal == false
        },
{
}

/// A PUT command asks for JSON and leads to an upload; every other statement asks for Arrow.
pub proof fn law_the_statement_decides_the_flow(sql: Seq<char>)
    ensures
        flow_of(sql) == Flow::Put <==> statement::is_put(sql),
        flow_of(sql) == Flow::Arrow <==> !statement::is_put(sql),
        flow_of(sql).asks_for() == QueryType::JsonQuery <==> statement::is_put(sql),
        flow_of(sql).asks_for() == QueryType::ArrowQuery <==> !statement::is_put(sql),
        Flow::Put.asks_for() == QueryType::JsonQuery,
        Flow::Arrow.asks_for() == QueryType::ArrowQuery,
{
}

/// Executing keeps a JSON result with its rows and its schema, and an empty one; an error is
/// returned as it is.
pub proof fn law_executing_keeps_what_needs_no_decoding(
    json: JsonResult,
    error: SnowflakeApiError,
    of_json: Option<Result<QueryResult, SnowflakeApiError>>,
    of_empty: Option<Result<QueryResult, SnowflakeApiError>>,
    of_error: Option<Result<QueryResult, SnowflakeApiError>>,
)
    requires
        executed(Ok(RawQueryResult::Json(json)), of_json),
        executed(Ok(RawQueryResult::Empty), of_empty),
        executed(Err(error), of_error),
    ensures
        of_json == Some(Ok::<QueryResult, SnowflakeApiError>(QueryResult::Json(json))),
        of_empty == Some(Ok::<QueryResult, SnowflakeApiError>(QueryResult::Empty)),
        of_error == Some(Err::<QueryResult, SnowflakeApiError>(error)),
{
}

/// Executing returns what decoding the raw result returns, its error as an error of Arrow.
pub proof fn law_executing_decodes(
    raw: RawQueryResult,
    result: Option<Result<QueryResult, SnowflakeApiError>>,
)
    requires
        executed(Ok(raw), result),
    ensures
        query::decodes_to(
            raw,
            match result {
                Some(Ok(decoded)) => Some(Ok(decoded)),
                Some(Err(error)) => Some(Err(error->ArrowError_0)),
                None => None,
            },
        ),
        result matches Some(Err(error)) ==> error is ArrowError,
{
}

/// Chunks become the batches in them, all of them and in order.
pub proof fn law_executing_returns_every_batch(
    chunks: Vec<Bytes>,
    steps: Seq<Seq<Step>>,
    parts: Seq<Seq<RecordBatch>>,
    result: Option<Result<QueryResult, SnowflakeApiError>>,
)
    requires
        steps.len() == chunks@.len(),
        parts.len() == chunks@.len(),
        forall|i: int|
            0 <= i < chunks@.len() ==> arrow::ipc_stream(arrow::bytes_of(#[trigger] chunks@[i]))
                == Opening::Stream(steps[i]) && query::all_decode(steps[i], parts[i]),
        executed(Ok(RawQueryResult::Bytes(chunks)), result),
    ensures
        result matches Some(Ok(QueryResult::Arrow(batches))) && batches@ == parts.flatten(),
{
    law_executing_decodes(RawQueryResult::Bytes(chunks), result);
    let outcome = match result {
        Some(Ok(decoded)) => Some(Ok(decoded)),
        Some(Err(error)) => Some(Err(error->ArrowError_0)),
        None => None,
    };
    query::law_every_batch_is_returned(chunks, steps, parts, outcome);
}

/// Joining keeps every fetched chunk in its place, and adds the rows that came with the answer
/// as one more chunk behind them, exactly where there are any.
pub proof fn law_joining_loses_nothing(
    result: Result<RawQueryResult, SnowflakeApiError>,
    chunks: Seq<Bytes>,
    rowset_base64: Seq<char>,
    decoded: Result<Seq<u8>, DecodeError>,
)
    requires
        joins(result, chunks, rowset_base64, decoded),
    ensures
        result is Ok <==> rowset_base64.len() == 0 || decoded is Ok,
        result matches Ok(raw) ==> (raw matches RawQueryResult::Bytes(joined) && joined@.len()
            == chunks.len() + (if rowset_base64.len() == 0 {
            0int
        } else {
            1
        }) && (forall|i: int| 0 <= i < chunks.len() ==> #[trigger] joined@[i] == chunks[i]) && (
        rowset_base64.len() > 0 ==> arrow::bytes_of(joined@[chunks.len() as int])
            == decoded->Ok_0)),
        result matches Err(error) ==> error == SnowflakeApiError::ResponseDeserializationError(
            decoded->Err_0,
        ),
{
    if rowset_base64.len() > 0 && decoded is Ok {
        if let Ok(RawQueryResult::Bytes(joined)) = result {
            assert forall|i: int| 0 <= i < chunks.len() implies #[trigger] joined@[i]
                == chunks[i] by {
                assert(joined@.drop_last()[i] == joined@[i]);
            }
        }
    }
}

/// A large result is complete: what is executed in the end holds the batches of every chunk
/// that was fetched, and then those of the rows that came with the answer.
pub proof fn law_a_large_result_is_complete<P>(
    query: QueryExecResponse,
    fetch: ChunkFetch,
    chunks: Vec<Bytes>,
    rows: Seq<u8>,
    raw: RawQueryResult,
    result: Option<Result<QueryResult, SnowflakeApiError>>,
    steps: Seq<Seq<Step>>,
    parts: Seq<Seq<RecordBatch>>,
    inline_steps: Seq<Step>,
    inline: Seq<RecordBatch>,
)
    requires
        is_reply::<P>(Ok(Reply::Fetch(fetch)), Flow::Arrow, Ok(ExecResponse::Query(query))),
        chunks@.len() == fetch.urls@.len(),
        joins(Ok(raw), chunks@, fetch.rowset_base64@, Ok(rows)),
        executed(Ok(raw), result),
        steps.len() == chunks@.len(),
        parts.len() == chunks@.len(),
        forall|i: int|
            0 <= i < chunks@.len() ==> arrow::ipc_stream(arrow::bytes_of(#[trigger] chunks@[i]))
                == Opening::Stream(steps[i]) && query::all_decode(steps[i], parts[i]),
        fetch.rowset_base64@.len() > 0 ==> arrow::ipc_stream(rows) == Opening::Stream(inline_steps)
            && query::all_decode(inline_steps, inline),
        fetch.rowset_base64@.len() == 0 ==> inline.len() == 0,
    ensures
        parts.len() == query.data.chunks@.len(),
        result matches Some(Ok(QueryResult::Arrow(batches))) && batches@ == parts.flatten()
            + inline,
{
    law_every_listed_chunk_is_fetched::<P>(query, fetch);
    law_joining_loses_nothing(Ok(raw), chunks@, fetch.rowset_base64@, Ok(rows));
    let joined = raw->Bytes_0;
    if fetch.rowset_base64@.len() == 0 {
        assert(joined@ =~= chunks@);
        assert forall|i: int| 0 <= i < joined@.len() implies arrow::ipc_stream(
            arrow::bytes_of(#[trigger] joined@[i]),
        ) == Opening::Stream(steps[i]) && query::all_decode(steps[i], parts[i]) by {
            assert(joined@[i] == chunks@[i]);
        }
        law_executing_returns_every_batch(joined, steps, parts, result);
        assert(parts.flatten() + inline =~= parts.flatten());
    } else {
        let all_steps = steps.push(inline_steps);
        let all_parts = parts.push(inline);
        assert forall|i: int| 0 <= i < joined@.len() implies arrow::ipc_stream(
            arrow::bytes_of(#[trigger] joined@[i]),
        ) == Opening::Stream(all_steps[i]) && query::all_decode(all_steps[i], all_parts[i]) by {
            if i < chunks@.len() {
                assert(joined@[i] == chunks@[i]);
            }
        }
        law_executing_returns_every_batch(joined, all_steps, all_parts, result);
        parts.lemma_flatten_push(inline);
    }
}

/// A chunk that could not be fetched makes the query fail, whatever rows came with the answer;
/// else the outcome is all the chunks with those rows behind them.
pub proof fn law_a_lost_chunk_is_no_success(
    result: Result<RawQueryResult, SnowflakeApiError>,
    rowset_base64: Seq<char>,
    fetched: Result<Vec<Bytes>, ConnectionError>,
)
    requires
        gathered(result, rowset_base64, fetched),
    ensures
        fetched matches Err(error) ==> result == Err::<RawQueryResult, SnowflakeApiError>(
            SnowflakeApiError::RequestError(error),
        ),
        fetched is Ok ==> (result is Ok <==> rowset_base64.len() == 0 || base64_decoded(
            rowset_base64,
        ) is Ok),
        fetched is Ok && result is Err ==> result->Err_0
            == SnowflakeApiError::ResponseDeserializationError(
            base64_decoded(rowset_base64)->Err_0,
        ),
        result matches Ok(raw) ==> (raw matches RawQueryResult::Bytes(joined) && (forall|i: int|
            0 <= i < fetched->Ok_0@.len() ==> #[trigger] joined@[i] == fetched->Ok_0@[i])
            && joined@.len() == fetched->Ok_0@.len() + (if rowset_base64.len() == 0 {
            0int
        } else {
            1
        }) && (rowset_base64.len() > 0 ==> arrow::bytes_of(joined@.last()) == base64_decoded(
            rowset_base64,
        )->Ok_0)),
{
    if let Ok(chunks) = fetched {
        law_joining_loses_nothing(
            result,
            chunks@,
            rowset_base64,
            base64_decoded(rowset_base64),
        );
    }
}

/// A PUT command succeeds, with an empty result, exactly where its upload does; the error of
/// the upload comes back. Closing a session succeeds exactly where the service closed it.
pub proof fn law_side_effects_report_how_they_went(
    put: Result<RawQueryResult, SnowflakeApiError>,
    uploaded: Result<(), SnowflakeApiError>,
    close: Result<(), SnowflakeApiError>,
    closed: Result<(), AuthError>,
)
    requires
        put_finished(put, uploaded),
        session_closed(close, closed),
    ensures
        put is Ok <==> uploaded is Ok,
        put matches Ok(raw) ==> raw == RawQueryResult::Empty,
        put matches Err(error) ==> uploaded == Err::<(), SnowflakeApiError>(error),
        close is Ok <==> closed is Ok,
        close matches Err(error) ==> error == SnowflakeApiError::AuthError(closed->Err_0),
{
}

/// Without chunks a result is executed as ever, and with chunks exactly those come back.
pub proof fn law_chunks_are_handed_back(
    raw: Result<RawQueryResult, SnowflakeApiError>,
    result: Result<Result<QueryResult, SnowflakeApiError>, Vec<Bytes>>,
)
    requires
        executed_without_chunks(raw, result),
    ensures
        result is Err <==> (raw matches Ok(RawQueryResult::Bytes(chunks)) && chunks@.len() > 0),
        result matches Err(chunks) ==> raw == Ok::<RawQueryResult, SnowflakeApiError>(
            RawQueryResult::Bytes(chunks),
        ),
        raw matches Ok(RawQueryResult::Json(json)) ==> result == Ok::<
            Result<QueryResult, SnowflakeApiError>,
            Vec<Bytes>,
        >(Ok(QueryResult::Json(json))),
        raw matches Ok(RawQueryResult::Empty) ==> result == Ok::<
            Result<QueryResult, SnowflakeApiError>,
            Vec<Bytes>,
        >(Ok(QueryResult::Empty)),
        raw matches Err(error) ==> result == Ok::<
            Result<QueryResult, SnowflakeApiError>,
            Vec<Bytes>,
        >(Err(error)),
{
}

} // verus!
