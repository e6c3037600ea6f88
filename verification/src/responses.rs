//! What the service answers.

use std::collections::HashMap;

use serde_json::Value;
use vstd::prelude::*;

verus! {

/// A JSON value.
#[verifier::external_type_specification]
#[verifier::external_body]
pub struct ExValue(Value);

/// The answer to a statement. The service describes an upload in a `P`, which the library
/// hands on unread.
#[derive(Debug)]
pub enum ExecResponse<P> {
    Query(QueryExecResponse),
    PutGet(P),
    Error(ExecErrorResponse),
}

/// The answer to a query.
#[derive(Debug)]
pub struct QueryExecResponse {
    pub data: QueryExecResponseData,
}

/// The rows of an answer, or where to get them.
#[derive(Debug)]
pub struct QueryExecResponseData {
    /// The number of rows that the answer holds.
    pub returned: i64,
    /// The description of the columns.
    pub rowtype: Vec<ExecResponseRowType>,
    /// The rows as a JSON array of arrays.
    pub rowset: Option<Value>,
    /// The rows as Base64 of an Arrow IPC stream; empty where they are all in chunks.
    pub rowset_base64: Option<String>,
    /// Further rows, to be fetched.
    pub chunks: Vec<ExecResponseChunk>,
    /// The HTTP headers with which to fetch them.
    pub chunk_headers: HashMap<String, String>,
}

/// Where a chunk of rows is to be fetched.
#[derive(Debug)]
pub struct ExecResponseChunk {
    pub url: String,
}

/// The description of a column.
#[derive(Debug)]
pub struct ExecResponseRowType {
    pub name: String,
    pub type_: SnowflakeType,
    pub scale: Option<i64>,
    pub precision: Option<i64>,
    pub nullable: bool,
}

/// The type of a column, as the service names it.
#[derive(Debug)]
pub enum SnowflakeType {
    Fixed,
    Real,
    Text,
    Date,
    Variant,
    TimestampLtz,
    TimestampNtz,
    TimestampTz,
    Object,
    Binary,
    Time,
    Boolean,
    Array,
}

/// An error that the service reports.
#[derive(Debug)]
pub struct ExecErrorResponse {
    pub data: ExecErrorResponseData,
    pub message: Option<String>,
}

/// The details of a reported error.
#[derive(Debug)]
pub struct ExecErrorResponseData {
    pub error_code: String,
}

} // verus!
