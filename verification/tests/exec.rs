//! The execution of statements: requests, answers and chunks.

use std::collections::HashMap;
use std::sync::Arc;

use arrow_array::{Array, Int64Array, RecordBatch};
use arrow_ipc::writer::StreamWriter;
use arrow_schema::{ArrowError, DataType, Field, Schema};
use base64::engine::general_purpose::STANDARD;
use base64::{DecodeError, Engine};
use bytes::Bytes;
use reqwest_middleware::reqwest::Client;
use reqwest_middleware::ClientWithMiddleware;
use serde_json::Value;
use snowflake_api::connection::{ApiRequest, QueryType};
use snowflake_api::error::{AuthError, ConnectionError};
use snowflake_api::exec::{join_chunks, ArrowReply, ChunkFetch, Flow, Reply};
use snowflake_api::responses::{
    ExecErrorResponse, ExecErrorResponseData, ExecResponse, ExecResponseChunk,
    ExecResponseRowType, QueryExecResponse, QueryExecResponseData, SnowflakeType,
};
use snowflake_api::session::AuthParts;
use snowflake_api::{
    AuthArgs, AuthType, PasswordArgs, QueryResult, RawQueryResult, SnowflakeApi,
    SnowflakeApiBuilder, SnowflakeApiError,
};

fn api() -> SnowflakeApi {
    let auth = AuthArgs {
        account_identifier: "org-acc".to_string(),
        warehouse: None,
        database: None,
        schema: None,
        username: "someone".to_string(),
        role: None,
        auth_type: AuthType::Password(PasswordArgs { password: "secret".to_string() }),
    };
    SnowflakeApiBuilder::new(auth)
        .with_client(ClientWithMiddleware::from(Client::new()))
        .build()
        .unwrap()
}

fn parts() -> AuthParts {
    AuthParts { session_token_auth_header: "Snowflake Token=\"t\"".to_string(), sequence_id: 17 }
}

/// An error of an HTTP client: that of a malformed address.
fn connection_error() -> ConnectionError {
    match Client::new().get("no address").build() {
        Err(error) => ConnectionError::MiddlewareError(reqwest_middleware::Error::Reqwest(error)),
        Ok(_) => panic!("expected an error"),
    }
}

/// An answer with one row and nothing to get it from.
fn data() -> QueryExecResponseData {
    QueryExecResponseData {
        returned: 1,
        rowtype: vec![ExecResponseRowType {
            name: "n".to_string(),
            type_: SnowflakeType::Fixed,
            scale: Some(0),
            precision: Some(38),
            nullable: false,
        }],
        rowset: None,
        rowset_base64: None,
        chunks: Vec::new(),
        chunk_headers: HashMap::new(),
    }
}

fn query(data: QueryExecResponseData) -> Result<ExecResponse<u8>, ConnectionError> {
    Ok(ExecResponse::Query(QueryExecResponse { data }))
}

fn put_get(upload: u8) -> Result<ExecResponse<u8>, ConnectionError> {
    Ok(ExecResponse::PutGet(upload))
}

fn reported(message: Option<&str>) -> Result<ExecResponse<u8>, ConnectionError> {
    Ok(ExecResponse::Error(ExecErrorResponse {
        data: ExecErrorResponseData { error_code: "001003".to_string() },
        message: message.map(str::to_string),
    }))
}

fn stream(values: Vec<i64>) -> Vec<u8> {
    let schema = Arc::new(Schema::new(vec![Field::new("n", DataType::Int64, false)]));
    let batch =
        RecordBatch::try_new(Arc::clone(&schema), vec![Arc::new(Int64Array::from(values))]).unwrap();
    let mut buffer: Vec<u8> = Vec::new();
    let mut writer = StreamWriter::try_new(&mut buffer, &schema).unwrap();
    writer.write(&batch).unwrap();
    writer.finish().unwrap();
    drop(writer);
    buffer
}

fn fetch(rowset_base64: &str) -> ChunkFetch {
    ChunkFetch {
        urls: Vec::new(),
        headers: HashMap::new(),
        rowset_base64: rowset_base64.to_string(),
    }
}

fn chunks_of(raw: Result<RawQueryResult, SnowflakeApiError>) -> Vec<Bytes> {
    match raw {
        Ok(RawQueryResult::Bytes(chunks)) => chunks,
        Ok(_) => panic!("expected chunks"),
        Err(error) => panic!("unexpected {error:?}"),
    }
}

fn check_request(request: Result<ApiRequest, SnowflakeApiError>, sql: &str) -> QueryType {
    let request = request.unwrap_or_else(|error| panic!("unexpected {error:?}"));
    assert_eq!(request.account_identifier, "ORG-ACC");
    assert!(request.extra_get_params.is_empty());
    assert_eq!(request.auth.as_deref(), Some("Snowflake Token=\"t\""));
    assert_eq!(request.body.sql_text, sql);
    assert!(!request.body.async_exec);
    assert_eq!(request.body.sequence_id, 17);
    assert!(!request.body.is_internal);
    request.query_type
}

#[test]
fn statements_have_their_flows() {
    let api = api();
    assert!(matches!(api.exec_raw("PUT file:///a @s"), Flow::Put));
    assert!(matches!(api.exec_raw("/* c */ put file:///a @s"), Flow::Put));
    assert!(matches!(api.exec_raw("  PUT file:///tmp/x.csv @stg"), Flow::Put));
    assert!(matches!(api.exec_raw("/* a */ select 1 /* b */ put x"), Flow::Arrow));
    assert!(matches!(api.exec_raw("select 1"), Flow::Arrow));
    assert!(matches!(Flow::Put.query_type(), QueryType::JsonQuery));
    assert!(matches!(Flow::Arrow.query_type(), QueryType::ArrowQuery));
}

#[test]
fn requests_carry_the_statement_and_the_token() {
    let api = api();
    let request = api.run_sql("select 1", QueryType::JsonQuery, Ok(parts()));
    assert!(matches!(check_request(request, "select 1"), QueryType::JsonQuery));
    let request = Flow::Arrow.request(&api, "select 2", Ok(parts()));
    assert!(matches!(check_request(request, "select 2"), QueryType::ArrowQuery));
    let request = Flow::Put.request(&api, "put x", Ok(parts()));
    assert!(matches!(check_request(request, "put x"), QueryType::JsonQuery));
}

#[test]
fn debugging_requests_ask_for_their_kind_of_answer() {
    let api = api();
    let request = api.exec_response("select 1", Ok(parts()));
    assert!(matches!(check_request(request, "select 1"), QueryType::ArrowQuery));
    let request = api.exec_json("select 1", Ok(parts()));
    assert!(matches!(check_request(request, "select 1"), QueryType::JsonQuery));
}

#[test]
fn a_request_needs_the_token() {
    let failed = AuthError::RequestError(connection_error());
    assert!(matches!(
        Flow::Arrow.request(&api(), "select 1", Err(failed)),
        Err(SnowflakeApiError::AuthError(AuthError::RequestError(_)))
    ));
}

#[test]
fn put_leads_to_an_upload() {
    assert!(matches!(SnowflakeApi::exec_put(put_get(9)), Ok(9)));
    assert!(matches!(Flow::Put.reply(put_get(9)), Ok(Reply::Upload(9))));
    assert!(matches!(SnowflakeApi::finish_put(Ok(())), Ok(RawQueryResult::Empty)));
    assert!(matches!(
        SnowflakeApi::finish_put(Err(SnowflakeApiError::InvalidLocalPath("/".to_string()))),
        Err(SnowflakeApiError::InvalidLocalPath(_))
    ));
}

#[test]
fn put_after_white_space_is_uploaded() {
    let flow = api().exec_raw("  PUT file:///tmp/x.csv @stg");
    let uploaded = match flow.reply(put_get(9)) {
        Ok(Reply::Upload(9)) => Ok(()),
        _ => panic!("expected an upload"),
    };
    assert!(matches!(SnowflakeApi::finish_put(uploaded), Ok(RawQueryResult::Empty)));
}

#[test]
fn put_expects_no_rows() {
    assert!(matches!(
        Flow::Put.reply(query(data())),
        Err(SnowflakeApiError::UnexpectedResponse)
    ));
}

#[test]
fn a_query_expects_no_upload() {
    assert!(matches!(
        Flow::Arrow.reply(put_get(9)),
        Err(SnowflakeApiError::UnexpectedResponse)
    ));
}

#[test]
fn reported_errors_come_back_in_either_flow() {
    for flow in [Flow::Put, Flow::Arrow] {
        match flow.reply(reported(Some("syntax error"))) {
            Err(SnowflakeApiError::ApiError(code, message)) => {
                assert_eq!(code, "001003");
                assert_eq!(message, "syntax error");
            }
            _ => panic!("expected the reported error"),
        }
        match flow.reply(reported(None)) {
            Err(SnowflakeApiError::ApiError(code, message)) => {
                assert_eq!(code, "001003");
                assert_eq!(message, "");
            }
            _ => panic!("expected the reported error"),
        }
    }
}

#[test]
fn connection_errors_come_back_in_either_flow() {
    for flow in [Flow::Put, Flow::Arrow] {
        let response: Result<ExecResponse<u8>, ConnectionError> = Err(connection_error());
        assert!(matches!(
            flow.reply(response),
            Err(SnowflakeApiError::RequestError(ConnectionError::MiddlewareError(_)))
        ));
    }
}

#[test]
fn no_rows_give_an_empty_result() {
    let mut empty = data();
    empty.returned = 0;
    empty.rowset = Some(Value::Array(Vec::new()));
    empty.rowset_base64 = Some("AAAA".to_string());
    assert!(matches!(
        Flow::Arrow.reply(query(empty)),
        Ok(Reply::Finished(RawQueryResult::Empty))
    ));
}

#[test]
fn json_rows_go_before_arrow_rows() {
    let value = Value::Array(vec![Value::Array(vec![Value::from("42")])]);
    let mut answer = data();
    answer.rowset = Some(value.clone());
    answer.rowset_base64 = Some("AAAA".to_string());
    match Flow::Arrow.reply(query(answer)) {
        Ok(Reply::Finished(RawQueryResult::Json(json))) => {
            assert_eq!(json.value, value);
            assert_eq!(json.schema.len(), 1);
            assert_eq!(json.schema[0].name, "n");
        }
        _ => panic!("expected JSON"),
    }
}

#[test]
fn arrow_rows_are_to_be_fetched() {
    let mut answer = data();
    answer.rowset_base64 = Some(String::new());
    answer.chunks = vec![
        ExecResponseChunk { url: "https://one".to_string() },
        ExecResponseChunk { url: "https://two".to_string() },
    ];
    answer.chunk_headers.insert("x-key".to_string(), "k".to_string());
    match SnowflakeApi::exec_arrow_raw(query(answer)) {
        Ok(ArrowReply::Fetch(fetch)) => {
            assert_eq!(fetch.urls, vec!["https://one".to_string(), "https://two".to_string()]);
            assert_eq!(fetch.headers.len(), 1);
            assert_eq!(fetch.headers["x-key"], "k");
            assert_eq!(fetch.rowset_base64, "");
        }
        _ => panic!("expected a fetch"),
    }
}

#[test]
fn rows_from_nowhere_are_an_error() {
    assert!(matches!(
        Flow::Arrow.reply(query(data())),
        Err(SnowflakeApiError::BrokenResponse)
    ));
}

#[test]
fn negative_counts_are_not_zero() {
    let mut answer = data();
    answer.returned = -1;
    assert!(matches!(
        Flow::Arrow.reply(query(answer)),
        Err(SnowflakeApiError::BrokenResponse)
    ));
}

#[test]
fn inline_rows_come_after_the_chunks() {
    let chunks = vec![Bytes::from_static(b"one"), Bytes::from_static(b"two")];
    let joined = chunks_of(fetch(&STANDARD.encode(b"inline")).finish(Ok(chunks)));
    assert_eq!(joined, vec![&b"one"[..], &b"two"[..], &b"inline"[..]]);
}

#[test]
fn no_inline_rows_add_no_chunk() {
    let joined = chunks_of(fetch("").finish(Ok(vec![Bytes::from_static(b"one")])));
    assert_eq!(joined, vec![&b"one"[..]]);
}

#[test]
fn inline_rows_must_be_base64() {
    for (text, expected) in [
        ("AA*A", DecodeError::InvalidByte(2, b'*')),
        ("AAA", DecodeError::InvalidPadding),
    ] {
        match fetch(text).finish(Ok(Vec::new())) {
            Err(SnowflakeApiError::ResponseDeserializationError(error)) => {
                assert_eq!(error, expected)
            }
            _ => panic!("expected a decoding error"),
        }
    }
}

#[test]
fn failed_chunks_go_before_bad_base64() {
    assert!(matches!(
        fetch("AA*A").finish(Err(connection_error())),
        Err(SnowflakeApiError::RequestError(_))
    ));
}

#[test]
fn chunks_are_joined_with_decoded_rows() {
    let chunks = vec![Bytes::from_static(b"one")];
    let joined = chunks_of(join_chunks(chunks.clone(), "ignored text", Ok(vec![1, 2])));
    assert_eq!(joined, vec![&b"one"[..], &[1, 2][..]]);
    let joined = chunks_of(join_chunks(chunks.clone(), "", Ok(vec![1, 2])));
    assert_eq!(joined, vec![&b"one"[..]]);
    assert!(matches!(
        join_chunks(chunks, "x", Err(DecodeError::InvalidPadding)),
        Err(SnowflakeApiError::ResponseDeserializationError(DecodeError::InvalidPadding))
    ));
}

#[test]
fn a_whole_query_decodes_chunks_first() {
    let api = api();
    let flow = api.exec_raw("select n from t");
    let mut answer = data();
    answer.returned = 3;
    answer.rowset_base64 = Some(STANDARD.encode(stream(vec![3])));
    answer.chunks = vec![ExecResponseChunk { url: "https://one".to_string() }];
    let raw = match flow.reply(query(answer)) {
        Ok(Reply::Fetch(fetch)) => fetch.finish(Ok(vec![Bytes::from(stream(vec![1, 2]))])),
        _ => panic!("expected a fetch"),
    };
    match SnowflakeApi::exec(raw) {
        Some(Ok(QueryResult::Arrow(batches))) => {
            let values: Vec<Vec<i64>> = batches
                .iter()
                .map(|batch| {
                    let column = batch.0.column(0);
                    let array = column.as_any().downcast_ref::<Int64Array>().expect("integers");
                    array.values().to_vec()
                })
                .collect();
            assert_eq!(values, vec![vec![1, 2], vec![3]]);
        }
        _ => panic!("expected batches"),
    }
}

#[test]
fn decoding_passes_errors_on() {
    assert!(matches!(
        SnowflakeApi::exec(Err(SnowflakeApiError::BrokenResponse)),
        Some(Err(SnowflakeApiError::BrokenResponse))
    ));
    let bad = RawQueryResult::Bytes(vec![Bytes::new()]);
    assert!(matches!(SnowflakeApi::exec(Ok(bad)), Some(Err(SnowflakeApiError::ArrowError(_)))));
    assert!(matches!(
        SnowflakeApi::exec(Ok(RawQueryResult::Empty)),
        Some(Ok(QueryResult::Empty))
    ));
}

#[test]
fn results_without_chunks_need_no_stream() {
    assert!(matches!(
        SnowflakeApi::exec_without_chunks(Ok(RawQueryResult::Empty)),
        Ok(Ok(QueryResult::Empty))
    ));
    assert!(matches!(
        SnowflakeApi::exec_without_chunks(Err(SnowflakeApiError::BrokenResponse)),
        Ok(Err(SnowflakeApiError::BrokenResponse))
    ));
    match SnowflakeApi::exec_without_chunks(Ok(RawQueryResult::Bytes(Vec::new()))) {
        Ok(Ok(QueryResult::Arrow(batches))) => assert!(batches.is_empty()),
        _ => panic!("expected no batches"),
    }
    match SnowflakeApi::exec_without_chunks(Ok(RawQueryResult::Bytes(vec![Bytes::new()]))) {
        Err(chunks) => assert_eq!(chunks, vec![Bytes::new()]),
        Ok(_) => panic!("expected the chunks"),
    }
}

#[test]
fn closing_reports_how_it_went() {
    assert!(SnowflakeApi::close_session(Ok(())).is_ok());
    let failed = AuthError::RequestError(connection_error());
    assert!(matches!(
        SnowflakeApi::close_session(Err(failed)),
        Err(SnowflakeApiError::AuthError(AuthError::RequestError(_)))
    ));
}

#[test]
fn errors_convert_into_their_variants() {
    let error = SnowflakeApiError::from(ArrowError::CastError("c".to_string()));
    assert!(matches!(error, SnowflakeApiError::ArrowError(ArrowError::CastError(_))));
    let error = SnowflakeApiError::from(DecodeError::InvalidPadding);
    assert!(matches!(error, SnowflakeApiError::ResponseDeserializationError(_)));
    let error = SnowflakeApiError::from(connection_error());
    assert!(matches!(error, SnowflakeApiError::RequestError(_)));
    let error = SnowflakeApiError::from(AuthError::MissingEnvArgument("X".to_string()));
    assert!(matches!(error, SnowflakeApiError::AuthError(_)));
    let error = SnowflakeApiError::from(std::io::Error::from(std::io::ErrorKind::NotFound));
    assert!(matches!(error, SnowflakeApiError::LocalIoError(_)));
    let error = SnowflakeApiError::from(object_store::Error::NotImplemented);
    assert!(matches!(error, SnowflakeApiError::ObjectStoreError(_)));
    let path = object_store::path::Path::parse("a//b").unwrap_err();
    let error = SnowflakeApiError::from(path);
    assert!(matches!(error, SnowflakeApiError::ObjectStorePathError(_)));
    let pattern = glob::Pattern::new("***").unwrap_err();
    let error = SnowflakeApiError::from(pattern);
    assert!(matches!(error, SnowflakeApiError::GlobPatternError(_)));
}
