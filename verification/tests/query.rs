//! Decoding of raw results.

use std::collections::HashMap;
use std::sync::Arc;

use arrow_array::{
    Array, ArrayRef, Int32Array, Int64Array, RecordBatch, StructArray, TimestampMicrosecondArray,
};
use arrow_ipc::reader::StreamReader;
use arrow_ipc::writer::StreamWriter;
use arrow_schema::{ArrowError, DataType, Field, Fields, Schema};
use bytes::{Buf, Bytes};
use serde_json::Value;
use snowflake_api::query::{drain, field_schemas, flatten_item};
use snowflake_api::responses::{ExecResponseRowType, SnowflakeType};
use snowflake_api::{FieldSchema, JsonResult, QueryResult, RawQueryResult};

fn numbers(values: Vec<i64>) -> RecordBatch {
    let schema = Schema::new(vec![Field::new("n", DataType::Int64, false)]);
    RecordBatch::try_new(Arc::new(schema), vec![Arc::new(Int64Array::from(values))]).unwrap()
}

fn instants(scale: &str, seconds: Vec<i64>) -> RecordBatch {
    let fractions = vec![0; seconds.len()];
    let fields = Fields::from(vec![
        Field::new("epoch", DataType::Int64, true),
        Field::new("fraction", DataType::Int32, true),
    ]);
    let structs = StructArray::new(
        fields.clone(),
        vec![
            Arc::new(Int64Array::from(seconds)) as ArrayRef,
            Arc::new(Int32Array::from(fractions)) as ArrayRef,
        ],
        None,
    );
    let mut meta = HashMap::new();
    meta.insert("logicalType".to_string(), "TIMESTAMP_NTZ".to_string());
    meta.insert("scale".to_string(), scale.to_string());
    let field = Field::new("ts", DataType::Struct(fields), true).with_metadata(meta);
    RecordBatch::try_new(Arc::new(Schema::new(vec![field])), vec![Arc::new(structs)]).unwrap()
}

/// The IPC stream of batches.
fn stream(batches: &[RecordBatch]) -> Bytes {
    let mut buffer: Vec<u8> = Vec::new();
    let mut writer = StreamWriter::try_new(&mut buffer, &batches[0].schema()).unwrap();
    for batch in batches {
        writer.write(batch).unwrap();
    }
    writer.finish().unwrap();
    drop(writer);
    Bytes::from(buffer)
}

fn decode(chunks: Vec<Bytes>) -> Result<Vec<RecordBatch>, ArrowError> {
    match RawQueryResult::Bytes(chunks).deserialize_arrow() {
        Ok(QueryResult::Arrow(batches)) => Ok(batches.into_iter().map(|batch| batch.0).collect()),
        Ok(_) => panic!("expected Arrow"),
        Err(error) => Err(error),
    }
}

fn seconds_of(batch: &RecordBatch) -> Vec<i64> {
    let array =
        batch.column(0).as_any().downcast_ref::<TimestampMicrosecondArray>().expect("timestamps");
    array.values().to_vec()
}

#[test]
fn no_chunks_decode_to_no_batches() {
    assert_eq!(decode(vec![]).unwrap(), Vec::<RecordBatch>::new());
}

#[test]
fn batches_come_in_the_order_of_the_chunks() {
    let first = stream(&[numbers(vec![1]), numbers(vec![2, 3])]);
    let second = stream(&[numbers(vec![4])]);
    let batches = decode(vec![first, second]).unwrap();
    assert_eq!(batches, vec![numbers(vec![1]), numbers(vec![2, 3]), numbers(vec![4])]);
}

#[test]
fn decoded_batches_are_flat() {
    let batches = decode(vec![stream(&[instants("9", vec![1, 2]), instants("9", vec![3])])]).unwrap();
    assert_eq!(batches.len(), 2);
    assert_eq!(seconds_of(&batches[0]), vec![1_000_000, 2_000_000]);
    assert_eq!(seconds_of(&batches[1]), vec![3_000_000]);
}

#[test]
fn a_chunk_that_is_no_stream_is_an_error() {
    let good = stream(&[numbers(vec![1])]);
    assert!(decode(vec![good, Bytes::from_static(b"\xff\xff\xff\xff\x10")]).is_err());
    assert!(decode(vec![Bytes::new()]).is_err());
}

#[test]
fn a_truncated_stream_is_an_error() {
    let whole = stream(&[numbers(vec![1, 2, 3, 4, 5, 6, 7, 8])]);
    let cut = whole.slice(0..whole.len() - 40);
    assert!(decode(vec![cut]).is_err());
}

#[test]
fn an_error_in_flattening_ends_the_decoding() {
    let chunk = stream(&[instants("9", vec![1]), instants("9", vec![i64::MAX])]);
    match decode(vec![chunk]) {
        Err(ArrowError::CastError(message)) => {
            assert_eq!(message, "TIMESTAMP_NTZ `ts` overflows i64 microseconds at row 0")
        }
        other => panic!("unexpected {other:?}"),
    }
}

#[test]
fn a_scale_beyond_the_limit_is_not_decoded() {
    let chunk = stream(&[instants("25", vec![1])]);
    assert!(RawQueryResult::Bytes(vec![chunk]).try_deserialize_arrow().is_none());
}

#[test]
fn an_error_before_a_scale_beyond_the_limit_is_returned() {
    let bad = Bytes::new();
    let chunk = stream(&[instants("25", vec![1])]);
    let outcome = RawQueryResult::Bytes(vec![bad, chunk]).try_deserialize_arrow();
    assert!(matches!(outcome, Some(Err(_))));
}

#[test]
fn whether_a_result_decodes_can_be_asked_first() {
    let good = RawQueryResult::Bytes(vec![stream(&[instants("9", vec![1])])]);
    assert!(good.is_decodable());
    match good.try_deserialize_arrow() {
        Some(Ok(QueryResult::Arrow(batches))) => assert_eq!(seconds_of(&batches[0].0), vec![1_000_000]),
        _ => panic!("expected batches"),
    }
    assert!(!RawQueryResult::Bytes(vec![stream(&[instants("25", vec![1])])]).is_decodable());
    // An error is an outcome of decoding.
    assert!(RawQueryResult::Bytes(vec![Bytes::new()]).is_decodable());
    assert!(RawQueryResult::Empty.is_decodable());
}

#[test]
fn joined_lists_give_joined_batches() {
    let first = vec![stream(&[numbers(vec![1]), numbers(vec![2])]), stream(&[numbers(vec![3])])];
    let second = vec![stream(&[numbers(vec![4])])];
    let decoded = |chunks: Vec<Bytes>| -> Vec<RecordBatch> {
        match RawQueryResult::flat_bytes_to_batches(chunks) {
            Some(Ok(batches)) => batches.into_iter().map(|batch| batch.0).collect(),
            _ => panic!("expected batches"),
        }
    };
    let joined = [first.clone(), second.clone()].concat();
    assert_eq!(decoded(joined), [decoded(first), decoded(second)].concat());
    assert_eq!(decoded(Vec::new()), Vec::<RecordBatch>::new());
}

#[test]
fn one_chunk_decodes_alone() {
    match RawQueryResult::bytes_to_batches(stream(&[numbers(vec![1]), numbers(vec![2])])) {
        Some(Ok(batches)) => {
            let batches: Vec<RecordBatch> = batches.into_iter().map(|batch| batch.0).collect();
            assert_eq!(batches, vec![numbers(vec![1]), numbers(vec![2])]);
        }
        _ => panic!("expected batches"),
    }
    match RawQueryResult::bytes_to_batches(Bytes::new()) {
        Some(Err(ArrowError::IpcError(message))) => {
            assert_eq!(message, "Expected schema message, found empty stream.")
        }
        other => panic!("unexpected {other:?}"),
    }
}

#[test]
fn an_undecodable_result_comes_back_unchanged() {
    let chunk = stream(&[instants("25", vec![1])]);
    match RawQueryResult::Bytes(vec![chunk.clone()]).deserialize_or_return() {
        Err(RawQueryResult::Bytes(chunks)) => assert_eq!(chunks, vec![chunk]),
        _ => panic!("expected the raw result"),
    }
    match RawQueryResult::Bytes(vec![stream(&[numbers(vec![7])])]).deserialize_or_return() {
        Ok(Ok(QueryResult::Arrow(batches))) => assert_eq!(batches[0].0, numbers(vec![7])),
        _ => panic!("expected batches"),
    }
    assert!(matches!(
        RawQueryResult::Bytes(vec![Bytes::new()]).deserialize_or_return(),
        Ok(Err(ArrowError::IpcError(_)))
    ));
    assert!(matches!(
        RawQueryResult::Empty.deserialize_or_return(),
        Ok(Ok(QueryResult::Empty))
    ));
}

#[test]
fn a_reader_is_drained_from_where_it_stands() {
    let chunk = stream(&[numbers(vec![1]), numbers(vec![2]), numbers(vec![3])]);
    let mut reader = StreamReader::try_new(chunk.reader(), None).unwrap();
    assert_eq!(reader.next().unwrap().unwrap(), numbers(vec![1]));
    match drain(reader) {
        Some(Ok(batches)) => {
            let batches: Vec<RecordBatch> = batches.into_iter().map(|batch| batch.0).collect();
            assert_eq!(batches, vec![numbers(vec![2]), numbers(vec![3])]);
        }
        other => panic!("unexpected {other:?}"),
    }
}

#[test]
fn the_error_of_a_reader_comes_back() {
    // The second message is another schema, where a batch should stand.
    let first = stream(&[numbers(vec![1])]);
    let broken = Bytes::from([&first[..first.len() - 8], &first[..]].concat());
    let mut reader = StreamReader::try_new(broken.clone().reader(), None).unwrap();
    assert!(reader.next().unwrap().is_ok());
    let expected = reader.next().unwrap().unwrap_err().to_string();
    assert_eq!(expected, "Ipc error: Expected a record batch, but found a schema");

    let drained = drain(StreamReader::try_new(broken.clone().reader(), None).unwrap());
    let alone = RawQueryResult::bytes_to_batches(broken.clone());
    for outcome in [drained, alone] {
        match outcome {
            Some(Err(error)) => assert_eq!(error.to_string(), expected),
            other => panic!("unexpected {other:?}"),
        }
    }
    // It also ends the decoding of chunks, before a later chunk is looked at.
    match decode(vec![first, broken, Bytes::new()]) {
        Err(error) => assert_eq!(error.to_string(), expected),
        Ok(_) => panic!("expected an error"),
    }
}

#[test]
fn single_outcomes_are_flattened() {
    match flatten_item(Ok(snowflake_api::RecordBatch(instants("0", vec![5])))) {
        Some(Ok(flat)) => assert_eq!(seconds_of(&flat.0), vec![5_000_000]),
        other => panic!("unexpected {other:?}"),
    }
    match flatten_item(Err(ArrowError::SchemaError("broken".to_string()))) {
        Some(Err(ArrowError::SchemaError(message))) => assert_eq!(message, "broken"),
        other => panic!("unexpected {other:?}"),
    }
    assert!(flatten_item(Ok(snowflake_api::RecordBatch(instants("30", vec![5])))).is_none());
}

#[test]
fn json_and_empty_results_stay_as_they_are() {
    let value = Value::Array(vec![Value::from(1)]);
    let json = JsonResult { value: value.clone(), schema: Vec::new() };
    match RawQueryResult::Json(json).deserialize_arrow() {
        Ok(QueryResult::Json(json)) => {
            assert_eq!(json.value, value);
            assert!(json.schema.is_empty());
        }
        _ => panic!("expected JSON"),
    }
    assert!(matches!(RawQueryResult::Empty.deserialize_arrow(), Ok(QueryResult::Empty)));
    assert!(matches!(
        RawQueryResult::Empty.try_deserialize_arrow(),
        Some(Ok(QueryResult::Empty))
    ));
}

#[test]
fn json_results_are_written_as_json() {
    let rows = Value::Array(vec![
        Value::Array(vec![Value::from(42), Value::from("answer")]),
        Value::Array(vec![Value::from(43), Value::from("non-\"answer\"")]),
    ]);
    let json = JsonResult { value: rows, schema: Vec::new() };
    assert_eq!(json.to_string(), r#"[[42,"answer"],[43,"non-\"answer\""]]"#);
}

#[test]
fn schemas_describe_the_columns_in_order() {
    let rowtype = vec![
        ExecResponseRowType {
            name: "id".to_string(),
            type_: SnowflakeType::Fixed,
            scale: Some(0),
            precision: Some(38),
            nullable: false,
        },
        ExecResponseRowType {
            name: "note".to_string(),
            type_: SnowflakeType::Text,
            scale: None,
            precision: None,
            nullable: true,
        },
    ];
    let schema = field_schemas(rowtype);
    assert_eq!(schema.len(), 2);
    assert_eq!(schema[0].name, "id");
    assert!(matches!(schema[0].type_, SnowflakeType::Fixed));
    assert_eq!((schema[0].scale, schema[0].precision), (Some(0), Some(38)));
    assert!(!schema[0].nullable);
    assert_eq!(schema[1].name, "note");
    assert!(matches!(schema[1].type_, SnowflakeType::Text));
    assert_eq!((schema[1].scale, schema[1].precision), (None, None));
    assert!(schema[1].nullable);
}

#[test]
fn a_field_schema_comes_from_a_row_type() {
    let field = FieldSchema::from(ExecResponseRowType {
        name: "t".to_string(),
        type_: SnowflakeType::TimestampNtz,
        scale: Some(9),
        precision: None,
        nullable: true,
    });
    assert_eq!(field.name, "t");
    assert!(matches!(field.type_, SnowflakeType::TimestampNtz));
    assert_eq!(field.scale, Some(9));
}
