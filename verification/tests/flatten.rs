//! Flattening of marked columns and of whole batches.

use std::collections::HashMap;
use std::sync::Arc;

use arrow_array::{
    Array, ArrayRef, Int32Array, Int64Array, RecordBatch, StringArray, StructArray,
    TimestampMicrosecondArray,
};
use arrow_buffer::NullBuffer;
use arrow_schema::{ArrowError, DataType, Field, Fields, Schema, TimeUnit};
use snowflake_api::flatten::{flatten_snowflake_types, try_flatten_snowflake_types};
use snowflake_api::ntz::{
    flatten_row, overflow_err, DEFAULT_SCALE, SNOWFLAKE_LOGICAL_TYPE_KEY, SNOWFLAKE_SCALE_KEY,
    SNOWFLAKE_TIMESTAMP_NTZ,
};

fn ntz_struct_column(
    epochs: Vec<Option<i64>>,
    fractions: Vec<Option<i32>>,
) -> (Field, ArrayRef) {
    let epoch = Arc::new(Int64Array::from(epochs)) as ArrayRef;
    let fraction = Arc::new(Int32Array::from(fractions)) as ArrayRef;
    let fields = Fields::from(vec![
        Field::new("epoch", DataType::Int64, true),
        Field::new("fraction", DataType::Int32, true),
    ]);
    let struct_array = StructArray::new(fields.clone(), vec![epoch, fraction], None);

    let mut meta = HashMap::new();
    meta.insert(SNOWFLAKE_LOGICAL_TYPE_KEY.to_string(), SNOWFLAKE_TIMESTAMP_NTZ.to_string());
    meta.insert(SNOWFLAKE_SCALE_KEY.to_string(), "9".to_string());

    let field = Field::new("ts", DataType::Struct(fields), true).with_metadata(meta);
    (field, Arc::new(struct_array))
}

/// The metadata of a marked field, with the given scale.
fn marks(scale: Option<&str>) -> HashMap<String, String> {
    let mut meta = HashMap::new();
    meta.insert("logicalType".to_string(), "TIMESTAMP_NTZ".to_string());
    if let Some(scale) = scale {
        meta.insert("scale".to_string(), scale.to_string());
    }
    meta
}

fn one_column(field: Field, column: ArrayRef) -> RecordBatch {
    RecordBatch::try_new(Arc::new(Schema::new(vec![field])), vec![column]).unwrap()
}

fn flatten(batch: RecordBatch) -> Result<RecordBatch, ArrowError> {
    flatten_snowflake_types(snowflake_api::RecordBatch(batch)).map(|flat| flat.0)
}

fn try_flatten(batch: RecordBatch) -> Option<Result<RecordBatch, ArrowError>> {
    try_flatten_snowflake_types(snowflake_api::RecordBatch(batch))
        .map(|outcome| outcome.map(|flat| flat.0))
}

fn timestamps(batch: &RecordBatch, column: usize) -> Vec<Option<i64>> {
    let array = batch
        .column(column)
        .as_any()
        .downcast_ref::<TimestampMicrosecondArray>()
        .expect("a timestamp column");
    array.iter().collect()
}

/// Flattens one row of seconds and a fraction in the given scale.
fn with_scale(scale: Option<&str>, seconds: i64, units: i32) -> Vec<Option<i64>> {
    let (field, column) = ntz_struct_column(vec![Some(seconds)], vec![Some(units)]);
    let field = field.with_metadata(marks(scale));
    timestamps(&flatten(one_column(field, column)).unwrap(), 0)
}

fn schema_error(outcome: Result<RecordBatch, ArrowError>) -> String {
    match outcome {
        Err(ArrowError::SchemaError(message)) => message,
        other => panic!("expected a schema error, got {other:?}"),
    }
}

fn cast_error(outcome: Result<RecordBatch, ArrowError>) -> String {
    match outcome {
        Err(ArrowError::CastError(message)) => message,
        other => panic!("expected a cast error, got {other:?}"),
    }
}

#[test]
fn flatten_timestamp_ntz_scale_9() {
    // 2026-01-02 03:04:05.123456789 UTC = 1767322445 seconds + 123_456_789 ns
    // Expected micros: 1767322445_000000 + 123_456 = 1767322445_123456
    let (field, column) = ntz_struct_column(
        vec![Some(1_767_322_445), None, Some(0)],
        vec![Some(123_456_789), None, Some(0)],
    );
    let schema = Arc::new(Schema::new(vec![field]));
    let batch = RecordBatch::try_new(schema, vec![column]).unwrap();

    let flat = flatten_snowflake_types(snowflake_api::RecordBatch(batch)).unwrap().0;
    assert_eq!(
        flat.schema().field(0).data_type(),
        &DataType::Timestamp(TimeUnit::Microsecond, None)
    );
    let ts = flat
        .column(0)
        .as_any()
        .downcast_ref::<TimestampMicrosecondArray>()
        .expect("flattened to TimestampMicrosecondArray");
    assert_eq!(ts.value(0), 1_767_322_445_123_456);
    assert!(ts.is_null(1));
    assert_eq!(ts.value(2), 0);
    // Metadata pinning should be consumed by the flatten step.
    assert!(!flat.schema().field(0).metadata().contains_key(SNOWFLAKE_LOGICAL_TYPE_KEY));
}

#[test]
fn flatten_timestamp_ntz_parent_null_buffer() {
    // Same shape, but the null is signalled on the parent struct rather
    // than the `epoch` child: Snowflake uses either depending on the
    // batch source, so both must yield `is_null` rows.
    let epoch = Arc::new(Int64Array::from(vec![1_767_322_445_i64, 0, 0])) as ArrayRef;
    let fraction = Arc::new(Int32Array::from(vec![123_456_789_i32, 0, 0])) as ArrayRef;
    let fields = Fields::from(vec![
        Field::new("epoch", DataType::Int64, true),
        Field::new("fraction", DataType::Int32, true),
    ]);
    let nulls = NullBuffer::from(vec![true, false, true]);
    let struct_array = StructArray::new(fields.clone(), vec![epoch, fraction], Some(nulls));

    let mut meta = HashMap::new();
    meta.insert(SNOWFLAKE_LOGICAL_TYPE_KEY.to_string(), SNOWFLAKE_TIMESTAMP_NTZ.to_string());
    meta.insert(SNOWFLAKE_SCALE_KEY.to_string(), "9".to_string());
    let field = Field::new("ts", DataType::Struct(fields), true).with_metadata(meta);
    let schema = Arc::new(Schema::new(vec![field]));
    let batch = RecordBatch::try_new(schema, vec![Arc::new(struct_array)]).unwrap();

    let flat = flatten_snowflake_types(snowflake_api::RecordBatch(batch)).unwrap().0;
    let ts = flat
        .column(0)
        .as_any()
        .downcast_ref::<TimestampMicrosecondArray>()
        .unwrap();
    assert_eq!(ts.value(0), 1_767_322_445_123_456);
    assert!(ts.is_null(1));
    assert_eq!(ts.value(2), 0);
}

#[test]
fn flatten_pass_through_when_no_marker() {
    let epoch = Arc::new(Int64Array::from(vec![1_i64, 2, 3])) as ArrayRef;
    let field = Field::new("plain", DataType::Int64, false);
    let schema = Arc::new(Schema::new(vec![field]));
    let batch = RecordBatch::try_new(schema.clone(), vec![epoch.clone()]).unwrap();

    let flat = flatten_snowflake_types(snowflake_api::RecordBatch(batch)).unwrap().0;
    assert_eq!(flat.schema(), schema);
    assert_eq!(flat.column(0).as_ref(), epoch.as_ref());
}

#[test]
fn a_coarse_scale_multiplies() {
    assert_eq!(with_scale(Some("0"), 7, 3), vec![Some(10_000_000)]);
    assert_eq!(with_scale(Some("3"), 1, 123), vec![Some(1_123_000)]);
    assert_eq!(with_scale(Some("6"), 1, 123_456), vec![Some(1_123_456)]);
    assert_eq!(with_scale(Some("0"), 0, i32::MIN), vec![Some(-2_147_483_648_000_000)]);
}

#[test]
fn a_fine_scale_truncates_towards_zero() {
    assert_eq!(with_scale(Some("7"), 1, 19), vec![Some(1_000_001)]);
    assert_eq!(with_scale(Some("9"), -1, 999_999_999), vec![Some(-1)]);
    assert_eq!(with_scale(Some("9"), 0, -1_999), vec![Some(-1)]);
    assert_eq!(with_scale(Some("24"), 5, i32::MAX), vec![Some(5_000_000)]);
}

#[test]
fn the_scale_is_nine_where_none_can_be_read() {
    assert_eq!(DEFAULT_SCALE, 9);
    for scale in [None, Some(""), Some("+"), Some("six"), Some(" 6"), Some("-6"), Some("4294967296")]
    {
        assert_eq!(with_scale(scale, 1, 2_000), vec![Some(1_000_002)], "{scale:?}");
    }
}

#[test]
fn the_scale_may_have_a_sign_and_leading_zeros() {
    assert_eq!(with_scale(Some("+6"), 1, 2_000), vec![Some(1_002_000)]);
    assert_eq!(with_scale(Some("0006"), 1, 2_000), vec![Some(1_002_000)]);
}

#[test]
fn a_scale_beyond_the_limit_is_not_computed_with() {
    let (field, column) = ntz_struct_column(vec![None, Some(1)], vec![Some(1), Some(1)]);
    let field = field.with_metadata(marks(Some("25")));
    assert!(try_flatten(one_column(field, column)).is_none());
}

#[test]
fn a_scale_beyond_the_limit_does_not_matter_without_timestamps() {
    let (field, column) = ntz_struct_column(vec![None, None], vec![Some(1), None]);
    let field = field.with_metadata(marks(Some("4294967295")));
    let flat = flatten(one_column(field, column)).unwrap();
    assert_eq!(timestamps(&flat, 0), vec![None, None]);
}

#[test]
fn an_earlier_error_comes_before_a_scale_beyond_the_limit() {
    let (first, first_column) = ntz_struct_column(vec![Some(i64::MAX)], vec![None]);
    let (second, second_column) = ntz_struct_column(vec![Some(1)], vec![None]);
    let schema = Schema::new(vec![
        first.with_name("a"),
        second.with_name("b").with_metadata(marks(Some("25"))),
    ]);
    let batch =
        RecordBatch::try_new(Arc::new(schema), vec![first_column, second_column]).unwrap();
    let outcome = try_flatten(batch).expect("the first column fails before");
    assert_eq!(cast_error(outcome), "TIMESTAMP_NTZ `a` overflows i64 microseconds at row 0");
}

#[test]
fn a_null_fraction_counts_as_zero() {
    let (field, column) = ntz_struct_column(vec![Some(3), Some(4)], vec![None, Some(5_000)]);
    let flat = flatten(one_column(field, column)).unwrap();
    assert_eq!(timestamps(&flat, 0), vec![Some(3_000_000), Some(4_000_005)]);
}

#[test]
fn a_missing_fraction_counts_as_zero() {
    let epoch = Arc::new(Int64Array::from(vec![Some(3), None])) as ArrayRef;
    let fields = Fields::from(vec![Field::new("epoch", DataType::Int64, true)]);
    let structs = StructArray::new(fields.clone(), vec![epoch], None);
    let field = Field::new("ts", DataType::Struct(fields), true).with_metadata(marks(Some("0")));
    let flat = flatten(one_column(field, Arc::new(structs))).unwrap();
    assert_eq!(timestamps(&flat, 0), vec![Some(3_000_000), None]);
}

#[test]
fn an_overflow_names_the_field_and_the_first_row() {
    let (field, column) = ntz_struct_column(
        vec![Some(0), None, Some(9_223_372_036_855), Some(i64::MIN)],
        vec![Some(0), None, Some(0), Some(0)],
    );
    let outcome = flatten(one_column(field.with_name("when"), column));
    assert_eq!(cast_error(outcome), "TIMESTAMP_NTZ `when` overflows i64 microseconds at row 2");
}

#[test]
fn the_fraction_can_overflow_too() {
    // The largest second whose microseconds fit, and the microseconds left above it.
    assert_eq!(with_scale(Some("6"), 9_223_372_036_854, 775_807), vec![Some(i64::MAX)]);
    let (field, column) = ntz_struct_column(vec![Some(9_223_372_036_854)], vec![Some(775_808)]);
    let field = field.with_metadata(marks(Some("6")));
    let outcome = flatten(one_column(field, column));
    assert_eq!(cast_error(outcome), "TIMESTAMP_NTZ `ts` overflows i64 microseconds at row 0");
}

#[test]
fn an_overflow_in_the_seconds_is_not_undone_by_the_fraction() {
    // -9223372036855 seconds are just out of range, and the fraction would bring them back.
    let (field, column) = ntz_struct_column(vec![Some(-9_223_372_036_855)], vec![Some(1)]);
    let field = field.with_metadata(marks(Some("0")));
    let outcome = flatten(one_column(field, column));
    assert_eq!(cast_error(outcome), "TIMESTAMP_NTZ `ts` overflows i64 microseconds at row 0");
}

#[test]
fn overflow_errors_write_the_row_in_decimal() {
    for row in [0_usize, 9, 10, 1_234_567_890, usize::MAX] {
        match overflow_err("x", row) {
            ArrowError::CastError(message) => assert_eq!(
                message,
                format!("TIMESTAMP_NTZ `x` overflows i64 microseconds at row {row}")
            ),
            other => panic!("unexpected {other:?}"),
        }
    }
}

#[test]
fn a_struct_without_seconds_is_an_error() {
    let fraction = Arc::new(Int32Array::from(vec![1])) as ArrayRef;
    let fields = Fields::from(vec![Field::new("fraction", DataType::Int32, true)]);
    let structs = StructArray::new(fields.clone(), vec![fraction], None);
    let field = Field::new("ts", DataType::Struct(fields), true).with_metadata(marks(Some("9")));
    let outcome = flatten(one_column(field, Arc::new(structs)));
    assert_eq!(schema_error(outcome), "TIMESTAMP_NTZ struct `ts` missing `epoch` child");
}

#[test]
fn seconds_of_another_type_are_an_error() {
    let epoch = Arc::new(Int32Array::from(vec![1])) as ArrayRef;
    let fields = Fields::from(vec![Field::new("epoch", DataType::Int32, true)]);
    let structs = StructArray::new(fields.clone(), vec![epoch], None);
    let field = Field::new("ts", DataType::Struct(fields), true).with_metadata(marks(Some("9")));
    let outcome = flatten(one_column(field, Arc::new(structs)));
    assert_eq!(schema_error(outcome), "TIMESTAMP_NTZ `ts` epoch child is not Int64");
}

#[test]
fn a_fraction_of_another_type_is_an_error() {
    let epoch = Arc::new(Int64Array::from(vec![1])) as ArrayRef;
    let fraction = Arc::new(Int64Array::from(vec![1])) as ArrayRef;
    let fields = Fields::from(vec![
        Field::new("epoch", DataType::Int64, true),
        Field::new("fraction", DataType::Int64, true),
    ]);
    let structs = StructArray::new(fields.clone(), vec![epoch, fraction], None);
    let field = Field::new("ts", DataType::Struct(fields), true).with_metadata(marks(Some("9")));
    let outcome = flatten(one_column(field, Arc::new(structs)));
    assert_eq!(schema_error(outcome), "TIMESTAMP_NTZ `ts` fraction child is not Int32");
}

#[test]
fn only_marked_structs_are_flattened() {
    let text = Arc::new(StringArray::from(vec!["a"])) as ArrayRef;
    let marked_text = Field::new("text", DataType::Utf8, false).with_metadata(marks(Some("9")));
    let (field, column) = ntz_struct_column(vec![Some(1)], vec![Some(1)]);
    let unmarked = field.clone().with_name("plain").with_metadata(HashMap::new());
    let mut zoned = HashMap::new();
    zoned.insert("logicalType".to_string(), "TIMESTAMP_LTZ".to_string());
    let zoned = field.clone().with_name("zoned").with_metadata(zoned);
    let mut lower = HashMap::new();
    lower.insert("logicalType".to_string(), "timestamp_ntz".to_string());
    let lower = field.with_name("lower").with_metadata(lower);
    let schema = Arc::new(Schema::new(vec![marked_text, unmarked, zoned, lower]));
    let batch = RecordBatch::try_new(
        schema,
        vec![text, column.clone(), column.clone(), column],
    )
    .unwrap();
    assert_eq!(flatten(batch.clone()).unwrap(), batch);
}

#[test]
fn flattening_keeps_the_rest_of_the_batch() {
    let (field, column) = ntz_struct_column(vec![Some(1), None], vec![Some(0), None]);
    let mut meta = marks(Some("9"));
    meta.insert("comment".to_string(), "kept".to_string());
    let field = field.with_metadata(meta);
    let plain = Field::new("n", DataType::Int64, false);
    let numbers = Arc::new(Int64Array::from(vec![5, 6])) as ArrayRef;
    let mut schema_meta = HashMap::new();
    schema_meta.insert("source".to_string(), "warehouse".to_string());
    let schema = Arc::new(Schema::new_with_metadata(
        vec![plain.clone(), field],
        schema_meta.clone(),
    ));
    let batch = RecordBatch::try_new(schema, vec![numbers.clone(), column]).unwrap();

    let flat = flatten(batch).unwrap();
    assert_eq!(flat.num_columns(), 2);
    assert_eq!(flat.num_rows(), 2);
    assert_eq!(flat.schema().metadata(), &schema_meta);
    assert_eq!(flat.schema().field(0), &plain);
    assert_eq!(flat.column(0).as_ref(), numbers.as_ref());
    let mut kept = HashMap::new();
    kept.insert("comment".to_string(), "kept".to_string());
    let expected = Field::new("ts", DataType::Timestamp(TimeUnit::Microsecond, None), true)
        .with_metadata(kept);
    assert_eq!(flat.schema().field(1), &expected);
    assert_eq!(timestamps(&flat, 1), vec![Some(1_000_000), None]);
}

#[test]
fn flattening_twice_changes_nothing_more() {
    let (field, column) = ntz_struct_column(vec![Some(1), None], vec![Some(7_000), None]);
    let once = flatten(one_column(field, column)).unwrap();
    assert_eq!(flatten(once.clone()).unwrap(), once);
}

#[test]
fn several_marked_columns_are_flattened() {
    let (a, a_column) = ntz_struct_column(vec![Some(1)], vec![None]);
    let (b, b_column) = ntz_struct_column(vec![Some(2)], vec![Some(1_000)]);
    let schema = Arc::new(Schema::new(vec![a.with_name("a"), b.with_name("b")]));
    let batch = RecordBatch::try_new(schema, vec![a_column, b_column]).unwrap();
    let flat = flatten(batch).unwrap();
    assert_eq!(timestamps(&flat, 0), vec![Some(1_000_000)]);
    assert_eq!(timestamps(&flat, 1), vec![Some(2_000_001)]);
}

#[test]
fn the_first_failing_column_decides_the_error() {
    let (a, a_column) = ntz_struct_column(vec![Some(1)], vec![None]);
    let (b, b_column) = ntz_struct_column(vec![Some(i64::MAX)], vec![None]);
    let (c, c_column) = ntz_struct_column(vec![Some(i64::MIN)], vec![None]);
    let schema =
        Arc::new(Schema::new(vec![a.with_name("a"), b.with_name("b"), c.with_name("c")]));
    let batch = RecordBatch::try_new(schema, vec![a_column, b_column, c_column]).unwrap();
    assert_eq!(
        cast_error(flatten(batch)),
        "TIMESTAMP_NTZ `b` overflows i64 microseconds at row 0"
    );
}

#[test]
fn a_field_that_admits_no_nulls_must_get_none() {
    // The struct is there in every row, but the seconds of one are null.
    let (field, column) = ntz_struct_column(vec![Some(1), None], vec![None, None]);
    let batch = one_column(field.with_nullable(false), column);
    match flatten(batch) {
        Err(ArrowError::InvalidArgumentError(message)) => assert_eq!(
            message,
            "Column 'ts' is declared as non-nullable but contains null values"
        ),
        other => panic!("unexpected {other:?}"),
    }
    let (field, column) = ntz_struct_column(vec![Some(1), Some(2)], vec![None, None]);
    let flat = flatten(one_column(field.with_nullable(false), column)).unwrap();
    assert!(!flat.schema().field(0).is_nullable());
    assert_eq!(timestamps(&flat, 0), vec![Some(1_000_000), Some(2_000_000)]);
}

#[test]
fn an_empty_column_flattens_to_an_empty_one() {
    let (field, column) = ntz_struct_column(vec![], vec![]);
    let flat = flatten(one_column(field, column)).unwrap();
    assert_eq!(timestamps(&flat, 0), Vec::<Option<i64>>::new());
}

#[test]
fn rows_are_null_from_either_side() {
    assert_eq!(flatten_row(9, true, Some(1), Some(2_000)), Some(Some(1_000_002)));
    assert_eq!(flatten_row(9, true, Some(1), None), Some(Some(1_000_000)));
    assert_eq!(flatten_row(9, false, Some(1), Some(2_000)), Some(None));
    assert_eq!(flatten_row(9, true, None, Some(2_000)), Some(None));
    assert_eq!(flatten_row(99, false, None, None), Some(None));
    assert_eq!(flatten_row(9, true, Some(i64::MAX), None), None);
}
