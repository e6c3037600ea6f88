//! The boundary to the Arrow crates.
//!
//! Arrow's values are opaque to the verifier. What a value holds is given by a name
//! (`batch_columns`, `field_metadata`, `int64_values` and so on), and each call into
//! Arrow is a small trusted function that says, over those names, what the call does.

use std::sync::Arc;

use arrow_array::builder::TimestampMicrosecondBuilder;
use arrow_array::{Array, ArrayRef, Int32Array, Int64Array, StructArray, TimestampMicrosecondArray};
use arrow_ipc::reader::StreamReader;
use arrow_schema::{ArrowError, DataType, Field, Schema};
use bytes::buf::Reader;
use bytes::{Buf, Bytes};
use vstd::prelude::*;

use crate::text;

verus! {

/// Arrow's error type.
#[verifier::external_type_specification]
#[verifier::external_body]
pub struct ExArrowError(ArrowError);

/// Arrow's logical data types.
#[verifier::external_type_specification]
#[verifier::external_body]
pub struct ExDataType(DataType);

/// The description of a column: name, type, nullability and metadata.
#[verifier::external_type_specification]
#[verifier::external_body]
pub struct ExField(Field);

/// The fields of a batch together with its own metadata.
#[verifier::external_type_specification]
#[verifier::external_body]
pub struct ExSchema(Schema);

/// A reference-counted byte string.
#[verifier::external_type_specification]
#[verifier::external_body]
pub struct ExBytes(Bytes);

/// The adapter that reads a buffer as a byte stream.
#[verifier::external_type_specification]
#[verifier::external_body]
#[verifier::reject_recursive_types(B)]
pub struct ExReader<B>(Reader<B>);

/// The reader of Arrow's IPC streaming format.
#[verifier::external_type_specification]
#[verifier::external_body]
#[verifier::reject_recursive_types(R)]
pub struct ExStreamReader<R>(StreamReader<R>);

/// A record batch: columns of equal length and their schema.
#[derive(Debug)]
#[verifier::external_body]
pub struct RecordBatch(pub arrow_array::RecordBatch);

/// A column of any type.
#[verifier::external_body]
pub struct Column {
    array: ArrayRef,
}

/// A column known to be an array of structs.
#[verifier::external_body]
pub struct StructColumn {
    array: StructArray,
}

/// A column known to hold 64-bit integers.
#[verifier::external_body]
pub struct Int64Column {
    array: Int64Array,
}

/// A column known to hold 32-bit integers.
#[verifier::external_body]
pub struct Int32Column {
    array: Int32Array,
}

/// A column of microsecond timestamps under construction.
#[verifier::external_body]
pub struct TimestampBuilder {
    builder: TimestampMicrosecondBuilder,
}

/// The unit in which a timestamp counts.
pub enum TimeUnit {
    Second,
    Millisecond,
    Microsecond,
    Nanosecond,
}

// ---------------------------------------------------------------------------
// Errors
// ---------------------------------------------------------------------------

/// `ArrowError::SchemaError` with the given message.
pub uninterp spec fn schema_error(message: Seq<char>) -> ArrowError;

/// Constructs `ArrowError::SchemaError`. Trusted: the value is determined by the message.
#[verifier::external_body]
pub(crate) fn make_schema_error(message: String) -> (error: ArrowError)
    ensures
        error == schema_error(message@),
{
    ArrowError::SchemaError(message)
}

/// `ArrowError::CastError` with the given message.
pub uninterp spec fn cast_error(message: Seq<char>) -> ArrowError;

/// Constructs `ArrowError::CastError`. Trusted: the value is determined by the message.
#[verifier::external_body]
pub(crate) fn make_cast_error(message: String) -> (error: ArrowError)
    ensures
        error == cast_error(message@),
{
    ArrowError::CastError(message)
}

// ---------------------------------------------------------------------------
// Data types and fields
// ---------------------------------------------------------------------------

/// Whether a data type is a struct type.
pub uninterp spec fn is_struct_type(data_type: DataType) -> bool;

/// The timestamp type with the given unit and time zone.
pub uninterp spec fn timestamp_type(unit: TimeUnit, zone: Option<Seq<char>>) -> DataType;

/// Constructs `DataType::Timestamp`. Trusted: the value is determined by the unit and the
/// zone.
#[verifier::external_body]
pub(crate) fn make_timestamp_type(unit: TimeUnit, zone: Option<&str>) -> (data_type: DataType)
    ensures
        data_type == timestamp_type(unit, text::chars_of_str(zone)),
{
    let unit = match unit {
        TimeUnit::Second => arrow_schema::TimeUnit::Second,
        TimeUnit::Millisecond => arrow_schema::TimeUnit::Millisecond,
        TimeUnit::Microsecond => arrow_schema::TimeUnit::Microsecond,
        TimeUnit::Nanosecond => arrow_schema::TimeUnit::Nanosecond,
    };
    DataType::Timestamp(unit, zone.map(Arc::from))
}

/// The name of a field.
pub uninterp spec fn field_name(field: Field) -> Seq<char>;

/// The data type of a field.
pub uninterp spec fn field_type(field: Field) -> DataType;

/// Whether a field admits nulls.
pub uninterp spec fn field_nullable(field: Field) -> bool;

/// The metadata of a field.
pub uninterp spec fn field_metadata(field: Field) -> Map<Seq<char>, Seq<char>>;

/// The map that a list of key and value pairs describes, a later pair replacing an earlier one.
pub open spec fn map_of(entries: Seq<(String, String)>) -> Map<Seq<char>, Seq<char>>
    decreases entries.len(),
{
    if entries.len() == 0 {
        Map::empty()
    } else {
        map_of(entries.drop_last()).insert(entries.last().0@, entries.last().1@)
    }
}

/// Whether no key is listed twice.
pub open spec fn distinct_keys(entries: Seq<(String, String)>) -> bool {
    forall|i: int, j: int|
        0 <= i < j < entries.len() ==> #[trigger] entries[i].0@ != #[trigger] entries[j].0@
}

/// Calls `Field::name`. Trusted: it returns the field's name.
#[verifier::external_body]
pub(crate) fn name_of(field: &Field) -> (name: &str)
    ensures
        name@ == field_name(*field),
{
    field.name().as_str()
}

/// Calls `Field::is_nullable`. Trusted: it returns whether the field admits nulls.
#[verifier::external_body]
pub(crate) fn is_nullable(field: &Field) -> (nullable: bool)
    ensures
        nullable == field_nullable(*field),
{
    field.is_nullable()
}

/// Calls `Field::metadata` and lists its entries. Trusted: in whatever order the entries
/// come, together they are the field's metadata, and none is listed twice.
#[verifier::external_body]
pub(crate) fn metadata_of(field: &Field) -> (entries: Vec<(String, String)>)
    ensures
        map_of(entries@) == field_metadata(*field),
        distinct_keys(entries@),
{
    field.metadata().iter().map(|(key, value)| (key.clone(), value.clone())).collect()
}

/// The field that `Field::new` makes.
pub uninterp spec fn new_field(name: Seq<char>, data_type: DataType, nullable: bool) -> Field;

/// Calls `Field::new`. Trusted: the field has the given name, type and nullability, and no
/// metadata.
#[verifier::external_body]
pub(crate) fn make_field(name: &str, data_type: DataType, nullable: bool) -> (field: Field)
    ensures
        field == new_field(name@, data_type, nullable),
        field_name(field) == name@,
        field_type(field) == data_type,
        field_nullable(field) == nullable,
        field_metadata(field).dom() == Set::<Seq<char>>::empty(),
{
    Field::new(name, data_type, nullable)
}

/// The field that `Field::with_metadata` makes.
pub uninterp spec fn field_with_metadata(
    field: Field,
    metadata: Map<Seq<char>, Seq<char>>,
) -> Field;

/// Calls `Field::with_metadata`. Trusted: the result has the given metadata, and is
/// otherwise as the field was.
#[verifier::external_body]
pub(crate) fn with_metadata(field: Field, entries: Vec<(String, String)>) -> (changed: Field)
    requires
        distinct_keys(entries@),
    ensures
        changed == field_with_metadata(field, map_of(entries@)),
        field_name(changed) == field_name(field),
        field_type(changed) == field_type(field),
        field_nullable(changed) == field_nullable(field),
        field_metadata(changed) == map_of(entries@),
{
    field.with_metadata(entries.into_iter().collect())
}

// ---------------------------------------------------------------------------
// Schemas and batches
// ---------------------------------------------------------------------------

/// The fields of a schema, in order.
pub uninterp spec fn schema_fields(schema: Schema) -> Seq<Field>;

/// The fields that shared references point to.
pub open spec fn targets(fields: Seq<Arc<Field>>) -> Seq<Field> {
    fields.map_values(|field: Arc<Field>| *field)
}

/// The metadata of a schema.
pub uninterp spec fn schema_metadata(schema: Schema) -> Map<Seq<char>, Seq<char>>;

/// Calls `Schema::fields`. Trusted: it returns the schema's fields in order.
#[verifier::external_body]
pub(crate) fn fields_of(schema: &Schema) -> (fields: Vec<Arc<Field>>)
    ensures
        targets(fields@) == schema_fields(*schema),
{
    schema.fields().to_vec()
}

/// The schema that `Schema::new_with_metadata` makes.
pub uninterp spec fn new_schema(
    fields: Seq<Field>,
    metadata: Map<Seq<char>, Seq<char>>,
) -> Schema;

/// Calls `Schema::new_with_metadata` with new fields and the metadata of `schema`.
/// Trusted: the result has exactly these fields and this metadata.
#[verifier::external_body]
pub(crate) fn with_fields(schema: &Schema, fields: Vec<Arc<Field>>) -> (changed: Schema)
    ensures
        changed == new_schema(targets(fields@), schema_metadata(*schema)),
        schema_fields(changed) == targets(fields@),
        schema_metadata(changed) == schema_metadata(*schema),
{
    Schema::new_with_metadata(fields, schema.metadata().clone())
}

/// The schema of a batch.
pub uninterp spec fn batch_schema(batch: RecordBatch) -> Schema;

/// The columns of a batch, in order.
pub uninterp spec fn batch_columns(batch: RecordBatch) -> Seq<Column>;

/// Calls `RecordBatch::schema`. Trusted: it returns the batch's schema, which has one
/// field for each column.
#[verifier::external_body]
pub(crate) fn schema_of(batch: &RecordBatch) -> (schema: Arc<Schema>)
    ensures
        *schema == batch_schema(*batch),
        schema_fields(*schema).len() == batch_columns(*batch).len(),
{
    batch.0.schema()
}

/// Calls `RecordBatch::column`, which panics out of bounds. Trusted: it returns the column
/// at that index.
#[verifier::external_body]
pub(crate) fn column_at(batch: &RecordBatch, index: usize) -> (column: Column)
    requires
        index < batch_columns(*batch).len(),
    ensures
        column == batch_columns(*batch)[index as int],
{
    Column { array: batch.0.column(index).clone() }
}

/// Whether the column at an index goes with its field: it has the field's type, is as long
/// as the first column, and holds no null that the field does not admit.
pub open spec fn column_fits(schema: Schema, columns: Seq<Column>, i: int) -> bool {
    let field = schema_fields(schema)[i];
    let validity = column_validity(columns[i]);
    &&& column_type(columns[i]) == field_type(field)
    &&& validity.len() == column_validity(columns[0]).len()
    &&& field_nullable(field) || !validity.contains(false)
}

/// Whether columns may form a batch under a schema: there is at least one, and each has a
/// field and goes with it.
pub open spec fn columns_fit(schema: Schema, columns: Seq<Column>) -> bool {
    &&& columns.len() > 0
    &&& schema_fields(schema).len() == columns.len()
    &&& forall|i: int| 0 <= i < columns.len() ==> #[trigger] column_fits(schema, columns, i)
}

/// What `RecordBatch::try_new` makes of a schema and columns.
pub uninterp spec fn new_batch(schema: Schema, columns: Seq<Column>) -> Result<
    RecordBatch,
    ArrowError,
>;

/// Calls `RecordBatch::try_new`. Trusted: it succeeds exactly where the columns fit the
/// schema, and then the batch has this schema and these columns; the error is determined
/// by the arguments.
#[verifier::external_body]
pub(crate) fn make_batch(schema: Arc<Schema>, columns: Vec<Column>) -> (made: Result<
    RecordBatch,
    ArrowError,
>)
    ensures
        made == new_batch(*schema, columns@),
        made is Ok <==> columns_fit(*schema, columns@),
        made matches Ok(batch) ==> batch_schema(batch) == *schema && batch_columns(batch)
            == columns@,
{
    let arrays = columns.into_iter().map(|column| column.array).collect();
    arrow_array::RecordBatch::try_new(schema, arrays).map(RecordBatch)
}

// ---------------------------------------------------------------------------
// Columns
// ---------------------------------------------------------------------------

/// The data type of a column.
pub uninterp spec fn column_type(column: Column) -> DataType;

/// For each row of a column, whether it is valid, that is, not null by the column's own null
/// buffer.
pub uninterp spec fn column_validity(column: Column) -> Seq<bool>;

/// Calls `Array::data_type` and tells whether it is `DataType::Struct`. Trusted: it is
/// exactly where the column's type is a struct type.
#[verifier::external_body]
pub(crate) fn is_struct(column: &Column) -> (found: bool)
    ensures
        found == is_struct_type(column_type(*column)),
{
    matches!(column.array.data_type(), DataType::Struct(_))
}

/// The column as an array of structs, where it is one.
pub uninterp spec fn as_struct(column: Column) -> Option<StructColumn>;

/// For each row of an array of structs, whether the struct itself is not null.
pub uninterp spec fn struct_validity(structs: StructColumn) -> Seq<bool>;

/// The child column with the given name, where there is one; the first of several.
pub uninterp spec fn struct_child(structs: StructColumn, name: Seq<char>) -> Option<Column>;

/// Downcasts through `Array::as_any` to `StructArray`. Trusted: the outcome is determined
/// by the column, and a struct array has the column's own validity.
#[verifier::external_body]
pub(crate) fn downcast_struct(column: &Column) -> (structs: Option<StructColumn>)
    ensures
        structs == as_struct(*column),
        structs matches Some(array) ==> struct_validity(array) == column_validity(*column),
{
    match column.array.as_any().downcast_ref::<StructArray>() {
        Some(array) => Some(StructColumn { array: array.clone() }),
        None => None,
    }
}

/// Calls `StructArray::len`. Trusted: it returns the number of rows.
#[verifier::external_body]
pub(crate) fn struct_len(structs: &StructColumn) -> (len: usize)
    ensures
        len == struct_validity(*structs).len(),
{
    structs.array.len()
}

/// Calls `StructArray::is_null`, which panics out of bounds. Trusted: it tells whether the
/// struct in that row is null.
#[verifier::external_body]
pub(crate) fn struct_is_null(structs: &StructColumn, row: usize) -> (null: bool)
    requires
        row < struct_validity(*structs).len(),
    ensures
        null == !struct_validity(*structs)[row as int],
{
    structs.array.is_null(row)
}

/// Calls `StructArray::column_by_name`. Trusted: it returns the first child with that name,
/// and a child has as many rows as the array.
#[verifier::external_body]
pub(crate) fn child_by_name(structs: &StructColumn, name: &str) -> (child: Option<Column>)
    ensures
        child == struct_child(*structs, name@),
        child matches Some(column) ==> column_validity(column).len() == struct_validity(
            *structs,
        ).len(),
{
    match structs.array.column_by_name(name) {
        Some(array) => Some(Column { array: array.clone() }),
        None => None,
    }
}

/// The column as 64-bit integers, where it holds those.
pub uninterp spec fn as_int64(column: Column) -> Option<Int64Column>;

/// The rows of a column of 64-bit integers; `None` for a null.
pub uninterp spec fn int64_values(integers: Int64Column) -> Seq<Option<i64>>;

/// Downcasts through `Array::as_any` to `Int64Array`. Trusted: the outcome is determined by
/// the column, and the array has the column's length.
#[verifier::external_body]
pub(crate) fn downcast_int64(column: &Column) -> (integers: Option<Int64Column>)
    ensures
        integers == as_int64(*column),
        integers matches Some(array) ==> int64_values(array).len() == column_validity(
            *column,
        ).len(),
{
    match column.array.as_any().downcast_ref::<Int64Array>() {
        Some(array) => Some(Int64Column { array: array.clone() }),
        None => None,
    }
}

/// Calls `Int64Array::is_null`, which panics out of bounds. Trusted: it tells whether that
/// row is null.
#[verifier::external_body]
pub(crate) fn int64_is_null(integers: &Int64Column, row: usize) -> (null: bool)
    requires
        row < int64_values(*integers).len(),
    ensures
        null == (int64_values(*integers)[row as int] is None),
{
    integers.array.is_null(row)
}

/// Calls `Int64Array::value`, which panics out of bounds. Trusted: it returns the value of a
/// row that is not null.
#[verifier::external_body]
pub(crate) fn int64_value(integers: &Int64Column, row: usize) -> (value: i64)
    requires
        row < int64_values(*integers).len(),
        int64_values(*integers)[row as int] is Some,
    ensures
        int64_values(*integers)[row as int] == Some(value),
{
    integers.array.value(row)
}

/// The column as 32-bit integers, where it holds those.
pub uninterp spec fn as_int32(column: Column) -> Option<Int32Column>;

/// The rows of a column of 32-bit integers; `None` for a null.
pub uninterp spec fn int32_values(integers: Int32Column) -> Seq<Option<i32>>;

/// Downcasts through `Array::as_any` to `Int32Array`. Trusted: the outcome is determined by
/// the column, and the array has the column's length.
#[verifier::external_body]
pub(crate) fn downcast_int32(column: &Column) -> (integers: Option<Int32Column>)
    ensures
        integers == as_int32(*column),
        integers matches Some(array) ==> int32_values(array).len() == column_validity(
            *column,
        ).len(),
{
    match column.array.as_any().downcast_ref::<Int32Array>() {
        Some(array) => Some(Int32Column { array: array.clone() }),
        None => None,
    }
}

/// Calls `Int32Array::is_null`, which panics out of bounds. Trusted: it tells whether that
/// row is null.
#[verifier::external_body]
pub(crate) fn int32_is_null(integers: &Int32Column, row: usize) -> (null: bool)
    requires
        row < int32_values(*integers).len(),
    ensures
        null == (int32_values(*integers)[row as int] is None),
{
    integers.array.is_null(row)
}

/// Calls `Int32Array::value`, which panics out of bounds. Trusted: it returns the value of a
/// row that is not null.
#[verifier::external_body]
pub(crate) fn int32_value(integers: &Int32Column, row: usize) -> (value: i32)
    requires
        row < int32_values(*integers).len(),
        int32_values(*integers)[row as int] is Some,
    ensures
        int32_values(*integers)[row as int] == Some(value),
{
    integers.array.value(row)
}

// ---------------------------------------------------------------------------
// Building a timestamp column
// ---------------------------------------------------------------------------

/// The rows that a builder holds so far; `None` for a null.
pub uninterp spec fn builder_values(builder: TimestampBuilder) -> Seq<Option<i64>>;

/// The column of microsecond timestamps, without a time zone, that holds the given rows.
pub uninterp spec fn timestamp_column(values: Seq<Option<i64>>) -> Column;

/// The rows of a column of microsecond timestamps; `None` for a null.
pub uninterp spec fn timestamp_values(column: Column) -> Seq<Option<i64>>;

/// Calls `TimestampMicrosecondArray::builder`. Trusted: the builder holds no rows.
#[verifier::external_body]
pub(crate) fn make_builder(capacity: usize) -> (builder: TimestampBuilder)
    ensures
        builder_values(builder) == Seq::<Option<i64>>::empty(),
{
    TimestampBuilder { builder: TimestampMicrosecondArray::builder(capacity) }
}

/// Calls `PrimitiveBuilder::append_null`. Trusted: it adds one null row.
#[verifier::external_body]
pub(crate) fn append_null(builder: &mut TimestampBuilder)
    ensures
        builder_values(*final(builder)) == builder_values(*old(builder)).push(None),
{
    builder.builder.append_null()
}

/// Calls `PrimitiveBuilder::append_value`. Trusted: it adds one row with that value.
#[verifier::external_body]
pub(crate) fn append_value(builder: &mut TimestampBuilder, value: i64)
    ensures
        builder_values(*final(builder)) == builder_values(*old(builder)).push(Some(value)),
{
    builder.builder.append_value(value)
}

/// Calls `PrimitiveBuilder::finish`. Trusted: the column holds the rows of the builder, is
/// of the zoneless microsecond timestamp type, and the builder is left empty.
#[verifier::external_body]
pub(crate) fn finish(builder: &mut TimestampBuilder) -> (column: Column)
    ensures
        column == timestamp_column(builder_values(*old(builder))),
        timestamp_values(column) == builder_values(*old(builder)),
        column_type(column) == timestamp_type(TimeUnit::Microsecond, None),
        column_validity(column) == builder_values(*old(builder)).map_values(
            |row: Option<i64>| row is Some,
        ),
        builder_values(*final(builder)) == Seq::<Option<i64>>::empty(),
{
    Column { array: Arc::new(builder.builder.finish()) }
}

// ---------------------------------------------------------------------------
// Byte strings and IPC streams
// ---------------------------------------------------------------------------

/// The bytes that a `Bytes` holds.
pub uninterp spec fn bytes_of(bytes: Bytes) -> Seq<u8>;

/// Calls `Bytes::from`. Trusted: the result holds the bytes of the vector.
#[verifier::external_body]
pub(crate) fn make_bytes(content: Vec<u8>) -> (bytes: Bytes)
    ensures
        bytes_of(bytes) == content@,
{
    Bytes::from(content)
}

/// Calls `Bytes::clone`. Trusted: the copy holds the same bytes.
#[verifier::external_body]
pub(crate) fn copy_bytes(bytes: &Bytes) -> (copy: Bytes)
    ensures
        bytes_of(copy) == bytes_of(*bytes),
{
    bytes.clone()
}

/// What a reader of an IPC stream does next.
pub enum Step {
    /// It hands out a batch.
    Batch(RecordBatch),
    /// It hands out an error.
    Error,
    /// It cannot be asked: it panics, or what it does depends on the machine or the build.
    Unreadable,
}

/// What opening a byte string as an IPC stream gives.
pub enum Opening {
    /// A reader, and what it does, step by step, up to its end or its first error.
    Stream(Seq<Step>),
    /// An error.
    Error(ArrowError),
    /// It cannot be tried: it panics, or what it does depends on the machine or the build.
    Unreadable,
}

/// What reading a byte string as an IPC stream gives.
pub uninterp spec fn ipc_stream(bytes: Seq<u8>) -> Opening;

/// What a stream reader has still to hand out, up to its end or its first error; `None` where
/// it cannot be asked.
pub uninterp spec fn stream_rest(reader: StreamReader<Reader<Bytes>>) -> Seq<
    Option<Result<RecordBatch, ArrowError>>,
>;

/// The step in which a reader hands something out.
pub open spec fn step_of(item: Option<Result<RecordBatch, ArrowError>>) -> Step {
    match item {
        Some(Ok(batch)) => Step::Batch(batch),
        Some(Err(_)) => Step::Error,
        None => Step::Unreadable,
    }
}

/// The steps in which a reader hands things out.
pub open spec fn steps_of(items: Seq<Option<Result<RecordBatch, ArrowError>>>) -> Seq<Step> {
    items.map_values(|item: Option<Result<RecordBatch, ArrowError>>| step_of(item))
}

/// Calls `StreamReader::try_new` on `Buf::reader`, without a projection. Trusted: the outcome
/// is determined by the bytes, and so are the batches that the reader will hand out and
/// whether and where it fails.
///
/// It panics on some byte strings: a schema message without its list of fields, or with a type
/// that arrow-ipc does not know. Those are left out.
#[verifier::external_body]
pub(crate) fn open_stream(bytes: Bytes) -> (opened: Result<
    StreamReader<Reader<Bytes>>,
    ArrowError,
>)
    requires
        ipc_stream(bytes_of(bytes)) !is Unreadable,
    ensures
        match opened {
            Ok(reader) => ipc_stream(bytes_of(bytes)) == Opening::Stream(
                steps_of(stream_rest(reader)),
            ),
            Err(error) => ipc_stream(bytes_of(bytes)) == Opening::Error(error),
        },
{
    StreamReader::try_new(bytes.reader(), None)
}

/// Calls `StreamReader::next`. Trusted: it hands out what comes next, and `None` once the
/// stream has ended.
///
/// An error is that of this reader: the text of some errors lists the metadata of a field in
/// the order of its hash map, so that it can differ from one reading of the same bytes to
/// another. Nothing is claimed of a reader that has handed out an error.
///
/// It panics on some messages, such as one that places a buffer outside its body. Those are
/// left out.
#[verifier::external_body]
pub(crate) fn next_batch(reader: &mut StreamReader<Reader<Bytes>>) -> (item: Option<
    Result<RecordBatch, ArrowError>,
>)
    requires
        stream_rest(*old(reader)).len() > 0 ==> stream_rest(*old(reader))[0] is Some,
    ensures
        stream_rest(*old(reader)).len() == 0 ==> item is None,
        stream_rest(*old(reader)).len() > 0 ==> item == stream_rest(*old(reader))[0],
        item matches Some(Ok(_)) ==> stream_rest(*final(reader)) == stream_rest(
            *old(reader),
        ).drop_first(),
{
    match reader.next() {
        Some(item) => Some(item.map(RecordBatch)),
        None => None,
    }
}

} // verus!
