//! Flattening of whole record batches, at the boundary where they are decoded.

use std::sync::Arc;

use arrow_schema::{ArrowError, Field, Schema};
use vstd::prelude::*;

use crate::arrow::{Column, Int64Column, RecordBatch, StructColumn, TimeUnit};
use crate::{arrow, ntz, text};

verus! {

/// The field of a batch at an index.
pub open spec fn field_at(batch: RecordBatch, i: int) -> Field {
    arrow::schema_fields(arrow::batch_schema(batch))[i]
}

/// The column of a batch at an index.
pub open spec fn column_at(batch: RecordBatch, i: int) -> Column {
    arrow::batch_columns(batch)[i]
}

/// The number of columns of a batch.
pub open spec fn width(batch: RecordBatch) -> int {
    arrow::batch_columns(batch).len() as int
}

/// Whether the column at an index is marked as `TIMESTAMP_NTZ`.
pub open spec fn marked_at(batch: RecordBatch, i: int) -> bool {
    ntz::is_ntz(field_at(batch, i), column_at(batch, i))
}

/// Whether some column of a batch is marked as `TIMESTAMP_NTZ`.
pub open spec fn has_marked(batch: RecordBatch) -> bool {
    exists|i: int| 0 <= i < width(batch) && #[trigger] marked_at(batch, i)
}

/// What becomes of the field and column at an index: a marked column is flattened, any
/// other stays as it is.
pub open spec fn flat_at(batch: RecordBatch, i: int) -> Result<(Field, Column), ArrowError> {
    if marked_at(batch, i) {
        ntz::flat_column(field_at(batch, i), column_at(batch, i))
    } else {
        Ok((field_at(batch, i), column_at(batch, i)))
    }
}

/// Whether the columns before an index all flatten.
pub open spec fn flat_before(batch: RecordBatch, end: int) -> bool {
    forall|i: int| 0 <= i < end ==> #[trigger] flat_at(batch, i) is Ok
}

/// Whether the column at an index is the first that does not flatten.
pub open spec fn first_failure(batch: RecordBatch, i: int) -> bool {
    0 <= i < width(batch) && flat_at(batch, i) is Err && flat_before(batch, i)
}

/// Whether the scale of every marked column that is reached can be computed with.
pub open spec fn scales_supported(batch: RecordBatch) -> bool {
    forall|i: int|
        0 <= i < width(batch) && #[trigger] marked_at(batch, i) && flat_before(batch, i)
            ==> ntz::scale_supported(field_at(batch, i), column_at(batch, i))
}

/// The fields of a flattened batch.
pub open spec fn flat_fields(batch: RecordBatch) -> Seq<Field> {
    Seq::new(width(batch) as nat, |i: int| flat_at(batch, i)->Ok_0.0)
}

/// The columns of a flattened batch.
pub open spec fn flat_columns(batch: RecordBatch) -> Seq<Column> {
    Seq::new(width(batch) as nat, |i: int| flat_at(batch, i)->Ok_0.1)
}

/// What flattening a batch gives: the batch itself where no column is marked, the error of
/// the first column that does not flatten, or a batch of the flattened columns under the
/// metadata of the old schema.
pub open spec fn flat_batch(batch: RecordBatch) -> Result<RecordBatch, ArrowError> {
    if !has_marked(batch) {
        Ok(batch)
    } else if !flat_before(batch, width(batch)) {
        let i = choose|i: int| first_failure(batch, i);
        Err(flat_at(batch, i)->Err_0)
    } else {
        arrow::new_batch(
            arrow::new_schema(
                flat_fields(batch),
                arrow::schema_metadata(arrow::batch_schema(batch)),
            ),
            flat_columns(batch),
        )
    }
}

/// Whether the fields and columns of `flat` are those that flattening makes of `batch`.
pub open spec fn has_flat_parts(batch: RecordBatch, flat: RecordBatch) -> bool {
    &&& arrow::schema_fields(arrow::batch_schema(flat)) == flat_fields(batch)
    &&& arrow::batch_columns(flat) == flat_columns(batch)
}

/// Whether `flat` is a flattening of `batch`: under the same schema metadata it has, for
/// each marked column, the flattened column, and every other column unchanged.
pub open spec fn flattening_of(batch: RecordBatch, flat: RecordBatch) -> bool {
    &&& arrow::schema_fields(arrow::batch_schema(batch)).len() == width(batch)
    &&& arrow::schema_fields(arrow::batch_schema(flat)).len() == width(flat)
    &&& width(flat) == width(batch)
    &&& arrow::schema_metadata(arrow::batch_schema(flat)) == arrow::schema_metadata(
        arrow::batch_schema(batch),
    )
    &&& forall|i: int|
        0 <= i < width(batch) ==> if #[trigger] marked_at(batch, i) {
            ntz::flattened(
                field_at(batch, i),
                column_at(batch, i),
                field_at(flat, i),
                column_at(flat, i),
            )
        } else {
            field_at(flat, i) == field_at(batch, i) && column_at(flat, i) == column_at(batch, i)
        }
}

/// Whether every row of a marked column holds a timestamp.
pub open spec fn all_present(field: Field, column: Column) -> bool {
    let rows = ntz::ntz_rows(arrow::field_name(field), column)->Ok_0;
    forall|row: int| 0 <= row < rows.valid.len() ==> #[trigger] rows.present(row)
}

/// Whether the column at an index, once flattened, still goes with its field: it is as long
/// as the first, one that stays has the type of its field, and a field that admits no nulls
/// gets none, which of a marked column means that every row holds a timestamp.
pub open spec fn rebuilds_at(batch: RecordBatch, i: int) -> bool {
    let field = field_at(batch, i);
    let column = column_at(batch, i);
    let validity = arrow::column_validity(column);
    &&& validity.len() == arrow::column_validity(column_at(batch, 0)).len()
    &&& if marked_at(batch, i) {
        arrow::field_nullable(field) || all_present(field, column)
    } else {
        &&& arrow::column_type(column) == arrow::field_type(field)
        &&& arrow::field_nullable(field) || !validity.contains(false)
    }
}

/// Whether the flattened columns of a batch form a batch again.
pub open spec fn rebuilds(batch: RecordBatch) -> bool {
    forall|i: int| 0 <= i < width(batch) ==> #[trigger] rebuilds_at(batch, i)
}

/// Flattens the marked columns of a batch; `None` where the scale of one cannot be computed
/// with.
pub fn try_flatten_snowflake_types(batch: RecordBatch) -> (outcome: Option<
    Result<RecordBatch, ArrowError>,
>)
    ensures
        outcome is Some <==> scales_supported(batch),
        outcome matches Some(flat) ==> flat == flat_batch(batch),
        outcome matches Some(flat) ==> (flat is Ok <==> !has_marked(batch) || flat_before(
            batch,
            width(batch),
        ) && rebuilds(batch)),
        outcome matches Some(Ok(flat)) ==> flattening_of(batch, flat),
        outcome matches Some(Ok(flat)) ==> has_flat_parts(batch, flat),
{
    let schema = arrow::schema_of(&batch);
    let fields = arrow::fields_of(&schema);
    let mut new_fields: Vec<Arc<Field>> = Vec::with_capacity(fields.len());
    let mut new_columns: Vec<Column> = Vec::with_capacity(fields.len());
    let mut changed = false;
    let mut i: usize = 0;
    while i < fields.len()
        invariant
            i <= fields.len(),
            fields.len() == width(batch),
            *schema == arrow::batch_schema(batch),
            arrow::targets(fields@) == arrow::schema_fields(*schema),
            changed == exists|j: int| 0 <= j < i && #[trigger] marked_at(batch, j),
            flat_before(batch, i as int),
            forall|j: int|
                0 <= j < i && #[trigger] marked_at(batch, j) ==> ntz::scale_supported(
                    field_at(batch, j),
                    column_at(batch, j),
                ),
            new_fields.len() == i,
            new_columns.len() == i,
            forall|j: int|
                0 <= j < i ==> *#[trigger] new_fields[j] == flat_at(batch, j)->Ok_0.0,
            forall|j: int|
                0 <= j < i ==> #[trigger] new_columns[j] == flat_at(batch, j)->Ok_0.1,
            forall|j: int|
                0 <= j < i && #[trigger] marked_at(batch, j) ==> ntz::flattened(
                    field_at(batch, j),
                    column_at(batch, j),
                    *new_fields[j],
                    new_columns[j],
                ),
        decreases fields.len() - i,
    {
        let column = arrow::column_at(&batch, i);
        proof {
            assert(arrow::targets(fields@)[i as int] == *fields[i as int]);
            assert(field_at(batch, i as int) == *fields[i as int]);
            assert(column_at(batch, i as int) == column);
        }
        if ntz::is_snowflake_timestamp_ntz_struct(&fields[i], &column) {
            assert(marked_at(batch, i as int));
            if !ntz::is_scale_supported(&fields[i], &column) {
                return None;
            }
            match ntz::flatten_timestamp_ntz_column(&fields[i], &column) {
                Ok((new_field, new_column)) => {
                    new_fields.push(Arc::new(new_field));
                    new_columns.push(new_column);
                },
                Err(error) => {
                    proof {
                        lemma_first_failure(batch, i as int);
                    }
                    return Some(Err(error));
                },
            }
            changed = true;
        } else {
            new_fields.push(fields[i].clone());
            new_columns.push(column);
        }
        i = i + 1;
    }
    if !changed {
        proof {
            assert(arrow::schema_fields(*schema) =~= flat_fields(batch));
            assert(arrow::batch_columns(batch) =~= flat_columns(batch));
        }
        return Some(Ok(batch));
    }
    proof {
        assert(arrow::targets(new_fields@) =~= flat_fields(batch));
        assert(new_columns@ =~= flat_columns(batch));
    }
    let new_schema = arrow::with_fields(&schema, new_fields);
    proof {
        lemma_columns_fit(batch, new_schema, new_columns@);
    }
    Some(arrow::make_batch(Arc::new(new_schema), new_columns))
}

/// The validity of a flattened column is without a gap exactly where every row holds a
/// timestamp.
proof fn lemma_no_gaps(field: Field, column: Column, flat_field: Field, flat_column: Column)
    requires
        ntz::flattened(field, column, flat_field, flat_column),
    ensures
        all_present(field, column) <==> !arrow::column_validity(flat_column).contains(false),
{
    let rows = ntz::ntz_rows(arrow::field_name(field), column)->Ok_0;
    let scale = ntz::scale_of(arrow::field_metadata(field));
    let validity = arrow::column_validity(flat_column);
    assert forall|row: int| 0 <= row < rows.valid.len() implies (#[trigger] rows.present(row)
        == validity[row]) by {
        assert(rows.fits(scale, row));
        assert(rows.values(scale)[row] == rows.value(scale, row));
    }
    if validity.contains(false) {
        let row = choose|row: int| 0 <= row < validity.len() && validity[row] == false;
        assert(!rows.present(row));
    }
    if !all_present(field, column) {
        let row = choose|row: int|
            0 <= row < rows.valid.len() && !#[trigger] rows.present(row);
        assert(validity[row] == false);
    }
}

/// The flattened columns fit their schema exactly where the batch rebuilds.
proof fn lemma_columns_fit(batch: RecordBatch, schema: Schema, columns: Seq<Column>)
    requires
        has_marked(batch),
        columns.len() == width(batch),
        arrow::schema_fields(schema).len() == width(batch),
        forall|i: int|
            0 <= i < width(batch) ==> if #[trigger] marked_at(batch, i) {
                ntz::flattened(
                    field_at(batch, i),
                    column_at(batch, i),
                    arrow::schema_fields(schema)[i],
                    columns[i],
                )
            } else {
                arrow::schema_fields(schema)[i] == field_at(batch, i) && columns[i] == column_at(
                    batch,
                    i,
                )
            },
    ensures
        arrow::columns_fit(schema, columns) <==> rebuilds(batch),
{
    assert forall|i: int| 0 <= i < width(batch) implies (#[trigger] arrow::column_fits(
        schema,
        columns,
        i,
    ) == rebuilds_at(batch, i)) by {
        if marked_at(batch, 0) {
        }
        if marked_at(batch, i) {
            lemma_no_gaps(
                field_at(batch, i),
                column_at(batch, i),
                arrow::schema_fields(schema)[i],
                columns[i],
            );
        }
    }
    if arrow::columns_fit(schema, columns) {
        assert forall|i: int| 0 <= i < width(batch) implies #[trigger] rebuilds_at(batch, i) by {
            assert(arrow::column_fits(schema, columns, i));
        }
    }
    if rebuilds(batch) {
        assert forall|i: int| 0 <= i < width(batch) implies #[trigger] arrow::column_fits(
            schema,
            columns,
            i,
        ) by {
            assert(rebuilds_at(batch, i));
        }
    }
}

proof fn lemma_first_failure(batch: RecordBatch, i: int)
    requires
        first_failure(batch, i),
        marked_at(batch, i),
        forall|j: int|
            0 <= j <= i && #[trigger] marked_at(batch, j) ==> ntz::scale_supported(
                field_at(batch, j),
                column_at(batch, j),
            ),
    ensures
        scales_supported(batch),
        flat_batch(batch) == Err::<RecordBatch, ArrowError>(flat_at(batch, i)->Err_0),
{
    assert forall|j: int|
        0 <= j < width(batch) && #[trigger] marked_at(batch, j) && flat_before(
            batch,
            j,
        ) implies ntz::scale_supported(field_at(batch, j), column_at(batch, j)) by {
        if i < j {
            assert(flat_at(batch, i) is Ok);
        }
    }
    let first = choose|k: int| first_failure(batch, k);
    assert(first_failure(batch, first));
    if first < i {
        assert(flat_at(batch, first) is Ok);
    }
    if i < first {
        assert(flat_at(batch, i) is Ok);
    }
}

/// Flattens the marked columns of a batch.
pub fn flatten_snowflake_types(batch: RecordBatch) -> (flat: Result<RecordBatch, ArrowError>)
    requires
        scales_supported(batch),
    ensures
        flat == flat_batch(batch),
        flat is Ok <==> !has_marked(batch) || flat_before(batch, width(batch)) && rebuilds(batch),
        flat matches Ok(flat) ==> flattening_of(batch, flat),
        flat matches Ok(flat) ==> has_flat_parts(batch, flat),
{
    try_flatten_snowflake_types(batch).unwrap()
}

// ---------------------------------------------------------------------------
// Laws
// ---------------------------------------------------------------------------

/// A batch without a marked column passes through unchanged.
pub proof fn law_unmarked_batch_passes_through(batch: RecordBatch)
    requires
        !has_marked(batch),
    ensures
        scales_supported(batch),
        flat_batch(batch) == Ok::<RecordBatch, ArrowError>(batch),
{
}

/// No column of a flattened batch is marked.
pub proof fn law_flat_batch_is_unmarked(batch: RecordBatch, flat: RecordBatch)
    requires
        flattening_of(batch, flat),
    ensures
        !has_marked(flat),
{
    assert forall|i: int| 0 <= i < width(flat) implies !#[trigger] marked_at(flat, i) by {
        if marked_at(batch, i) {
            ntz::law_flattened_is_unmarked(
                field_at(batch, i),
                column_at(batch, i),
                field_at(flat, i),
                column_at(flat, i),
            );
        }
    }
}

/// Flattening a flattened batch changes nothing.
pub proof fn law_flattening_is_idempotent(batch: RecordBatch, flat: RecordBatch)
    requires
        flattening_of(batch, flat),
    ensures
        scales_supported(flat),
        flat_batch(flat) == Ok::<RecordBatch, ArrowError>(flat),
{
    law_flat_batch_is_unmarked(batch, flat);
}

/// Flattening keeps the number of columns, their names, nullability and lengths, and the
/// metadata of the schema.
pub proof fn law_shape_is_kept(batch: RecordBatch, flat: RecordBatch, i: int)
    requires
        flattening_of(batch, flat),
        0 <= i < width(batch),
    ensures
        width(flat) == width(batch),
        arrow::field_name(field_at(flat, i)) == arrow::field_name(field_at(batch, i)),
        arrow::field_nullable(field_at(flat, i)) == arrow::field_nullable(field_at(batch, i)),
        arrow::column_validity(column_at(flat, i)).len() == arrow::column_validity(
            column_at(batch, i),
        ).len(),
        arrow::schema_metadata(arrow::batch_schema(flat)) == arrow::schema_metadata(
            arrow::batch_schema(batch),
        ),
{
    if marked_at(batch, i) {
    }
}

/// A batch whose columns fit its schema can always be put together again, unless a marked
/// field that admits no nulls has a row without a timestamp.
pub proof fn law_fitting_batch_rebuilds(batch: RecordBatch)
    requires
        arrow::columns_fit(arrow::batch_schema(batch), arrow::batch_columns(batch)),
        forall|i: int|
            0 <= i < width(batch) && #[trigger] marked_at(batch, i) ==> arrow::field_nullable(
                field_at(batch, i),
            ) || all_present(field_at(batch, i), column_at(batch, i)),
    ensures
        rebuilds(batch),
{
    assert forall|i: int| 0 <= i < width(batch) implies #[trigger] rebuilds_at(batch, i) by {
        assert(arrow::column_fits(arrow::batch_schema(batch), arrow::batch_columns(batch), i));
    }
}

/// Fields and columns are counted through from zero, as they stand in the batch.
pub proof fn law_fields_and_columns_are_those_of_the_batch(batch: RecordBatch, i: int)
    ensures
        field_at(batch, i) == arrow::schema_fields(arrow::batch_schema(batch))[i],
        column_at(batch, i) == arrow::batch_columns(batch)[i],
        width(batch) == arrow::batch_columns(batch).len(),
{
}

/// A column stays as it is, under the same field, unless it is a struct whose field names the
/// logical type `TIMESTAMP_NTZ`: one that names another, or none, is left alone.
pub proof fn law_other_columns_stay(batch: RecordBatch, flat: RecordBatch, i: int)
    requires
        flattening_of(batch, flat),
        0 <= i < arrow::batch_columns(batch).len(),
        !arrow::field_metadata(field_at(batch, i)).contains_key("logicalType"@)
            || arrow::field_metadata(field_at(batch, i))["logicalType"@]
            != "TIMESTAMP_NTZ"@ || !arrow::is_struct_type(
            arrow::column_type(column_at(batch, i)),
        ),
    ensures
        field_at(flat, i) == field_at(batch, i),
        column_at(flat, i) == column_at(batch, i),
{
    assert(!marked_at(batch, i));
}

/// No column is added or lost, and the metadata of the schema is kept.
pub proof fn law_no_column_is_added_or_lost(batch: RecordBatch, flat: RecordBatch)
    requires
        flattening_of(batch, flat),
    ensures
        arrow::batch_columns(flat).len() == arrow::batch_columns(batch).len(),
        arrow::schema_fields(arrow::batch_schema(flat)).len() == arrow::schema_fields(
            arrow::batch_schema(batch),
        ).len(),
        arrow::schema_metadata(arrow::batch_schema(flat)) == arrow::schema_metadata(
            arrow::batch_schema(batch),
        ),
{
}

/// A struct column whose field names the logical type `TIMESTAMP_NTZ` gets a timestamp field of
/// the same name and nullability, with every other entry of its metadata.
pub proof fn law_marked_fields_become_timestamp_fields(
    batch: RecordBatch,
    flat: RecordBatch,
    i: int,
    key: Seq<char>,
)
    requires
        flattening_of(batch, flat),
        0 <= i < arrow::batch_columns(batch).len(),
        arrow::is_struct_type(arrow::column_type(column_at(batch, i))),
        arrow::field_metadata(field_at(batch, i)).contains_pair(
            "logicalType"@,
            "TIMESTAMP_NTZ"@,
        ),
    ensures
        arrow::field_name(field_at(flat, i)) == arrow::field_name(field_at(batch, i)),
        arrow::field_nullable(field_at(flat, i))
            == arrow::field_nullable(field_at(batch, i)),
        arrow::field_type(field_at(flat, i))
            == arrow::timestamp_type(TimeUnit::Microsecond, None),
        arrow::column_type(column_at(flat, i)) == arrow::timestamp_type(
            TimeUnit::Microsecond,
            None,
        ),
        arrow::field_metadata(field_at(flat, i)).contains_key(key)
            <==> arrow::field_metadata(field_at(batch, i)).contains_key(key)
            && key != "logicalType"@ && key != "scale"@,
        arrow::field_metadata(field_at(flat, i)).contains_key(key)
            ==> arrow::field_metadata(field_at(flat, i))[key]
            == arrow::field_metadata(field_at(batch, i))[key],
{
    assert(marked_at(batch, i));
    ntz::law_flattened_field_is_a_timestamp_field(
        field_at(batch, i),
        column_at(batch, i),
        field_at(flat, i),
        column_at(flat, i),
        key,
    );
}

/// The rows of such a column become timestamps: null where the struct or its seconds are, else
/// the seconds in microseconds and the whole microseconds of the fraction.
pub proof fn law_marked_rows_become_timestamps(
    batch: RecordBatch,
    flat: RecordBatch,
    i: int,
    structs: StructColumn,
    epoch: Int64Column,
    scale: u32,
    row: int,
    units: i32,
    fraction: int,
)
    requires
        flattening_of(batch, flat),
        0 <= i < arrow::batch_columns(batch).len(),
        arrow::is_struct_type(arrow::column_type(column_at(batch, i))),
        arrow::field_metadata(field_at(batch, i)).contains_pair(
            "logicalType"@,
            "TIMESTAMP_NTZ"@,
        ),
        arrow::as_struct(column_at(batch, i)) == Some(structs),
        arrow::struct_child(structs, "epoch"@) matches Some(child) && arrow::as_int64(child)
            == Some(epoch),
        arrow::struct_child(structs, "fraction"@) matches Some(child) ==> arrow::as_int32(child)
            is Some,
        arrow::field_metadata(field_at(batch, i)).contains_key("scale"@) && text::parsed_u32(
            arrow::field_metadata(field_at(batch, i))["scale"@],
        ) is Some ==> text::parsed_u32(arrow::field_metadata(field_at(batch, i))["scale"@])
            == Some(scale),
        !(arrow::field_metadata(field_at(batch, i)).contains_key("scale"@) && text::parsed_u32(
            arrow::field_metadata(field_at(batch, i))["scale"@],
        ) is Some) ==> scale == 9,
        0 <= row < arrow::struct_validity(structs).len(),
        arrow::struct_child(structs, "fraction"@) is None ==> units == 0,
        arrow::struct_child(structs, "fraction"@) matches Some(child) ==> match arrow::int32_values(
            arrow::as_int32(child)->0,
        )[row] {
            Some(given) => units == given,
            None => units == 0,
        },
        scale <= 6 ==> fraction == units * vstd::arithmetic::power::pow(10, (6 - scale) as nat),
        scale > 6 && units >= 0 ==> 0 <= units - fraction * vstd::arithmetic::power::pow(
            10,
            (scale - 6) as nat,
        ) < vstd::arithmetic::power::pow(10, (scale - 6) as nat),
        scale > 6 && units < 0 ==> 0 <= fraction * vstd::arithmetic::power::pow(
            10,
            (scale - 6) as nat,
        ) - units < vstd::arithmetic::power::pow(10, (scale - 6) as nat),
    ensures
        arrow::timestamp_values(column_at(flat, i)).len() == arrow::struct_validity(structs).len(),
        arrow::column_validity(column_at(flat, i)).len() == arrow::struct_validity(structs).len(),
        arrow::column_validity(column_at(flat, i))[row] <==> arrow::struct_validity(structs)[row]
            && arrow::int64_values(epoch)[row] is Some,
        arrow::timestamp_values(column_at(flat, i))[row] is None <==> !arrow::struct_validity(
            structs,
        )[row] || arrow::int64_values(epoch)[row] is None,
        arrow::timestamp_values(column_at(flat, i))[row] matches Some(micros) ==> micros
            == arrow::int64_values(epoch)[row]->0 * 1_000_000 + fraction,
{
    assert(marked_at(batch, i));
    ntz::law_flattened_rows_are_timestamps(
        field_at(batch, i),
        column_at(batch, i),
        field_at(flat, i),
        column_at(flat, i),
        structs,
        epoch,
        scale,
        row,
        units,
        fraction,
    );
}

/// A batch comes back as it is where no struct column has a field that names the logical type
/// `TIMESTAMP_NTZ`.
pub proof fn law_batches_without_the_type_come_back(batch: RecordBatch)
    requires
        forall|i: int|
            0 <= i < arrow::batch_columns(batch).len() && arrow::is_struct_type(
                arrow::column_type(#[trigger] column_at(batch, i)),
            ) ==> !arrow::field_metadata(
                field_at(batch, i),
            ).contains_pair("logicalType"@, "TIMESTAMP_NTZ"@),
    ensures
        scales_supported(batch),
        flat_batch(batch) == Ok::<RecordBatch, ArrowError>(batch),
{
    assert forall|i: int| 0 <= i < width(batch) implies !#[trigger] marked_at(batch, i) by {
    }
}

/// The error of a batch is that of its first column that does not flatten, however many there
/// are.
pub proof fn law_the_first_failing_column_decides(batch: RecordBatch, i: int, error: ArrowError)
    requires
        0 <= i < arrow::batch_columns(batch).len(),
        arrow::is_struct_type(arrow::column_type(column_at(batch, i))),
        arrow::field_metadata(field_at(batch, i)).contains_pair(
            "logicalType"@,
            "TIMESTAMP_NTZ"@,
        ),
        ntz::flat_column(
            field_at(batch, i),
            column_at(batch, i),
        ) == Err::<(Field, Column), ArrowError>(error),
        forall|j: int|
            0 <= j < i && arrow::is_struct_type(
                arrow::column_type(#[trigger] column_at(batch, j)),
            ) && arrow::field_metadata(
                field_at(batch, j),
            ).contains_pair("logicalType"@, "TIMESTAMP_NTZ"@) ==> ntz::flat_column(
                field_at(batch, j),
                column_at(batch, j),
            ) is Ok,
    ensures
        flat_batch(batch) == Err::<RecordBatch, ArrowError>(error),
{
    assert(marked_at(batch, i));
    assert forall|j: int| 0 <= j < i implies #[trigger] flat_at(batch, j) is Ok by {
    }
    assert(flat_at(batch, i) == Err::<(Field, Column), ArrowError>(error));
    assert(first_failure(batch, i));
    let first = choose|k: int| first_failure(batch, k);
    assert(first_failure(batch, first));
    if first < i {
        assert(flat_at(batch, first) is Ok);
    }
    if i < first {
        assert(flat_at(batch, i) is Ok);
    }
}

/// A batch can be computed with where each such column can, and cannot where one cannot before
/// any other has failed.
pub proof fn law_scales_are_supported_column_by_column(batch: RecordBatch, i: int)
    requires
        forall|j: int|
            0 <= j < i && j < arrow::batch_columns(batch).len() && arrow::is_struct_type(
                arrow::column_type(#[trigger] column_at(batch, j)),
            ) && arrow::field_metadata(
                field_at(batch, j),
            ).contains_pair("logicalType"@, "TIMESTAMP_NTZ"@) ==> ntz::scale_supported(
                field_at(batch, j),
                column_at(batch, j),
            ) && ntz::flat_column(
                field_at(batch, j),
                column_at(batch, j),
            ) is Ok,
    ensures
        i >= arrow::batch_columns(batch).len() ==> scales_supported(batch),
        0 <= i < arrow::batch_columns(batch).len() && arrow::is_struct_type(
            arrow::column_type(column_at(batch, i)),
        ) && arrow::field_metadata(field_at(batch, i)).contains_pair(
            "logicalType"@,
            "TIMESTAMP_NTZ"@,
        ) ==> (!ntz::scale_supported(
            field_at(batch, i),
            column_at(batch, i),
        ) ==> !scales_supported(batch)) && (ntz::scale_supported(
            field_at(batch, i),
            column_at(batch, i),
        ) && ntz::flat_column(
            field_at(batch, i),
            column_at(batch, i),
        ) is Err ==> scales_supported(batch)),
{
    assert forall|j: int| 0 <= j < i && j < width(batch) implies #[trigger] flat_at(batch, j)
        is Ok by {
    }
    assert forall|j: int|
        0 <= j < i && j < width(batch) && #[trigger] marked_at(
            batch,
            j,
        ) implies ntz::scale_supported(field_at(batch, j), column_at(batch, j)) by {
    }
    if 0 <= i < width(batch) && marked_at(batch, i) {
        assert(flat_before(batch, i));
        if ntz::scale_supported(field_at(batch, i), column_at(batch, i)) && flat_at(batch, i)
            is Err {
            lemma_first_failure(batch, i);
        }
    }
}

/// A batch whose columns fit its schema flattens where each such column does, and gets no null
/// that its field does not admit: then all that `flatten_snowflake_types` needs to succeed
/// holds.
pub proof fn law_nothing_else_keeps_a_batch_from_flattening(batch: RecordBatch)
    requires
        arrow::columns_fit(arrow::batch_schema(batch), arrow::batch_columns(batch)),
        forall|i: int|
            0 <= i < arrow::batch_columns(batch).len() && arrow::is_struct_type(
                arrow::column_type(#[trigger] column_at(batch, i)),
            ) && arrow::field_metadata(
                field_at(batch, i),
            ).contains_pair("logicalType"@, "TIMESTAMP_NTZ"@) ==> {
                &&& ntz::flat_column(field_at(batch, i), column_at(batch, i)) is Ok
                &&& arrow::field_nullable(field_at(batch, i))
                    || all_present(field_at(batch, i), column_at(batch, i))
            },
    ensures
        flat_before(batch, width(batch)),
        rebuilds(batch),
{
    assert forall|i: int| 0 <= i < width(batch) implies #[trigger] flat_at(batch, i) is Ok by {
    }
    assert forall|i: int| 0 <= i < width(batch) && #[trigger] marked_at(batch, i) implies (
    arrow::field_nullable(field_at(batch, i)) || all_present(
        field_at(batch, i),
        column_at(batch, i),
    )) by {
    }
    law_fitting_batch_rebuilds(batch);
}

} // verus!
