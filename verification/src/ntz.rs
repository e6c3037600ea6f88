//! `TIMESTAMP_NTZ` columns.
//!
//! Snowflake encodes some logical types as Arrow structs whose field metadata names the
//! logical type. A `TIMESTAMP_NTZ` column comes as a struct of `epoch` seconds and a
//! `fraction`; here it becomes a column of microsecond timestamps without a time zone. The
//! siblings `TIMESTAMP_LTZ` and `TIMESTAMP_TZ`, which have a time zone besides, are left
//! alone.

use arrow_schema::{ArrowError, Field};
use vstd::prelude::*;
use vstd::string::StringExecFns;

use crate::arrow::{Column, Int32Column, Int64Column, StructColumn, TimeUnit};
use crate::{arrow, text, timestamp};

verus! {

/// The metadata key under which Snowflake names the logical type of a field.
pub const SNOWFLAKE_LOGICAL_TYPE_KEY: &'static str = "logicalType";

/// The metadata key under which Snowflake gives the scale of a field.
pub const SNOWFLAKE_SCALE_KEY: &'static str = "scale";

/// The logical type of a timestamp without a time zone.
pub const SNOWFLAKE_TIMESTAMP_NTZ: &'static str = "TIMESTAMP_NTZ";

/// The scale of a fraction where the metadata gives none.
pub const DEFAULT_SCALE: u32 = 9;

/// Whether a column is a struct that its field marks as `TIMESTAMP_NTZ`.
pub open spec fn is_ntz(field: Field, column: Column) -> bool {
    &&& arrow::is_struct_type(arrow::column_type(column))
    &&& arrow::field_metadata(field).contains_pair(
        SNOWFLAKE_LOGICAL_TYPE_KEY@,
        SNOWFLAKE_TIMESTAMP_NTZ@,
    )
}

/// The scale that metadata gives: the number under the scale key, or the default where
/// there is none or it is no number.
pub open spec fn scale_of(metadata: Map<Seq<char>, Seq<char>>) -> u32 {
    if metadata.contains_key(SNOWFLAKE_SCALE_KEY@) {
        match text::parsed_u32(metadata[SNOWFLAKE_SCALE_KEY@]) {
            Some(scale) => scale,
            None => DEFAULT_SCALE,
        }
    } else {
        DEFAULT_SCALE
    }
}

/// Metadata without the marks of the logical type.
pub open spec fn unmarked(metadata: Map<Seq<char>, Seq<char>>) -> Map<Seq<char>, Seq<char>> {
    metadata.remove(SNOWFLAKE_LOGICAL_TYPE_KEY@).remove(SNOWFLAKE_SCALE_KEY@)
}

/// A fraction, where a null counts as zero.
pub open spec fn units_of(fraction: Option<i32>) -> i32 {
    match fraction {
        Some(units) => units,
        None => 0,
    }
}

/// The rows of a `TIMESTAMP_NTZ` struct: whether each struct is there, the seconds, and the
/// fractions where there is such a child.
pub struct NtzRows {
    pub valid: Seq<bool>,
    pub epoch: Seq<Option<i64>>,
    pub fraction: Option<Seq<Option<i32>>>,
}

impl NtzRows {
    /// Whether a row holds a timestamp: neither the struct nor its seconds are null.
    pub open spec fn present(self, row: int) -> bool {
        self.valid[row] && self.epoch[row] is Some
    }

    /// The fraction of a row; zero where it is null or there is none.
    pub open spec fn units(self, row: int) -> i32 {
        match self.fraction {
            Some(fraction) => units_of(fraction[row]),
            None => 0,
        }
    }

    /// The timestamp of a row; `None` for a null, and where it is out of range.
    pub open spec fn value(self, scale: u32, row: int) -> Option<i64> {
        if self.present(row) {
            timestamp::timestamp(scale, self.epoch[row]->0, self.units(row))
        } else {
            None
        }
    }

    /// Whether the timestamp of a row, if it holds one, is in range.
    pub open spec fn fits(self, scale: u32, row: int) -> bool {
        self.present(row) ==> self.value(scale, row) is Some
    }

    /// Whether all rows up to `end` are in range.
    pub open spec fn all_fit(self, scale: u32, end: int) -> bool {
        forall|row: int| 0 <= row < end ==> #[trigger] self.fits(scale, row)
    }

    /// Whether `row` is the first that is out of range.
    pub open spec fn first_misfit(self, scale: u32, row: int) -> bool {
        0 <= row < self.valid.len() && !self.fits(scale, row) && self.all_fit(scale, row)
    }

    /// The timestamps of all rows.
    pub open spec fn values(self, scale: u32) -> Seq<Option<i64>> {
        Seq::new(self.valid.len(), |row: int| self.value(scale, row))
    }
}

/// The error message for a marked column that is no struct array.
pub open spec fn not_struct_message(name: Seq<char>) -> Seq<char> {
    "expected Struct column for TIMESTAMP_NTZ field `"@ + name + "`"@
}

/// The error message for a struct without seconds.
pub open spec fn no_epoch_message(name: Seq<char>) -> Seq<char> {
    "TIMESTAMP_NTZ struct `"@ + name + "` missing `epoch` child"@
}

/// The error message for seconds of another type than 64-bit integers.
pub open spec fn epoch_type_message(name: Seq<char>) -> Seq<char> {
    "TIMESTAMP_NTZ `"@ + name + "` epoch child is not Int64"@
}

/// The error message for fractions of another type than 32-bit integers.
pub open spec fn fraction_type_message(name: Seq<char>) -> Seq<char> {
    "TIMESTAMP_NTZ `"@ + name + "` fraction child is not Int32"@
}

/// The error message for a timestamp out of range.
pub open spec fn overflow_message(name: Seq<char>, row: nat) -> Seq<char> {
    "TIMESTAMP_NTZ `"@ + name + "` overflows i64 microseconds at row "@ + text::decimal(row)
}

/// The rows of a marked column, or the error where its shape is not that of a
/// `TIMESTAMP_NTZ` struct.
pub open spec fn ntz_rows(name: Seq<char>, column: Column) -> Result<NtzRows, ArrowError> {
    match arrow::as_struct(column) {
        None => Err(arrow::schema_error(not_struct_message(name))),
        Some(structs) => match arrow::struct_child(structs, "epoch"@) {
            None => Err(arrow::schema_error(no_epoch_message(name))),
            Some(child) => match arrow::as_int64(child) {
                None => Err(arrow::schema_error(epoch_type_message(name))),
                Some(epoch) => {
                    let valid = arrow::struct_validity(structs);
                    let epoch = arrow::int64_values(epoch);
                    match arrow::struct_child(structs, "fraction"@) {
                        None => Ok(NtzRows { valid, epoch, fraction: None }),
                        Some(child) => match arrow::as_int32(child) {
                            None => Err(arrow::schema_error(fraction_type_message(name))),
                            Some(fraction) => Ok(
                                NtzRows {
                                    valid,
                                    epoch,
                                    fraction: Some(arrow::int32_values(fraction)),
                                },
                            ),
                        },
                    }
                },
            },
        },
    }
}

/// Whether the scale of a marked column can be computed with: it is within range, or no row
/// needs it.
pub open spec fn scale_supported(field: Field, column: Column) -> bool {
    match ntz_rows(arrow::field_name(field), column) {
        Ok(rows) => {
            ||| scale_of(arrow::field_metadata(field)) <= timestamp::MAX_SCALE
            ||| forall|row: int| 0 <= row < rows.valid.len() ==> !#[trigger] rows.present(row)
        },
        Err(_) => true,
    }
}

/// The field of a flattened column: the name and nullability of the marked field, a
/// timestamp type, and the metadata without the marks.
pub open spec fn flat_field(field: Field) -> Field {
    arrow::field_with_metadata(
        arrow::new_field(
            arrow::field_name(field),
            arrow::timestamp_type(TimeUnit::Microsecond, None),
            arrow::field_nullable(field),
        ),
        unmarked(arrow::field_metadata(field)),
    )
}

/// What flattening a marked column gives.
pub open spec fn flat_column(field: Field, column: Column) -> Result<(Field, Column), ArrowError> {
    let name = arrow::field_name(field);
    let scale = scale_of(arrow::field_metadata(field));
    match ntz_rows(name, column) {
        Err(error) => Err(error),
        Ok(rows) => if rows.all_fit(scale, rows.valid.len() as int) {
            Ok((flat_field(field), arrow::timestamp_column(rows.values(scale))))
        } else {
            let row = choose|row: int| rows.first_misfit(scale, row);
            Err(arrow::cast_error(overflow_message(name, row as nat)))
        },
    }
}

/// Whether a field and a column are what flattening made of a marked field and column.
pub open spec fn flattened(
    field: Field,
    column: Column,
    flat_field: Field,
    flat_column: Column,
) -> bool {
    let rows = ntz_rows(arrow::field_name(field), column);
    let scale = scale_of(arrow::field_metadata(field));
    &&& rows is Ok
    &&& rows->Ok_0.valid == arrow::column_validity(column)
    &&& rows->Ok_0.all_fit(scale, rows->Ok_0.valid.len() as int)
    &&& arrow::field_name(flat_field) == arrow::field_name(field)
    &&& arrow::field_nullable(flat_field) == arrow::field_nullable(field)
    &&& arrow::field_metadata(flat_field) == unmarked(arrow::field_metadata(field))
    &&& arrow::field_type(flat_field) == arrow::timestamp_type(TimeUnit::Microsecond, None)
    &&& arrow::column_type(flat_column) == arrow::timestamp_type(TimeUnit::Microsecond, None)
    &&& arrow::timestamp_values(flat_column) == rows->Ok_0.values(scale)
    &&& arrow::column_validity(flat_column) == rows->Ok_0.values(scale).map_values(
        |row: Option<i64>| row is Some,
    )
}

/// Looks a key up in listed metadata.
fn lookup<'a>(entries: &'a Vec<(String, String)>, key: &str) -> (found: Option<&'a String>)
    ensures
        match found {
            Some(value) => arrow::map_of(entries@).contains_pair(key@, value@),
            None => !arrow::map_of(entries@).contains_key(key@),
        },
{
    let key = key.to_owned();
    let mut found: Option<&'a String> = None;
    let mut i: usize = 0;
    while i < entries.len()
        invariant
            i <= entries.len(),
            match found {
                Some(value) => arrow::map_of(entries@.take(i as int)).contains_pair(
                    key@,
                    value@,
                ),
                None => !arrow::map_of(entries@.take(i as int)).contains_key(key@),
            },
        decreases entries.len() - i,
    {
        proof {
            assert(entries@.take(i + 1).drop_last() =~= entries@.take(i as int));
        }
        if entries[i].0 == key {
            found = Some(&entries[i].1);
        }
        i = i + 1;
    }
    proof {
        assert(entries@.take(i as int) =~= entries@);
    }
    found
}

/// A listed key is one of the map.
proof fn lemma_map_of_keys(entries: Seq<(String, String)>, i: int)
    requires
        0 <= i < entries.len(),
    ensures
        arrow::map_of(entries).contains_key(entries[i].0@),
    decreases entries.len(),
{
    if i < entries.len() - 1 {
        assert(entries.drop_last()[i] == entries[i]);
        lemma_map_of_keys(entries.drop_last(), i);
    }
}

/// A key that is not listed is none of the map.
proof fn lemma_map_of_other_keys(entries: Seq<(String, String)>, key: Seq<char>)
    requires
        forall|i: int| 0 <= i < entries.len() ==> #[trigger] entries[i].0@ != key,
    ensures
        !arrow::map_of(entries).contains_key(key),
    decreases entries.len(),
{
    if entries.len() > 0 {
        let front = entries.drop_last();
        assert forall|i: int| 0 <= i < front.len() implies #[trigger] front[i].0@ != key by {
            assert(front[i] == entries[i]);
        }
        lemma_map_of_other_keys(front, key);
        assert(entries.last().0@ == entries[entries.len() - 1].0@);
    }
}

/// Listed metadata without the marks of the logical type.
fn without_marks(entries: &Vec<(String, String)>) -> (kept: Vec<(String, String)>)
    requires
        arrow::distinct_keys(entries@),
    ensures
        arrow::distinct_keys(kept@),
        arrow::map_of(kept@) == unmarked(arrow::map_of(entries@)),
{
    let logical_type_key = SNOWFLAKE_LOGICAL_TYPE_KEY.to_owned();
    let scale_key = SNOWFLAKE_SCALE_KEY.to_owned();
    let mut kept: Vec<(String, String)> = Vec::new();
    let mut i: usize = 0;
    proof {
        assert(arrow::map_of(kept@) =~= unmarked(arrow::map_of(entries@.take(0))));
    }
    while i < entries.len()
        invariant
            i <= entries.len(),
            logical_type_key@ == SNOWFLAKE_LOGICAL_TYPE_KEY@,
            scale_key@ == SNOWFLAKE_SCALE_KEY@,
            arrow::distinct_keys(entries@),
            arrow::distinct_keys(kept@),
            arrow::map_of(kept@) == unmarked(arrow::map_of(entries@.take(i as int))),
        decreases entries.len() - i,
    {
        let ghost before = kept@;
        proof {
            assert(entries@.take(i + 1).drop_last() =~= entries@.take(i as int));
        }
        if !(entries[i].0 == logical_type_key || entries[i].0 == scale_key) {
            kept.push((entries[i].0.clone(), entries[i].1.clone()));
            proof {
                assert(kept@.drop_last() =~= before);
                lemma_map_of_other_keys(entries@.take(i as int), entries[i as int].0@);
                assert forall|j: int| 0 <= j < before.len() implies #[trigger] kept[j].0@
                    != entries[i as int].0@ by {
                    lemma_map_of_keys(before, j);
                }
            }
        }
        proof {
            assert(arrow::map_of(kept@) =~= unmarked(arrow::map_of(entries@.take(i + 1))));
        }
        i = i + 1;
    }
    proof {
        assert(entries@.take(i as int) =~= entries@);
    }
    kept
}

/// Whether a column is a struct that its field marks as `TIMESTAMP_NTZ`.
pub fn is_snowflake_timestamp_ntz_struct(field: &Field, column: &Column) -> (marked: bool)
    ensures
        marked == is_ntz(*field, *column),
{
    if !arrow::is_struct(column) {
        return false;
    }
    let metadata = arrow::metadata_of(field);
    match lookup(&metadata, SNOWFLAKE_LOGICAL_TYPE_KEY) {
        Some(logical_type) => *logical_type == SNOWFLAKE_TIMESTAMP_NTZ.to_owned(),
        None => false,
    }
}

/// The scale that listed metadata gives.
fn scale_in(entries: &Vec<(String, String)>) -> (scale: u32)
    ensures
        scale == scale_of(arrow::map_of(entries@)),
{
    match lookup(entries, SNOWFLAKE_SCALE_KEY) {
        Some(text) => match text::parse_u32(text.as_str()) {
            Some(scale) => scale,
            None => DEFAULT_SCALE,
        },
        None => DEFAULT_SCALE,
    }
}

/// The arrays of a `TIMESTAMP_NTZ` struct.
struct NtzArrays {
    structs: StructColumn,
    epoch: Int64Column,
    fraction: Option<Int32Column>,
}

impl NtzArrays {
    /// The rows that the arrays hold.
    spec fn rows(self) -> NtzRows {
        NtzRows {
            valid: arrow::struct_validity(self.structs),
            epoch: arrow::int64_values(self.epoch),
            fraction: match self.fraction {
                Some(fraction) => Some(arrow::int32_values(fraction)),
                None => None,
            },
        }
    }

    /// Whether the arrays are equally long.
    spec fn well_formed(self) -> bool {
        let rows = self.rows();
        &&& rows.epoch.len() == rows.valid.len()
        &&& rows.fraction matches Some(fraction) ==> fraction.len() == rows.valid.len()
    }

    /// Takes a marked column apart.
    fn of(name: &str, column: &Column) -> (arrays: Result<NtzArrays, ArrowError>)
        ensures
            match arrays {
                Ok(arrays) => {
                    &&& arrays.well_formed()
                    &&& arrays.rows().valid == arrow::column_validity(*column)
                    &&& ntz_rows(name@, *column) == Ok::<NtzRows, ArrowError>(arrays.rows())
                },
                Err(error) => ntz_rows(name@, *column) == Err::<NtzRows, ArrowError>(error),
            },
    {
        let structs = match arrow::downcast_struct(column) {
            Some(structs) => structs,
            None => {
                let message = "expected Struct column for TIMESTAMP_NTZ field `".to_owned().concat(
                    name,
                ).concat("`");
                return Err(arrow::make_schema_error(message));
            },
        };
        let epoch = match arrow::child_by_name(&structs, "epoch") {
            Some(child) => match arrow::downcast_int64(&child) {
                Some(epoch) => epoch,
                None => {
                    let message = "TIMESTAMP_NTZ `".to_owned().concat(name).concat(
                        "` epoch child is not Int64",
                    );
                    return Err(arrow::make_schema_error(message));
                },
            },
            None => {
                let message = "TIMESTAMP_NTZ struct `".to_owned().concat(name).concat(
                    "` missing `epoch` child",
                );
                return Err(arrow::make_schema_error(message));
            },
        };
        let fraction = match arrow::child_by_name(&structs, "fraction") {
            Some(child) => match arrow::downcast_int32(&child) {
                Some(fraction) => Some(fraction),
                None => {
                    let message = "TIMESTAMP_NTZ `".to_owned().concat(name).concat(
                        "` fraction child is not Int32",
                    );
                    return Err(arrow::make_schema_error(message));
                },
            },
            None => None,
        };
        Ok(NtzArrays { structs, epoch, fraction })
    }

    /// The number of rows.
    fn len(&self) -> (len: usize)
        ensures
            len == self.rows().valid.len(),
    {
        arrow::struct_len(&self.structs)
    }

    /// Whether a row holds a timestamp.
    fn present(&self, row: usize) -> (present: bool)
        requires
            self.well_formed(),
            row < self.rows().valid.len(),
        ensures
            present == self.rows().present(row as int),
    {
        !arrow::struct_is_null(&self.structs, row) && !arrow::int64_is_null(&self.epoch, row)
    }

    /// The seconds of a row; `None` for a null.
    fn epoch_at(&self, row: usize) -> (epoch: Option<i64>)
        requires
            self.well_formed(),
            row < self.rows().valid.len(),
        ensures
            epoch == self.rows().epoch[row as int],
    {
        if arrow::int64_is_null(&self.epoch, row) {
            None
        } else {
            Some(arrow::int64_value(&self.epoch, row))
        }
    }

    /// The fraction of a row; `None` for a null, and where there is no such child.
    fn fraction_at(&self, row: usize) -> (fraction: Option<i32>)
        requires
            self.well_formed(),
            row < self.rows().valid.len(),
        ensures
            self.rows().units(row as int) == units_of(fraction),
    {
        match &self.fraction {
            Some(fraction) => if arrow::int32_is_null(fraction, row) {
                None
            } else {
                Some(arrow::int32_value(fraction, row))
            },
            None => None,
        }
    }
}

/// Flattens one row: `Some(None)` for a null, and `None` where the timestamp is out of range.
/// Snowflake may signal a null either by nulling the struct or by nulling the seconds.
pub fn flatten_row(
    scale: u32,
    valid: bool,
    epoch: Option<i64>,
    fraction: Option<i32>,
) -> (value: Option<Option<i64>>)
    requires
        valid && epoch is Some ==> scale <= timestamp::MAX_SCALE,
    ensures
        value == (if valid && epoch is Some {
            match timestamp::timestamp(scale, epoch->0, units_of(fraction)) {
                Some(micros) => Some(Some(micros)),
                None => None,
            }
        } else {
            Some(None)
        }),
{
    match epoch {
        Some(seconds) => if valid {
            let units: i32 = match fraction {
                Some(units) => units,
                None => 0,
            };
            match timestamp::timestamp_micros(scale, seconds, units) {
                Some(micros) => Some(Some(micros)),
                None => None,
            }
        } else {
            Some(None)
        },
        None => Some(None),
    }
}

/// The error for a timestamp out of range.
pub fn overflow_err(name: &str, row: usize) -> (error: ArrowError)
    ensures
        error == arrow::cast_error(overflow_message(name@, row as nat)),
{
    let message = "TIMESTAMP_NTZ `".to_owned().concat(name).concat(
        "` overflows i64 microseconds at row ",
    ).concat(text::decimal_text(row).as_str());
    arrow::make_cast_error(message)
}

/// Whether the scale of a marked column can be computed with.
pub fn is_scale_supported(field: &Field, column: &Column) -> (supported: bool)
    ensures
        supported == scale_supported(*field, *column),
{
    let metadata = arrow::metadata_of(field);
    let scale = scale_in(&metadata);
    let arrays = match NtzArrays::of(arrow::name_of(field), column) {
        Ok(arrays) => arrays,
        Err(_) => {
            return true;
        },
    };
    if scale <= timestamp::MAX_SCALE {
        return true;
    }
    let len = arrays.len();
    let mut i: usize = 0;
    while i < len
        invariant
            i <= len,
            len == arrays.rows().valid.len(),
            arrays.well_formed(),
            ntz_rows(arrow::field_name(*field), *column) == Ok::<NtzRows, ArrowError>(
                arrays.rows(),
            ),
            scale == scale_of(arrow::field_metadata(*field)),
            scale > timestamp::MAX_SCALE,
            forall|row: int| 0 <= row < i ==> !#[trigger] arrays.rows().present(row),
        decreases len - i,
    {
        if arrays.present(i) {
            return false;
        }
        i = i + 1;
    }
    true
}

/// Flattens a marked column into microsecond timestamps.
pub fn flatten_timestamp_ntz_column(field: &Field, column: &Column) -> (flat: Result<
    (Field, Column),
    ArrowError,
>)
    requires
        scale_supported(*field, *column),
    ensures
        flat == flat_column(*field, *column),
        flat matches Ok((new_field, new_column)) ==> flattened(
            *field,
            *column,
            new_field,
            new_column,
        ),
{
    let metadata = arrow::metadata_of(field);
    let scale = scale_in(&metadata);
    let name = arrow::name_of(field);
    let arrays = NtzArrays::of(name, column)?;
    let ghost rows = arrays.rows();
    let len = arrays.len();
    let mut builder = arrow::make_builder(len);
    let mut i: usize = 0;
    while i < len
        invariant
            i <= len,
            len == rows.valid.len(),
            rows == arrays.rows(),
            arrays.well_formed(),
            ntz_rows(name@, *column) == Ok::<NtzRows, ArrowError>(rows),
            name@ == arrow::field_name(*field),
            scale == scale_of(arrow::field_metadata(*field)),
            scale_supported(*field, *column),
            rows.all_fit(scale, i as int),
            arrow::builder_values(builder) == rows.values(scale).take(i as int),
        decreases len - i,
    {
        let valid = !arrow::struct_is_null(&arrays.structs, i);
        let epoch = arrays.epoch_at(i);
        let fraction = arrays.fraction_at(i);
        proof {
            if valid && epoch is Some {
                assert(rows.present(i as int));
            }
        }
        match flatten_row(scale, valid, epoch, fraction) {
            Some(Some(micros)) => {
                arrow::append_value(&mut builder, micros);
            },
            Some(None) => {
                arrow::append_null(&mut builder);
            },
            None => {
                proof {
                    assert(!rows.fits(scale, i as int));
                    assert(rows.first_misfit(scale, i as int));
                    let first = choose|row: int| rows.first_misfit(scale, row);
                    if first < i {
                        assert(rows.fits(scale, first));
                    }
                    if i < first {
                        assert(rows.fits(scale, i as int));
                    }
                }
                return Err(overflow_err(name, i));
            },
        }
        proof {
            assert(rows.fits(scale, i as int));
            assert(rows.values(scale).take(i + 1) =~= rows.values(scale).take(i as int).push(
                rows.value(scale, i as int),
            ));
        }
        i = i + 1;
    }
    proof {
        assert(rows.values(scale).take(len as int) =~= rows.values(scale));
    }
    let new_column = arrow::finish(&mut builder);
    let new_metadata = without_marks(&metadata);
    let data_type = arrow::make_timestamp_type(TimeUnit::Microsecond, None);
    let new_field = arrow::make_field(name, data_type, arrow::is_nullable(field));
    Ok((arrow::with_metadata(new_field, new_metadata), new_column))
}

// ---------------------------------------------------------------------------
// Laws
// ---------------------------------------------------------------------------

/// A null is accepted from either side: a flattened row is null exactly where the struct is
/// null or its seconds are.
pub proof fn law_either_null_makes_the_row_null(rows: NtzRows, scale: u32, row: int)
    requires
        0 <= row < rows.valid.len(),
        rows.all_fit(scale, rows.valid.len() as int),
    ensures
        rows.values(scale)[row] is None <==> !rows.valid[row] || rows.epoch[row] is None,
{
    assert(rows.fits(scale, row));
}

/// A null fraction, and a missing one, count as zero.
pub proof fn law_missing_fraction_counts_as_zero(rows: NtzRows, scale: u32, row: int)
    requires
        rows.present(row),
        rows.fraction is None || rows.fraction->0[row] is None,
    ensures
        rows.value(scale, row) == timestamp::timestamp(scale, rows.epoch[row]->0, 0),
{
}

/// Flattening consumes the marks and keeps every other entry of the metadata.
pub proof fn law_marks_are_consumed(metadata: Map<Seq<char>, Seq<char>>, key: Seq<char>)
    ensures
        !unmarked(metadata).contains_key(SNOWFLAKE_LOGICAL_TYPE_KEY@),
        !unmarked(metadata).contains_key(SNOWFLAKE_SCALE_KEY@),
        key != SNOWFLAKE_LOGICAL_TYPE_KEY@ && key != SNOWFLAKE_SCALE_KEY@ ==> (unmarked(
            metadata,
        ).contains_key(key) <==> metadata.contains_key(key)) && unmarked(metadata)[key]
            == metadata[key],
{
}

/// A flattened column is not marked any more.
pub proof fn law_flattened_is_unmarked(
    field: Field,
    column: Column,
    flat_field: Field,
    flat_column: Column,
)
    requires
        flattened(field, column, flat_field, flat_column),
    ensures
        !is_ntz(flat_field, flat_column),
{
}

/// What marks a column is its being a struct and `TIMESTAMP_NTZ` under `logicalType`, and
/// nothing else.
pub proof fn law_only_one_logical_type_is_marked(field: Field, column: Column, named: Seq<char>)
    requires
        arrow::field_metadata(field).contains_pair("logicalType"@, named),
    ensures
        is_ntz(field, column) <==> named == "TIMESTAMP_NTZ"@ && arrow::is_struct_type(
            arrow::column_type(column),
        ),
{
}

/// A field that names no logical type marks nothing.
pub proof fn law_no_logical_type_marks_nothing(field: Field, column: Column)
    requires
        !arrow::field_metadata(field).contains_key("logicalType"@),
    ensures
        !is_ntz(field, column),
{
}

/// A flattened field is a timestamp field of the same name and nullability. It has every entry
/// of the metadata but the two that described the struct.
pub proof fn law_flattened_field_is_a_timestamp_field(
    field: Field,
    column: Column,
    flat_field: Field,
    flat_column: Column,
    key: Seq<char>,
)
    requires
        flattened(field, column, flat_field, flat_column),
    ensures
        arrow::field_name(flat_field) == arrow::field_name(field),
        arrow::field_nullable(flat_field) == arrow::field_nullable(field),
        arrow::field_type(flat_field) == arrow::timestamp_type(TimeUnit::Microsecond, None),
        arrow::column_type(flat_column) == arrow::timestamp_type(TimeUnit::Microsecond, None),
        arrow::field_metadata(flat_field).contains_key(key) <==> arrow::field_metadata(
            field,
        ).contains_key(key) && key != "logicalType"@ && key != "scale"@,
        arrow::field_metadata(flat_field).contains_key(key) ==> arrow::field_metadata(
            flat_field,
        )[key] == arrow::field_metadata(field)[key],
{
}

/// A row of a flattened column is null where the struct or its seconds are null. Else it is the
/// seconds in microseconds and the whole microseconds of the fraction, whose unit the scale
/// gives: nine where none can be read.
pub proof fn law_flattened_rows_are_timestamps(
    field: Field,
    column: Column,
    flat_field: Field,
    flat_column: Column,
    structs: StructColumn,
    epoch: Int64Column,
    scale: u32,
    row: int,
    units: i32,
    fraction: int,
)
    requires
        flattened(field, column, flat_field, flat_column),
        arrow::as_struct(column) == Some(structs),
        arrow::struct_child(structs, "epoch"@) matches Some(child) && arrow::as_int64(child)
            == Some(epoch),
        arrow::struct_child(structs, "fraction"@) matches Some(child) ==> arrow::as_int32(child)
            is Some,
        arrow::field_metadata(field).contains_key("scale"@) && text::parsed_u32(
            arrow::field_metadata(field)["scale"@],
        ) is Some ==> text::parsed_u32(arrow::field_metadata(field)["scale"@]) == Some(scale),
        !(arrow::field_metadata(field).contains_key("scale"@) && text::parsed_u32(
            arrow::field_metadata(field)["scale"@],
        ) is Some) ==> scale == 9,
        0 <= row < arrow::struct_validity(structs).len(),
        arrow::struct_child(structs, "fraction"@) is None ==> units == 0,
        arrow::struct_child(structs, "fraction"@) matches Some(child) ==> match arrow::int32_values(
            arrow::as_int32(child)->0,
        )[row] {
            Some(given) => units == given,
            None => units == 0,
        },
        scale <= 6 ==> fraction == units * vstd::arithmetic::power::pow(10, (6 - scale) as nat),
        scale > 6 && units >= 0 ==> 0 <= units - fraction * vstd::arithmetic::power::pow(
            10,
            (scale - 6) as nat,
        ) < vstd::arithmetic::power::pow(10, (scale - 6) as nat),
        scale > 6 && units < 0 ==> 0 <= fraction * vstd::arithmetic::power::pow(
            10,
            (scale - 6) as nat,
        ) - units < vstd::arithmetic::power::pow(10, (scale - 6) as nat),
    ensures
        arrow::timestamp_values(flat_column).len() == arrow::struct_validity(structs).len(),
        arrow::column_validity(flat_column).len() == arrow::struct_validity(structs).len(),
        arrow::column_validity(flat_column)[row] <==> arrow::struct_validity(structs)[row]
            && arrow::int64_values(epoch)[row] is Some,
        arrow::timestamp_values(flat_column)[row] is None <==> !arrow::struct_validity(structs)[row]
            || arrow::int64_values(epoch)[row] is None,
        arrow::timestamp_values(flat_column)[row] matches Some(micros) ==> micros
            == arrow::int64_values(epoch)[row]->0 * 1_000_000 + fraction,
{
    let rows = ntz_rows(arrow::field_name(field), column)->Ok_0;
    assert(scale_of(arrow::field_metadata(field)) == scale);
    assert(rows.fits(scale, row));
    assert(rows.values(scale)[row] == rows.value(scale, row));
    assert(rows.units(row) == units);
    if rows.present(row) {
        timestamp::law_timestamp_is_seconds_and_fraction(
            scale,
            rows.epoch[row]->0,
            units,
            fraction,
        );
    }
}

/// A marked column of another shape is an error that names the field: it must be an array of
/// structs with a child `epoch` of 64-bit integers, and a child `fraction`, if there is one,
/// must be of 32-bit integers.
pub proof fn law_other_shapes_are_errors(field: Field, column: Column, structs: StructColumn)
    ensures
        arrow::as_struct(column) is None ==> flat_column(field, column) == Err::<
            (Field, Column),
            ArrowError,
        >(
            arrow::schema_error(
                "expected Struct column for TIMESTAMP_NTZ field `"@ + arrow::field_name(field)
                    + "`"@,
            ),
        ),
        arrow::as_struct(column) == Some(structs) && arrow::struct_child(structs, "epoch"@) is None
            ==> flat_column(field, column) == Err::<(Field, Column), ArrowError>(
            arrow::schema_error(
                "TIMESTAMP_NTZ struct `"@ + arrow::field_name(field)
                    + "` missing `epoch` child"@,
            ),
        ),
        arrow::as_struct(column) == Some(structs) && (arrow::struct_child(structs, "epoch"@) matches
            Some(child) && arrow::as_int64(child) is None) ==> flat_column(field, column) == Err::<
            (Field, Column),
            ArrowError,
        >(
            arrow::schema_error(
                "TIMESTAMP_NTZ `"@ + arrow::field_name(field) + "` epoch child is not Int64"@,
            ),
        ),
        arrow::as_struct(column) == Some(structs) && (arrow::struct_child(structs, "epoch"@) matches
            Some(child) && arrow::as_int64(child) is Some) && (arrow::struct_child(
            structs,
            "fraction"@,
        ) matches Some(child) && arrow::as_int32(child) is None) ==> flat_column(field, column)
            == Err::<(Field, Column), ArrowError>(
            arrow::schema_error(
                "TIMESTAMP_NTZ `"@ + arrow::field_name(field) + "` fraction child is not Int32"@,
            ),
        ),
{
}

/// A well-shaped column flattens where every row that is there has a timestamp in range. The
/// first row that has none is an error that names the field and the row.
pub proof fn law_only_overflow_keeps_a_column_from_flattening(
    field: Field,
    column: Column,
    structs: StructColumn,
    epoch: Int64Column,
    scale: u32,
    units: Seq<i32>,
    end: int,
)
    requires
        arrow::as_struct(column) == Some(structs),
        arrow::struct_child(structs, "epoch"@) matches Some(child) && arrow::as_int64(child)
            == Some(epoch),
        arrow::struct_child(structs, "fraction"@) matches Some(child) ==> arrow::as_int32(child)
            is Some,
        arrow::field_metadata(field).contains_key("scale"@) && text::parsed_u32(
            arrow::field_metadata(field)["scale"@],
        ) is Some ==> text::parsed_u32(arrow::field_metadata(field)["scale"@]) == Some(scale),
        !(arrow::field_metadata(field).contains_key("scale"@) && text::parsed_u32(
            arrow::field_metadata(field)["scale"@],
        ) is Some) ==> scale == 9,
        units.len() == arrow::struct_validity(structs).len(),
        arrow::struct_child(structs, "fraction"@) is None ==> forall|row: int|
            0 <= row < units.len() ==> #[trigger] units[row] == 0,
        arrow::struct_child(structs, "fraction"@) matches Some(child) ==> forall|row: int|
            0 <= row < units.len() ==> match arrow::int32_values(arrow::as_int32(child)->0)[row] {
                Some(given) => #[trigger] units[row] == given,
                None => units[row] == 0,
            },
        0 <= end <= arrow::struct_validity(structs).len(),
        forall|row: int|
            0 <= row < end && arrow::struct_validity(structs)[row] && arrow::int64_values(
                epoch,
            )[row] is Some ==> timestamp::timestamp(
                scale,
                arrow::int64_values(epoch)[row]->0,
                #[trigger] units[row],
            ) is Some,
    ensures
        end == arrow::struct_validity(structs).len() ==> flat_column(field, column) is Ok,
        end < arrow::struct_validity(structs).len() && arrow::struct_validity(structs)[end]
            && arrow::int64_values(epoch)[end] is Some && timestamp::timestamp(
            scale,
            arrow::int64_values(epoch)[end]->0,
            units[end],
        ) is None ==> flat_column(field, column) == Err::<(Field, Column), ArrowError>(
            arrow::cast_error(
                "TIMESTAMP_NTZ `"@ + arrow::field_name(field)
                    + "` overflows i64 microseconds at row "@ + text::decimal(end as nat),
            ),
        ),
{
    let rows = ntz_rows(arrow::field_name(field), column)->Ok_0;
    assert(scale_of(arrow::field_metadata(field)) == scale);
    assert forall|row: int| 0 <= row < end implies #[trigger] rows.fits(scale, row) by {
        assert(rows.units(row) == units[row]);
    }
    if end < rows.valid.len() && rows.present(end) {
        assert(rows.units(end) == units[end]);
        if timestamp::timestamp(scale, rows.epoch[end]->0, units[end]) is None {
            assert(!rows.fits(scale, end));
            assert(rows.first_misfit(scale, end));
            let first = choose|row: int| rows.first_misfit(scale, row);
            if first < end {
                assert(rows.fits(scale, first));
            }
            if end < first {
                assert(rows.fits(scale, end));
            }
        }
    }
}

/// Every scale up to 24 can be computed with; a larger one only where no row is there.
pub proof fn law_scales_up_to_24_are_supported(
    field: Field,
    column: Column,
    structs: StructColumn,
    epoch: Int64Column,
    scale: u32,
)
    requires
        arrow::as_struct(column) == Some(structs),
        arrow::struct_child(structs, "epoch"@) matches Some(child) && arrow::as_int64(child)
            == Some(epoch),
        arrow::struct_child(structs, "fraction"@) matches Some(child) ==> arrow::as_int32(child)
            is Some,
        arrow::field_metadata(field).contains_key("scale"@) && text::parsed_u32(
            arrow::field_metadata(field)["scale"@],
        ) is Some ==> text::parsed_u32(arrow::field_metadata(field)["scale"@]) == Some(scale),
        !(arrow::field_metadata(field).contains_key("scale"@) && text::parsed_u32(
            arrow::field_metadata(field)["scale"@],
        ) is Some) ==> scale == 9,
    ensures
        scale_supported(field, column) <==> {
            ||| scale <= 24
            ||| forall|row: int|
                0 <= row < arrow::struct_validity(structs).len() && #[trigger]
                    arrow::struct_validity(structs)[row] ==> arrow::int64_values(epoch)[row] is None
        },
{
    let rows = ntz_rows(arrow::field_name(field), column)->Ok_0;
    assert(scale_of(arrow::field_metadata(field)) == scale);
    if forall|row: int| 0 <= row < rows.valid.len() ==> !#[trigger] rows.present(row) {
        assert forall|row: int|
            0 <= row < rows.valid.len() && #[trigger] rows.valid[row] implies rows.epoch[row]
            is None by {
            assert(!rows.present(row));
        }
    }
}

/// A column of another shape needs no scale.
pub proof fn law_other_shapes_need_no_scale(field: Field, column: Column, structs: StructColumn)
    requires
        arrow::as_struct(column) is None || arrow::as_struct(column) == Some(structs) && (
        arrow::struct_child(structs, "epoch"@) is None || arrow::as_int64(
            arrow::struct_child(structs, "epoch"@)->0,
        ) is None || arrow::struct_child(structs, "fraction"@) is Some && arrow::as_int32(
            arrow::struct_child(structs, "fraction"@)->0,
        ) is None),
    ensures
        scale_supported(field, column),
{
}

} // verus!
