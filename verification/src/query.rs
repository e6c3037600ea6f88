//! Query results, raw and decoded.

use arrow_ipc::reader::StreamReader;
use arrow_schema::ArrowError;
use bytes::buf::Reader;
use bytes::Bytes;
use serde_json::Value;
use vstd::prelude::*;

use crate::arrow::{Opening, RecordBatch, Step};
use crate::responses::{ExecResponseRowType, SnowflakeType};
use crate::{arrow, flatten};

verus! {

/// The result of a statement that does not answer in Arrow: even where Arrow is asked for,
/// statements other than SELECT return a JSON array of arrays, such as
/// `[[42, "answer"], [43, "non-answer"]]`.
pub struct JsonResult {
    pub value: Value,
    /// The order of the fields is that of the arrays.
    pub schema: Vec<FieldSchema>,
}

/// The description of a column of a [`JsonResult`].
pub struct FieldSchema {
    pub name: String,
    pub type_: SnowflakeType,
    pub scale: Option<i64>,
    pub precision: Option<i64>,
    pub nullable: bool,
}

impl vstd::std_specs::convert::FromSpecImpl<ExecResponseRowType> for FieldSchema {
    open spec fn obeys_from_spec() -> bool {
        true
    }

    open spec fn from_spec(value: ExecResponseRowType) -> Self {
        FieldSchema {
            name: value.name,
            type_: value.type_,
            scale: value.scale,
            precision: value.precision,
            nullable: value.nullable,
        }
    }
}

impl From<ExecResponseRowType> for FieldSchema {
    fn from(value: ExecResponseRowType) -> (schema: Self) {
        FieldSchema {
            name: value.name,
            type_: value.type_,
            scale: value.scale,
            precision: value.precision,
            nullable: value.nullable,
        }
    }
}

/// The fields that describe columns.
pub open spec fn schema_of(rowtype: Seq<ExecResponseRowType>) -> Seq<FieldSchema> {
    rowtype.map_values(
        |row: ExecResponseRowType|
            <FieldSchema as vstd::std_specs::convert::FromSpec<ExecResponseRowType>>::from_spec(
                row,
            ),
    )
}

/// Describes columns, in their order.
pub fn field_schemas(rowtype: Vec<ExecResponseRowType>) -> (schema: Vec<FieldSchema>)
    ensures
        schema@ == schema_of(rowtype@),
{
    let mut schema: Vec<FieldSchema> = Vec::new();
    for row in rows: rowtype.into_iter()
        invariant
            schema@ == schema_of(rows.seq().take(rows.index())),
    {
        schema.push(FieldSchema::from(row));
    }
    schema
}

/// The text of a JSON value.
pub uninterp spec fn json_text(value: Value) -> Seq<char>;

/// Formats a JSON value by its `Display`. Trusted: the text is determined by the value.
#[verifier::external_body]
fn json_to_text(value: &Value) -> (text: String)
    ensures
        text@ == json_text(*value),
{
    format!("{}", value)
}

impl JsonResult {
    /// The result as JSON text.
    pub fn to_string(&self) -> (text: String)
        ensures
            text@ == json_text(self.value),
    {
        json_to_text(&self.value)
    }
}

/// The result of a query. Arrow is returned by default for all SELECT statements, unless
/// there is a session configuration issue or it is a different statement type.
pub enum QueryResult {
    Arrow(Vec<RecordBatch>),
    Json(JsonResult),
    Empty,
}

/// The undecoded result of a query. It can be turned into a [`QueryResult`].
pub enum RawQueryResult {
    /// Chunks of the Arrow IPC streaming format.
    Bytes(Vec<Bytes>),
    /// The JSON payload is already decoded, being part of the answer itself.
    Json(JsonResult),
    Empty,
}

// ---------------------------------------------------------------------------
// Decoding
// ---------------------------------------------------------------------------

/// What decoding comes to.
pub enum Decoded {
    /// Batches.
    Batches(Seq<RecordBatch>),
    /// An error in opening a stream or in flattening a batch.
    Error(ArrowError),
    /// An error in reading a stream that was opened. Its text may differ from one reader of
    /// the same bytes to another, so that it is for the reader to name it.
    ReadError,
    /// A marked column whose scale cannot be computed with.
    Unsupported,
    /// Bytes that cannot be read.
    Unreadable,
}

/// Batches followed by what decoding the rest comes to.
pub open spec fn prepend(head: Seq<RecordBatch>, tail: Decoded) -> Decoded {
    match tail {
        Decoded::Batches(batches) => Decoded::Batches(head + batches),
        other => other,
    }
}

/// What flattening one outcome of a stream gives; `None` where the scale of a marked column
/// cannot be computed with.
pub open spec fn item_outcome(item: Result<RecordBatch, ArrowError>) -> Option<
    Result<RecordBatch, ArrowError>,
> {
    match item {
        Err(error) => Some(Err(error)),
        Ok(batch) => if flatten::scales_supported(batch) {
            Some(flatten::flat_batch(batch))
        } else {
            None
        },
    }
}

/// What decoding the steps of a stream comes to: each batch flattened, up to the first error.
pub open spec fn stream_outcome(steps: Seq<Step>) -> Decoded
    decreases steps.len(),
{
    if steps.len() == 0 {
        Decoded::Batches(Seq::empty())
    } else {
        match steps[0] {
            Step::Unreadable => Decoded::Unreadable,
            Step::Error => Decoded::ReadError,
            Step::Batch(batch) => match item_outcome(Ok(batch)) {
                None => Decoded::Unsupported,
                Some(Err(error)) => Decoded::Error(error),
                Some(Ok(flat)) => prepend(seq![flat], stream_outcome(steps.drop_first())),
            },
        }
    }
}

/// What decoding all that one reader has still to hand out comes to. Here an error in reading
/// is the one that this reader hands out.
pub open spec fn rest_outcome(items: Seq<Option<Result<RecordBatch, ArrowError>>>) -> Decoded
    decreases items.len(),
{
    if items.len() == 0 {
        Decoded::Batches(Seq::empty())
    } else {
        match items[0] {
            None => Decoded::Unreadable,
            Some(item) => match item_outcome(item) {
                None => Decoded::Unsupported,
                Some(Err(error)) => Decoded::Error(error),
                Some(Ok(flat)) => prepend(seq![flat], rest_outcome(items.drop_first())),
            },
        }
    }
}

/// Whether a reader is one that was opened on a chunk, and has handed out nothing yet.
pub open spec fn reads(reader: StreamReader<Reader<Bytes>>, chunk: Seq<u8>) -> bool {
    arrow::ipc_stream(chunk) == Opening::Stream(arrow::steps_of(arrow::stream_rest(reader)))
}

/// Whether an error is the one that a reader of a chunk hands out in place of a batch.
pub open spec fn is_read_error(error: ArrowError, chunk: Seq<u8>) -> bool {
    exists|reader: StreamReader<Reader<Bytes>>|
        #[trigger] reads(reader, chunk) && rest_outcome(arrow::stream_rest(reader))
            == Decoded::Error(error)
}

/// What decoding a chunk comes to.
pub open spec fn chunk_outcome(chunk: Seq<u8>) -> Decoded {
    match arrow::ipc_stream(chunk) {
        Opening::Unreadable => Decoded::Unreadable,
        Opening::Error(error) => Decoded::Error(error),
        Opening::Stream(steps) => stream_outcome(steps),
    }
}

/// What decoding chunks comes to: the batches of each in order, up to the first error.
pub open spec fn chunks_outcome(chunks: Seq<Seq<u8>>) -> Decoded
    decreases chunks.len(),
{
    if chunks.len() == 0 {
        Decoded::Batches(Seq::empty())
    } else {
        match chunk_outcome(chunks[0]) {
            Decoded::Batches(batches) => prepend(batches, chunks_outcome(chunks.drop_first())),
            other => other,
        }
    }
}

/// The bytes of chunks.
pub open spec fn chunk_bytes(chunks: Seq<Bytes>) -> Seq<Seq<u8>> {
    chunks.map_values(|chunk: Bytes| arrow::bytes_of(chunk))
}

/// Whether no column of any batch is marked.
pub open spec fn all_flat(batches: Seq<RecordBatch>) -> bool {
    forall|i: int| 0 <= i < batches.len() ==> !#[trigger] flatten::has_marked(batches[i])
}

/// Whether an executable outcome is the one that a model describes; it is `None` for a scale
/// that cannot be computed with.
pub open spec fn agrees(
    outcome: Option<Result<Vec<RecordBatch>, ArrowError>>,
    model: Decoded,
) -> bool {
    match model {
        Decoded::Batches(batches) => {
            &&& outcome matches Some(Ok(decoded))
            &&& decoded@ == batches
            &&& all_flat(batches)
        },
        Decoded::Error(error) => outcome == Some(Err::<Vec<RecordBatch>, ArrowError>(error)),
        Decoded::ReadError => outcome matches Some(Err(_)),
        Decoded::Unsupported => outcome is None,
        Decoded::Unreadable => false,
    }
}

/// Whether an outcome is that of decoding a chunk. An error in reading it is the one that its
/// reader handed out.
pub open spec fn decodes_chunk(
    outcome: Option<Result<Vec<RecordBatch>, ArrowError>>,
    chunk: Seq<u8>,
) -> bool {
    &&& agrees(outcome, chunk_outcome(chunk))
    &&& chunk_outcome(chunk) is ReadError ==> is_read_error((outcome->0)->Err_0, chunk)
}

/// Whether the chunk at an index is the one at which the decoding of chunks ends with an error
/// in reading, and the error is the one that its reader handed out.
pub open spec fn read_fails_at(error: ArrowError, chunks: Seq<Seq<u8>>, i: int) -> bool {
    &&& 0 <= i < chunks.len()
    &&& chunks_outcome(chunks.take(i)) is Batches
    &&& chunk_outcome(chunks[i]) is ReadError
    &&& is_read_error(error, chunks[i])
}

/// Whether an outcome is that of decoding chunks. An error in reading them is the one that the
/// reader of the first chunk to fail handed out.
pub open spec fn decodes_chunks(
    outcome: Option<Result<Vec<RecordBatch>, ArrowError>>,
    chunks: Seq<Seq<u8>>,
) -> bool {
    &&& agrees(outcome, chunks_outcome(chunks))
    &&& chunks_outcome(chunks) is ReadError ==> exists|i: int| #[trigger]
        read_fails_at((outcome->0)->Err_0, chunks, i)
}

/// Whether decoding a raw result gives an outcome: chunks become batches, and everything
/// else stays as it is.
pub open spec fn decodes_to(
    raw: RawQueryResult,
    outcome: Option<Result<QueryResult, ArrowError>>,
) -> bool {
    match raw {
        RawQueryResult::Bytes(chunks) => match outcome {
            Some(Ok(QueryResult::Arrow(batches))) => decodes_chunks(
                Some(Ok(batches)),
                chunk_bytes(chunks@),
            ),
            Some(Ok(_)) => false,
            Some(Err(error)) => decodes_chunks(Some(Err(error)), chunk_bytes(chunks@)),
            None => decodes_chunks(None, chunk_bytes(chunks@)),
        },
        RawQueryResult::Json(json) => outcome == Some(
            Ok::<QueryResult, ArrowError>(QueryResult::Json(json)),
        ),
        RawQueryResult::Empty => outcome == Some(Ok::<QueryResult, ArrowError>(QueryResult::Empty)),
    }
}

/// Whether the chunks of a raw result, as far as decoding gets, can be read without a panic of
/// the reader.
pub open spec fn readable(raw: RawQueryResult) -> bool {
    raw matches RawQueryResult::Bytes(chunks) ==> chunks_outcome(chunk_bytes(chunks@))
        !is Unreadable
}

/// Whether a raw result can be decoded: it is readable, and does not reach a marked column
/// whose scale cannot be computed with.
pub open spec fn decodable(raw: RawQueryResult) -> bool {
    &&& readable(raw)
    &&& raw matches RawQueryResult::Bytes(chunks) ==> chunks_outcome(chunk_bytes(chunks@))
        !is Unsupported
}

proof fn lemma_prepend_nothing(tail: Decoded)
    ensures
        prepend(Seq::empty(), tail) == tail,
{
    if let Decoded::Batches(batches) = tail {
        assert(Seq::<RecordBatch>::empty() + batches =~= batches);
    }
}

proof fn lemma_prepend_twice(first: Seq<RecordBatch>, second: Seq<RecordBatch>, tail: Decoded)
    ensures
        prepend(first, prepend(second, tail)) == prepend(first + second, tail),
{
    if let Decoded::Batches(batches) = tail {
        assert(first + (second + batches) =~= (first + second) + batches);
    }
}

/// What one reader comes to is what its steps come to, but for naming an error in reading.
proof fn lemma_rest_follows_steps(items: Seq<Option<Result<RecordBatch, ArrowError>>>)
    ensures
        match stream_outcome(arrow::steps_of(items)) {
            Decoded::ReadError => rest_outcome(items) is Error,
            other => rest_outcome(items) == other,
        },
    decreases items.len(),
{
    let steps = arrow::steps_of(items);
    if items.len() > 0 {
        assert(steps[0] == arrow::step_of(items[0]));
        assert(steps.drop_first() =~= arrow::steps_of(items.drop_first()));
        lemma_rest_follows_steps(items.drop_first());
    }
}

/// Flattens one outcome of a stream; `None` where the scale of a marked column cannot be
/// computed with.
pub fn flatten_item(item: Result<RecordBatch, ArrowError>) -> (outcome: Option<
    Result<RecordBatch, ArrowError>,
>)
    ensures
        outcome == item_outcome(item),
        outcome matches Some(Ok(flat)) ==> !flatten::has_marked(flat),
{
    match item {
        Err(error) => Some(Err(error)),
        Ok(batch) => {
            let outcome = flatten::try_flatten_snowflake_types(batch);
            proof {
                if outcome matches Some(Ok(_)) {
                    flatten::law_flat_batch_is_unmarked(batch, (outcome->0)->Ok_0);
                }
            }
            outcome
        },
    }
}

/// The batches that a reader has still to hand out, flattened and in order, or the first error
/// met. `None` where the scale of a marked column cannot be computed with.
pub fn drain(reader: StreamReader<Reader<Bytes>>) -> (outcome: Option<
    Result<Vec<RecordBatch>, ArrowError>,
>)
    requires
        rest_outcome(arrow::stream_rest(reader)) !is Unreadable,
    ensures
        agrees(outcome, rest_outcome(arrow::stream_rest(reader))),
{
    let ghost model = rest_outcome(arrow::stream_rest(reader));
    let mut record_batches = reader;
    let mut res: Vec<RecordBatch> = Vec::new();
    proof {
        lemma_prepend_nothing(model);
    }
    loop
        invariant
            model == rest_outcome(arrow::stream_rest(reader)),
            model !is Unreadable,
            all_flat(res@),
            model == prepend(res@, rest_outcome(arrow::stream_rest(record_batches))),
        decreases arrow::stream_rest(record_batches).len(),
    {
        let ghost rest = arrow::stream_rest(record_batches);
        match arrow::next_batch(&mut record_batches) {
            None => {
                proof {
                    assert(res@ + Seq::<RecordBatch>::empty() =~= res@);
                }
                return Some(Ok(res));
            },
            Some(item) => match flatten_item(item) {
                Some(Ok(flat)) => {
                    proof {
                        lemma_prepend_twice(res@, seq![flat], rest_outcome(rest.drop_first()));
                        assert(res@ + seq![flat] =~= res@.push(flat));
                    }
                    res.push(flat);
                },
                Some(Err(error)) => {
                    return Some(Err(error));
                },
                None => {
                    return None;
                },
            },
        }
    }
}

/// Copies of chunks, in order.
fn copy_chunks(chunks: &Vec<Bytes>) -> (copies: Vec<Bytes>)
    ensures
        chunk_bytes(copies@) == chunk_bytes(chunks@),
{
    let mut copies: Vec<Bytes> = Vec::with_capacity(chunks.len());
    let mut i: usize = 0;
    while i < chunks.len()
        invariant
            i <= chunks.len(),
            chunk_bytes(copies@) == chunk_bytes(chunks@.take(i as int)),
        decreases chunks.len() - i,
    {
        let ghost before = copies@;
        copies.push(arrow::copy_bytes(&chunks[i]));
        proof {
            assert(chunk_bytes(copies@) =~= chunk_bytes(before).push(
                arrow::bytes_of(chunks[i as int]),
            ));
            assert(chunk_bytes(chunks@.take(i + 1)) =~= chunk_bytes(
                chunks@.take(i as int),
            ).push(arrow::bytes_of(chunks[i as int])));
        }
        i = i + 1;
    }
    proof {
        assert(chunks@.take(i as int) =~= chunks@);
    }
    copies
}

impl RawQueryResult {
    /// Whether the result can be decoded, found out on a copy of it.
    pub fn is_decodable(&self) -> (found: bool)
        requires
            readable(*self),
        ensures
            found == decodable(*self),
    {
        match self {
            RawQueryResult::Bytes(bytes) => Self::flat_bytes_to_batches(
                copy_chunks(bytes),
            ).is_some(),
            _ => true,
        }
    }

    /// Decodes chunks of the Arrow IPC streaming format and flattens the batches in them.
    /// `None` where the scale of a marked column cannot be computed with.
    pub fn try_deserialize_arrow(self) -> (outcome: Option<Result<QueryResult, ArrowError>>)
        requires
            readable(self),
        ensures
            decodes_to(self, outcome),
    {
        match self {
            RawQueryResult::Bytes(bytes) => match Self::flat_bytes_to_batches(bytes) {
                Some(Ok(batches)) => Some(Ok(QueryResult::Arrow(batches))),
                Some(Err(error)) => Some(Err(error)),
                None => None,
            },
            other => match other.deserialize_or_return() {
                Ok(result) => Some(result),
                Err(_) => None,
            },
        }
    }

    /// Decodes the result where that can be done, and hands it back unchanged where it cannot.
    /// Chunks are decoded twice: once on a copy, to find out.
    pub fn deserialize_or_return(self) -> (outcome: Result<
        Result<QueryResult, ArrowError>,
        RawQueryResult,
    >)
        requires
            readable(self),
        ensures
            match outcome {
                Ok(result) => decodes_to(self, Some(result)),
                Err(raw) => raw == self && !decodable(self),
            },
    {
        if self.is_decodable() {
            Ok(self.deserialize_arrow())
        } else {
            Err(self)
        }
    }

    /// Decodes chunks of the Arrow IPC streaming format and flattens the batches in them.
    pub fn deserialize_arrow(self) -> (result: Result<QueryResult, ArrowError>)
        requires
            decodable(self),
        ensures
            decodes_to(self, Some(result)),
    {
        match self {
            RawQueryResult::Bytes(bytes) => match Self::flat_bytes_to_batches(bytes).unwrap() {
                Ok(batches) => Ok(QueryResult::Arrow(batches)),
                Err(error) => Err(error),
            },
            RawQueryResult::Json(json) => Ok(QueryResult::Json(json)),
            RawQueryResult::Empty => Ok(QueryResult::Empty),
        }
    }

    /// The batches of all chunks, in order. `None` where the scale of a marked column cannot be
    /// computed with.
    pub fn flat_bytes_to_batches(bytes: Vec<Bytes>) -> (outcome: Option<
        Result<Vec<RecordBatch>, ArrowError>,
    >)
        requires
            chunks_outcome(chunk_bytes(bytes@)) !is Unreadable,
        ensures
            decodes_chunks(outcome, chunk_bytes(bytes@)),
    {
        let mut res: Vec<RecordBatch> = Vec::new();
        let ghost chunks = chunk_bytes(bytes@);
        proof {
            assert(chunks.skip(0) =~= chunks);
            assert(chunks.take(0) =~= Seq::empty());
            lemma_prepend_nothing(chunks_outcome(chunks));
        }
        for b in rest: bytes.into_iter()
            invariant
                chunks == chunk_bytes(rest.seq()),
                all_flat(res@),
                chunks_outcome(chunks) !is Unreadable,
                chunks_outcome(chunks.take(rest.index())) == Decoded::Batches(res@),
                chunks_outcome(chunks) == prepend(
                    res@,
                    chunks_outcome(chunks.skip(rest.index())),
                ),
        {
            let ghost at = rest.index();
            let ghost before = res@;
            proof {
                assert(chunks.skip(at)[0] == arrow::bytes_of(b));
                assert(chunks.skip(at).drop_first() =~= chunks.skip(at + 1));
            }
            match Self::bytes_to_batches(b) {
                Some(Ok(mut batches)) => {
                    proof {
                        lemma_prepend_twice(
                            before,
                            batches@,
                            chunks_outcome(chunks.skip(at + 1)),
                        );
                        assert(chunks.take(at + 1) =~= chunks.take(at) + seq![chunks[at]]);
                        law_chunks_decode_in_order(chunks.take(at), seq![chunks[at]]);
                        law_one_chunk_decodes_alone(chunks[at]);
                    }
                    res.append(&mut batches);
                },
                failed => {
                    proof {
                        if chunk_outcome(chunks[at]) is ReadError {
                            assert(read_fails_at((failed->0)->Err_0, chunks, at));
                        }
                    }
                    return failed;
                },
            }
        }
        proof {
            assert(chunks.skip(chunks.len() as int) =~= Seq::empty());
            assert(res@ + Seq::<RecordBatch>::empty() =~= res@);
        }
        Some(Ok(res))
    }

    /// The batches of one chunk, in order. `None` where the scale of a marked column cannot be
    /// computed with.
    pub fn bytes_to_batches(bytes: Bytes) -> (outcome: Option<
        Result<Vec<RecordBatch>, ArrowError>,
    >)
        requires
            chunk_outcome(arrow::bytes_of(bytes)) !is Unreadable,
        ensures
            decodes_chunk(outcome, arrow::bytes_of(bytes)),
    {
        let ghost chunk = arrow::bytes_of(bytes);
        match arrow::open_stream(bytes) {
            Ok(reader) => {
                proof {
                    assert(reads(reader, chunk));
                    lemma_rest_follows_steps(arrow::stream_rest(reader));
                }
                drain(reader)
            },
            Err(error) => Some(Err(error)),
        }
    }
}

// ---------------------------------------------------------------------------
// Laws
// ---------------------------------------------------------------------------

/// Chunks decode one after another: the batches of the first come before those of the
/// following ones, and what does not decode there ends it all.
pub proof fn law_chunks_decode_in_order(first: Seq<Seq<u8>>, second: Seq<Seq<u8>>)
    ensures
        chunks_outcome(first + second) == (match chunks_outcome(first) {
            Decoded::Batches(batches) => prepend(batches, chunks_outcome(second)),
            other => other,
        }),
    decreases first.len(),
{
    if first.len() == 0 {
        assert(first + second =~= second);
        lemma_prepend_nothing(chunks_outcome(second));
    } else {
        assert((first + second).drop_first() =~= first.drop_first() + second);
        law_chunks_decode_in_order(first.drop_first(), second);
        if let Decoded::Batches(head) = chunk_outcome(first[0]) {
            if let Decoded::Batches(tail) = chunks_outcome(first.drop_first()) {
                lemma_prepend_twice(head, tail, chunks_outcome(second));
            }
        }
    }
}

/// Decoding two lists of chunks as one gives the batches of the first and then those of the
/// second, with nothing dropped or repeated.
pub proof fn law_joined_lists_give_joined_batches(
    first: Seq<Bytes>,
    second: Seq<Bytes>,
    first_batches: Vec<RecordBatch>,
    second_batches: Vec<RecordBatch>,
    outcome: Option<Result<Vec<RecordBatch>, ArrowError>>,
)
    requires
        agrees(Some(Ok(first_batches)), chunks_outcome(chunk_bytes(first))),
        agrees(Some(Ok(second_batches)), chunks_outcome(chunk_bytes(second))),
        agrees(outcome, chunks_outcome(chunk_bytes(first + second))),
    ensures
        outcome matches Some(Ok(batches)) && batches@ == first_batches@ + second_batches@,
{
    assert(chunk_bytes(first + second) =~= chunk_bytes(first) + chunk_bytes(second));
    law_chunks_decode_in_order(chunk_bytes(first), chunk_bytes(second));
}

/// No chunks decode to no batches.
pub proof fn law_no_chunks_decode_to_no_batches(
    outcome: Option<Result<Vec<RecordBatch>, ArrowError>>,
)
    requires
        agrees(outcome, chunks_outcome(chunk_bytes(Seq::empty()))),
    ensures
        outcome matches Some(Ok(batches)) && batches@.len() == 0,
{
}

/// A single chunk decodes to its own batches.
pub proof fn law_one_chunk_decodes_alone(chunk: Seq<u8>)
    ensures
        chunks_outcome(seq![chunk]) == chunk_outcome(chunk),
{
    reveal_with_fuel(chunks_outcome, 2);
    if let Decoded::Batches(batches) = chunk_outcome(chunk) {
        assert(batches + Seq::<RecordBatch>::empty() =~= batches);
    }
}

/// Only chunks are decoded: a JSON result and an empty one stay as they are, without fail.
pub proof fn law_only_chunks_are_decoded(
    raw: RawQueryResult,
    outcome: Option<Result<QueryResult, ArrowError>>,
)
    requires
        raw !is Bytes,
        decodes_to(raw, outcome),
    ensures
        outcome matches Some(Ok(_)),
        raw matches RawQueryResult::Json(json) ==> (outcome->0)->Ok_0 == QueryResult::Json(json),
        raw is Empty ==> (outcome->0)->Ok_0 == QueryResult::Empty,
{
}

/// One batch comes out for each step of a stream that decodes, in order.
pub proof fn law_stream_keeps_its_batches(steps: Seq<Step>, i: int)
    requires
        stream_outcome(steps) is Batches,
        0 <= i < steps.len(),
    ensures
        stream_outcome(steps)->Batches_0.len() == steps.len(),
        steps[i] is Batch,
        flatten::flat_batch(steps[i]->Batch_0) == Ok::<RecordBatch, ArrowError>(
            stream_outcome(steps)->Batches_0[i],
        ),
    decreases steps.len(),
{
    if steps.len() > 1 {
        if i > 0 {
            law_stream_keeps_its_batches(steps.drop_first(), i - 1);
        } else {
            law_stream_keeps_its_batches(steps.drop_first(), 0);
        }
    } else {
        reveal_with_fuel(stream_outcome, 2);
    }
}

/// A schema describes the columns one by one, in their order, each with all that the service
/// says of it.
pub proof fn law_schema_describes_every_column(
    rowtype: Seq<ExecResponseRowType>,
    schema: Seq<FieldSchema>,
    i: int,
)
    requires
        schema == schema_of(rowtype),
        0 <= i < rowtype.len(),
    ensures
        schema.len() == rowtype.len(),
        schema[i].name == rowtype[i].name,
        schema[i].type_ == rowtype[i].type_,
        schema[i].scale == rowtype[i].scale,
        schema[i].precision == rowtype[i].precision,
        schema[i].nullable == rowtype[i].nullable,
{
}

/// A description from the service is taken over as it is.
pub proof fn law_descriptions_are_taken_over(row: ExecResponseRowType)
    ensures
        ({
            let schema =
                <FieldSchema as vstd::std_specs::convert::FromSpec<ExecResponseRowType>>::from_spec(
                row,
            );
            &&& schema.name == row.name
            &&& schema.type_ == row.type_
            &&& schema.scale == row.scale
            &&& schema.precision == row.precision
            &&& schema.nullable == row.nullable
        }),
{
}

/// An error stays itself, and a batch is flattened where its scales can be computed with.
pub proof fn law_items_are_flattened_or_passed_on(batch: RecordBatch, error: ArrowError)
    ensures
        item_outcome(Err(error)) == Some(Err::<RecordBatch, ArrowError>(error)),
        item_outcome(Ok(batch)) is Some <==> flatten::scales_supported(batch),
        item_outcome(Ok(batch)) matches Some(flat) ==> flat == flatten::flat_batch(batch),
{
}

/// Whether each step hands out a batch that flattens, to the batch at its place.
pub open spec fn all_decode(steps: Seq<Step>, batches: Seq<RecordBatch>) -> bool {
    &&& steps.len() == batches.len()
    &&& forall|j: int|
        0 <= j < steps.len() ==> (#[trigger] steps[j] matches Step::Batch(batch)
            && flatten::scales_supported(batch) && flatten::flat_batch(batch) == Ok::<
            RecordBatch,
            ArrowError,
        >(batches[j]))
}

/// Steps that all decode come before what the following ones come to.
proof fn lemma_steps_decode_in_order(steps: Seq<Step>, batches: Seq<RecordBatch>)
    requires
        batches.len() <= steps.len(),
        all_decode(steps.take(batches.len() as int), batches),
    ensures
        stream_outcome(steps) == prepend(
            batches,
            stream_outcome(steps.skip(batches.len() as int)),
        ),
    decreases batches.len(),
{
    if batches.len() == 0 {
        assert(steps.skip(0) =~= steps);
        assert(batches =~= Seq::empty());
        lemma_prepend_nothing(stream_outcome(steps));
    } else {
        let rest = steps.drop_first();
        let tail = batches.drop_first();
        let head = steps.take(batches.len() as int);
        assert(head[0] == steps[0]);
        assert forall|j: int| 0 <= j < tail.len() implies #[trigger] rest.take(
            tail.len() as int,
        )[j] == head[j + 1] by {
        }
        assert(all_decode(rest.take(tail.len() as int), tail));
        lemma_steps_decode_in_order(rest, tail);
        assert(rest.skip(tail.len() as int) =~= steps.skip(batches.len() as int));
        lemma_prepend_twice(
            seq![batches[0]],
            tail,
            stream_outcome(steps.skip(batches.len() as int)),
        );
        assert(seq![batches[0]] + tail =~= batches);
    }
}

/// A stream whose steps all decode comes to their batches.
proof fn lemma_steps_all_decode(steps: Seq<Step>, batches: Seq<RecordBatch>)
    requires
        all_decode(steps, batches),
    ensures
        stream_outcome(steps) == Decoded::Batches(batches),
{
    assert(steps.take(batches.len() as int) =~= steps);
    lemma_steps_decode_in_order(steps, batches);
    assert(steps.skip(batches.len() as int) =~= Seq::empty());
    assert(batches + Seq::<RecordBatch>::empty() =~= batches);
}

/// Chunks that all decode come to their batches.
proof fn lemma_chunks_all_decode(
    chunks: Seq<Seq<u8>>,
    steps: Seq<Seq<Step>>,
    parts: Seq<Seq<RecordBatch>>,
)
    requires
        steps.len() == chunks.len(),
        parts.len() == chunks.len(),
        forall|i: int|
            0 <= i < chunks.len() ==> arrow::ipc_stream(#[trigger] chunks[i]) == Opening::Stream(
                steps[i],
            ) && all_decode(steps[i], parts[i]),
    ensures
        chunks_outcome(chunks) == Decoded::Batches(parts.flatten()),
    decreases chunks.len(),
{
    if chunks.len() > 0 {
        assert(arrow::ipc_stream(chunks[0]) == Opening::Stream(steps[0]));
        lemma_steps_all_decode(steps[0], parts[0]);
        assert forall|i: int| 0 <= i < chunks.drop_first().len() implies arrow::ipc_stream(
            #[trigger] chunks.drop_first()[i],
        ) == Opening::Stream(steps.drop_first()[i]) && all_decode(
            steps.drop_first()[i],
            parts.drop_first()[i],
        ) by {
            assert(chunks.drop_first()[i] == chunks[i + 1]);
        }
        lemma_chunks_all_decode(chunks.drop_first(), steps.drop_first(), parts.drop_first());
    }
}

/// Where every step of every chunk hands out a batch that flattens, the result is all those
/// batches, flattened, chunk after chunk and step after step.
pub proof fn law_every_batch_is_returned(
    chunks: Vec<Bytes>,
    steps: Seq<Seq<Step>>,
    parts: Seq<Seq<RecordBatch>>,
    outcome: Option<Result<QueryResult, ArrowError>>,
)
    requires
        steps.len() == chunks@.len(),
        parts.len() == chunks@.len(),
        forall|i: int|
            0 <= i < chunks@.len() ==> arrow::ipc_stream(arrow::bytes_of(#[trigger] chunks@[i]))
                == Opening::Stream(steps[i]) && all_decode(steps[i], parts[i]),
        decodes_to(RawQueryResult::Bytes(chunks), outcome),
    ensures
        outcome matches Some(Ok(QueryResult::Arrow(batches))) && batches@ == parts.flatten(),
        readable(RawQueryResult::Bytes(chunks)),
        decodable(RawQueryResult::Bytes(chunks)),
{
    let bytes = chunk_bytes(chunks@);
    assert forall|i: int| 0 <= i < bytes.len() implies arrow::ipc_stream(#[trigger] bytes[i])
        == Opening::Stream(steps[i]) && all_decode(steps[i], parts[i]) by {
        assert(bytes[i] == arrow::bytes_of(chunks@[i]));
    }
    lemma_chunks_all_decode(bytes, steps, parts);
}

/// Behind chunks that all decode, the first that does not decides: an error in opening it comes
/// back; else, behind steps that all decode, an error in flattening comes back, an error in
/// reading is an error, and a scale that cannot be computed with ends it without an outcome.
pub proof fn law_the_first_failure_decides(
    chunks: Vec<Bytes>,
    steps: Seq<Seq<Step>>,
    parts: Seq<Seq<RecordBatch>>,
    outcome: Option<Result<QueryResult, ArrowError>>,
    last: Seq<Step>,
    before: Seq<RecordBatch>,
)
    requires
        parts.len() < chunks@.len(),
        steps.len() == parts.len(),
        forall|i: int|
            0 <= i < parts.len() ==> arrow::ipc_stream(arrow::bytes_of(#[trigger] chunks@[i]))
                == Opening::Stream(steps[i]) && all_decode(steps[i], parts[i]),
        decodes_to(RawQueryResult::Bytes(chunks), outcome),
    ensures
        arrow::ipc_stream(arrow::bytes_of(chunks@[parts.len() as int])) matches Opening::Error(
            error,
        ) ==> outcome == Some(Err::<QueryResult, ArrowError>(error)),
        arrow::ipc_stream(arrow::bytes_of(chunks@[parts.len() as int])) == Opening::Stream(last)
            && before.len() < last.len() && all_decode(last.take(before.len() as int), before)
            ==> match last[before.len() as int] {
            Step::Batch(batch) => if !flatten::scales_supported(batch) {
                outcome is None
            } else {
                flatten::flat_batch(batch) matches Err(error) ==> outcome == Some(
                    Err::<QueryResult, ArrowError>(error),
                )
            },
            Step::Error => outcome matches Some(Err(_)),
            Step::Unreadable => true,
        },
{
    let bytes = chunk_bytes(chunks@);
    let k = parts.len() as int;
    let good = bytes.take(k);
    let rest = bytes.skip(k);
    assert forall|i: int| 0 <= i < good.len() implies arrow::ipc_stream(#[trigger] good[i])
        == Opening::Stream(steps[i]) && all_decode(steps[i], parts[i]) by {
        assert(good[i] == arrow::bytes_of(chunks@[i]));
    }
    lemma_chunks_all_decode(good, steps, parts);
    assert(good + rest =~= bytes);
    law_chunks_decode_in_order(good, rest);
    assert(rest[0] == arrow::bytes_of(chunks@[k]));
    if arrow::ipc_stream(rest[0]) == Opening::Stream(last) && before.len() < last.len()
        && all_decode(last.take(before.len() as int), before) {
        lemma_steps_decode_in_order(last, before);
        assert(last.skip(before.len() as int)[0] == last[before.len() as int]);
    }
}

/// What one reader hands out before its first failure comes before what the rest comes to.
proof fn lemma_items_decode_in_order(
    items: Seq<Option<Result<RecordBatch, ArrowError>>>,
    batches: Seq<RecordBatch>,
)
    requires
        batches.len() <= items.len(),
        all_decode(arrow::steps_of(items).take(batches.len() as int), batches),
    ensures
        rest_outcome(items) == prepend(batches, rest_outcome(items.skip(batches.len() as int))),
    decreases batches.len(),
{
    let steps = arrow::steps_of(items);
    if batches.len() == 0 {
        assert(items.skip(0) =~= items);
        assert(batches =~= Seq::empty());
        lemma_prepend_nothing(rest_outcome(items));
    } else {
        let rest = items.drop_first();
        let tail = batches.drop_first();
        let head = steps.take(batches.len() as int);
        assert(head[0] == arrow::step_of(items[0]));
        assert forall|j: int| 0 <= j < tail.len() implies #[trigger] arrow::steps_of(rest).take(
            tail.len() as int,
        )[j] == head[j + 1] by {
        }
        assert(all_decode(arrow::steps_of(rest).take(tail.len() as int), tail));
        lemma_items_decode_in_order(rest, tail);
        assert(rest.skip(tail.len() as int) =~= items.skip(batches.len() as int));
        lemma_prepend_twice(
            seq![batches[0]],
            tail,
            rest_outcome(items.skip(batches.len() as int)),
        );
        assert(seq![batches[0]] + tail =~= batches);
    }
}

/// Draining a reader returns every batch that it hands out, flattened and in order, up to its
/// end; the first error that it hands out comes back instead.
pub proof fn law_a_reader_is_drained_to_its_end_or_first_error(
    items: Seq<Option<Result<RecordBatch, ArrowError>>>,
    batches: Seq<RecordBatch>,
    outcome: Option<Result<Vec<RecordBatch>, ArrowError>>,
)
    requires
        batches.len() <= items.len(),
        all_decode(arrow::steps_of(items).take(batches.len() as int), batches),
        agrees(outcome, rest_outcome(items)),
    ensures
        batches.len() == items.len() ==> (outcome matches Some(Ok(drained)) && drained@
            == batches),
        batches.len() < items.len() ==> (items[batches.len() as int] matches Some(Err(error))
            ==> outcome == Some(Err::<Vec<RecordBatch>, ArrowError>(error))),
{
    lemma_items_decode_in_order(items, batches);
    let rest = items.skip(batches.len() as int);
    if batches.len() == items.len() {
        assert(rest =~= Seq::empty());
        assert(batches + Seq::<RecordBatch>::empty() =~= batches);
    } else {
        assert(rest[0] == items[batches.len() as int]);
    }
}

/// An error in reading a chunk is the very one that a reader opened on it hands out, in the
/// place where reading fails.
pub proof fn law_a_read_error_is_that_of_the_reader(
    chunk: Seq<u8>,
    steps: Seq<Step>,
    before: Seq<RecordBatch>,
    error: ArrowError,
)
    requires
        arrow::ipc_stream(chunk) == Opening::Stream(steps),
        before.len() < steps.len(),
        all_decode(steps.take(before.len() as int), before),
        steps[before.len() as int] is Error,
        decodes_chunk(Some(Err(error)), chunk),
    ensures
        exists|reader: StreamReader<Reader<Bytes>>|
            arrow::steps_of(#[trigger] arrow::stream_rest(reader)) == steps && arrow::stream_rest(
                reader,
            )[before.len() as int] == Some(Err::<RecordBatch, ArrowError>(error)),
{
    let k = before.len() as int;
    lemma_steps_decode_in_order(steps, before);
    assert(steps.skip(k)[0] == steps[k]);
    let reader = choose|reader: StreamReader<Reader<Bytes>>|
        #[trigger] reads(reader, chunk) && rest_outcome(arrow::stream_rest(reader))
            == Decoded::Error(error);
    let items = arrow::stream_rest(reader);
    assert(arrow::steps_of(items) == steps);
    lemma_items_decode_in_order(items, before);
    assert(items.skip(k)[0] == items[k]);
    assert(steps[k] == arrow::step_of(items[k]));
}

/// Decoding has an outcome exactly where the result is decodable.
pub proof fn law_decodable_results_have_an_outcome(
    raw: RawQueryResult,
    outcome: Option<Result<QueryResult, ArrowError>>,
)
    requires
        decodes_to(raw, outcome),
    ensures
        readable(raw),
        outcome is Some <==> decodable(raw),
{
}

} // verus!
