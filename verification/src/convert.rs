use vstd::prelude::*;
use crate::batch::{build_batches, DEFAULT_BATCH_ROWS};
use crate::errors::{ConversionError, SourceError};
use crate::lines::{decode_lines, lines_view, log_lines};
use crate::schema::log_schema;
use crate::batch::{lemma_nonempty_batches_push, nonempty_batches};
use crate::writer::{encode_container, parquet_fields, parquet_groups, parquet_rows, CompressionChoice, GROUP_ROW_LIMIT};

verus! {

/// The whole pipeline for one source: reads the lines out of the raw bytes of
/// a log file (dropping segments of invalid bytes), builds columnar batches
/// under a one-column schema named `column_name`, and encodes them as a
/// container. On success the returned bytes are a valid container from which
/// a conforming reader recovers exactly the kept lines, in order, under that
/// one non-nullable column — with no row group at all for an empty input, and
/// in exactly one row group for a small input (at most [`DEFAULT_BATCH_ROWS`]
/// kept lines). With no compression the conversion cannot fail; a failure
/// names the writing stage that failed.
pub fn convert_log(input: &Vec<u8>, column_name: String, codec: CompressionChoice) -> (r: Result<
    Vec<u8>,
    ConversionError,
>)
    ensures
        r matches Ok(out) ==> parquet_rows(out@) == Some(log_lines(input@)) && parquet_fields(out@) == Some(seq![(column_name@, false)]),
        r matches Ok(out) ==> (log_lines(input@).len() == 0 ==> parquet_groups(out@) == Some(0nat)),
        r matches Ok(out) ==> (0 < log_lines(input@).len() <= DEFAULT_BATCH_ROWS ==> parquet_groups(out@) == Some(1nat)),
        codec is Uncompressed ==> r is Ok,
        r matches Err(e) ==> e is DestinationUnwritable,
{
    let lines = decode_lines(input);
    let ghost lv = lines@;
    let schema = log_schema(column_name);
    let batches = build_batches(lines, DEFAULT_BATCH_ROWS);
    proof {
        assert(lines_view(lv).len() == lv.len());
        assert(forall|k: int| 0 <= k < batches@.len() ==> #[trigger] batches@[k].rows().len() <= GROUP_ROW_LIMIT);
        if lv.len() <= DEFAULT_BATCH_ROWS {
            assert(batches@ =~= Seq::<crate::batch::Batch>::empty().push(batches@[0]));
            lemma_nonempty_batches_push(Seq::<crate::batch::Batch>::empty(), batches@[0]);
        }
    }
    encode_container(&schema, &batches, codec)
}

/// Runs one conversion per source, in order, with no shared state between
/// them: element `k` of the result depends on element `k` of `sources` alone.
/// A source that could not be read is reported unreadable and skipped; every
/// other source is converted exactly as [`convert_log`] converts it, so one
/// source's failure never touches another's output.
pub fn convert_each(
    sources: &Vec<Result<Vec<u8>, SourceError>>,
    column_name: &String,
    codec: CompressionChoice,
) -> (r: Vec<Result<Vec<u8>, ConversionError>>)
    ensures
        r@.len() == sources@.len(),
        forall|k: int| 0 <= k < sources@.len() ==> match #[trigger] sources@[k] {
            Ok(bytes) => (match r@[k] {
                Ok(out) => parquet_rows(out@) == Some(log_lines(bytes@)) && parquet_fields(out@) == Some(seq![(column_name@, false)]),
                Err(e) => !(codec is Uncompressed) && e is DestinationUnwritable,
            }),
            Err(e) => r@[k] == Result::<Vec<u8>, ConversionError>::Err(
                ConversionError::SourceUnreadable(e),
            ),
        },
{
    let mut out: Vec<Result<Vec<u8>, ConversionError>> = Vec::new();
    let mut i: usize = 0;
    while i < sources.len()
        invariant
            i <= sources@.len(),
            out@.len() == i,
            forall|k: int| 0 <= k < i ==> match #[trigger] sources@[k] {
                Ok(bytes) => (match out@[k] {
                    Ok(o) => parquet_rows(o@) == Some(log_lines(bytes@)) && parquet_fields(o@) == Some(seq![(column_name@, false)]),
                    Err(e) => !(codec is Uncompressed) && e is DestinationUnwritable,
                }),
                Err(e) => out@[k] == Result::<Vec<u8>, ConversionError>::Err(
                    ConversionError::SourceUnreadable(e),
                ),
            },
        decreases sources@.len() - i,
    {
        match &sources[i] {
            Ok(bytes) => {
                let converted = convert_log(bytes, column_name.clone(), codec);
                out.push(converted);
            },
            Err(e) => {
                out.push(Err(ConversionError::SourceUnreadable(*e)));
            },
        }
        i = i + 1;
    }
    out
}

/// Round trip: reading back a container produced from a byte stream yields
/// exactly the stream's kept lines, in their original order. The first
/// hypothesis is what [`convert_log`] ensures of a container it returns; the
/// second is what [`crate::writer::read_container`] ensures of the rows it
/// reads from any bytes.
pub proof fn lemma_round_trip(input: Seq<u8>, container: Seq<u8>, rows: Seq<Seq<char>>)
    requires
        parquet_rows(container) == Some(log_lines(input)),
        parquet_rows(container) == Some(rows),
    ensures
        rows == log_lines(input),
{
}

/// Zero-row validity: a container produced from an empty input is still a
/// valid container that declares its one column, and it holds no rows at all
/// — reading it back yields the empty sequence, not an error. The hypotheses
/// are what [`convert_log`] ensures of a container returned for empty input.
pub proof fn lemma_zero_row_container(container: Seq<u8>, name: Seq<char>)
    requires
        parquet_rows(container) == Some(log_lines(Seq::<u8>::empty())),
        parquet_fields(container) == Some(seq![(name, false)]),
    ensures
        parquet_rows(container) == Some(Seq::<Seq<char>>::empty()),
        parquet_fields(container) matches Some(fields) && fields.len() == 1 && fields[0] == (
            name,
            false,
        ),
{
    assert(crate::lines::split_lines(Seq::<u8>::empty()) =~= Seq::<Seq<u8>>::empty());
    assert(log_lines(Seq::<u8>::empty()) =~= Seq::<Seq<char>>::empty());
}

/// Idempotent schema: two containers written under the same schema definition
/// describe themselves with identical schemas, whatever rows each holds. The
/// hypotheses are what [`convert_log`] ensures of two containers it returns
/// for one column name.
pub proof fn lemma_schema_idempotent(
    fields: Seq<(Seq<char>, bool)>,
    container1: Seq<u8>,
    container2: Seq<u8>,
)
    requires
        parquet_fields(container1) == Some(fields),
        parquet_fields(container2) == Some(fields),
    ensures
        parquet_fields(container1) == parquet_fields(container2),
{
}

} // verus!
