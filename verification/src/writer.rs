use vstd::prelude::*;
use crate::batch::{batches_rows, lemma_batches_rows_push, lemma_nonempty_batches_push, nonempty_batches, Batch};
use crate::errors::{ConversionError, WriteStage};
use crate::lines::lines_view;
use crate::schema::Schema;
use arrow::error::ArrowError;
use arrow::record_batch::RecordBatch;
use parquet::arrow::arrow_writer::ArrowWriter;
use parquet::errors::ParquetError;

verus! {

/// The compression applied to each row group of a container, recorded in its
/// metadata so a reader needs no external hint.
#[derive(Clone, Copy, Debug, PartialEq, Eq, Structural)]
pub enum CompressionChoice {
    /// No compression; the default.
    Uncompressed,
    /// The Snappy codec.
    Snappy,
}

/// A container writer in progress, wrapping the outside crate's writer over
/// an in-memory destination, which Verus cannot take apart.
#[verifier::external_body]
pub struct LogWriter {
    inner: ArrowWriter<Vec<u8>>,
}

/// One columnar batch as the container writer takes it, wrapping the record
/// batch of the outside crate, which Verus cannot take apart.
#[verifier::external_body]
pub struct RowBatch {
    inner: RecordBatch,
}

#[verifier::external_type_specification]
#[verifier::external_body]
pub struct ExParquetError(ParquetError);

#[verifier::external_type_specification]
#[verifier::external_body]
pub struct ExArrowError(ArrowError);

/// The fields of the schema a writer was opened under: each column's name and
/// nullability, in order. Every writer this crate opens holds only UTF-8
/// string columns, so this is the whole of its schema.
pub uninterp spec fn writer_fields(w: LogWriter) -> Seq<(Seq<char>, bool)>;

/// The rows handed to a writer so far, in order.
pub uninterp spec fn writer_rows(w: LogWriter) -> Seq<Seq<char>>;

/// Whether the writer was opened with no compression.
pub uninterp spec fn writer_plain(w: LogWriter) -> bool;

/// The writer's row-group row limit: a single written batch of at most this
/// many rows lands in one row group and is never split.
pub const GROUP_ROW_LIMIT: usize = 1048576;

/// How many row groups a writer has closed so far.
pub uninterp spec fn writer_groups(w: LogWriter) -> nat;

/// How many rows a writer holds buffered, not yet closed into a row group.
pub uninterp spec fn writer_pending(w: LogWriter) -> nat;

/// The fields of the schema a record batch carries: each column's name and
/// nullability, in order. Every batch this crate builds holds one UTF-8
/// string column.
pub uninterp spec fn batch_fields(b: RowBatch) -> Seq<(Seq<char>, bool)>;

/// The rows of a record batch, in order.
pub uninterp spec fn batch_rows(b: RowBatch) -> Seq<Seq<char>>;

/// What a conforming reader decodes from container bytes: the rows of a
/// container holding one string column, in order, or `None` where the bytes
/// are not such a container. The result depends on the bytes alone.
pub uninterp spec fn parquet_rows(bytes: Seq<u8>) -> Option<Seq<Seq<char>>>;

/// What a conforming reader decodes as the schema of container bytes: each
/// field's name and nullability, in order, or `None` where the bytes are not
/// a container. The result depends on the bytes alone: the container is
/// self-describing.
pub uninterp spec fn parquet_fields(bytes: Seq<u8>) -> Option<Seq<(Seq<char>, bool)>>;

/// How many row groups a conforming reader finds in the footer's row-group
/// index of container bytes, or `None` where the bytes are not a container.
/// The result depends on the bytes alone.
pub uninterp spec fn parquet_groups(bytes: Seq<u8>) -> Option<nat>;

/// Relies on `parquet::arrow::arrow_writer::ArrowWriter::try_new` over an
/// in-memory buffer: converting a schema of UTF-8 string fields always
/// succeeds, the magic header goes to a buffer that cannot fail, and the
/// fresh writer has written nothing. The writer properties record the chosen
/// codec for every row group and keep the default row-group bounds: a row
/// limit of [`GROUP_ROW_LIMIT`] and no byte limit.
#[verifier::external_body]
fn new_log_writer(schema: &Schema, codec: CompressionChoice) -> (r: Result<LogWriter, ParquetError>)
    requires
        schema.wf(),
    ensures
        r is Ok,
        r matches Ok(w) ==> writer_fields(w) == schema.model() && writer_rows(w) == Seq::<Seq<char>>::empty() && writer_plain(w) == (codec is Uncompressed) && writer_groups(w) == 0 && writer_pending(w) == 0,
{
    let f = &schema.fields[0];
    let field = arrow::datatypes::Field::new(f.name.clone(), arrow::datatypes::DataType::LargeUtf8, f.nullable);
    let arrow_schema = std::sync::Arc::new(arrow::datatypes::Schema::new(vec![field]));
    let compression = match codec {
        CompressionChoice::Uncompressed => parquet::basic::Compression::UNCOMPRESSED,
        CompressionChoice::Snappy => parquet::basic::Compression::SNAPPY,
    };
    let props = parquet::file::properties::WriterProperties::builder().set_compression(compression)
        .set_writer_version(parquet::file::properties::WriterVersion::PARQUET_2_0).build();
    match ArrowWriter::try_new(Vec::new(), arrow_schema, Some(props)) {
        Ok(w) => Ok(LogWriter { inner: w }),
        Err(e) => Err(e),
    }
}

/// Relies on `arrow::record_batch::RecordBatch::try_new` and
/// `arrow::array::LargeStringArray`: a batch of one string column holding the
/// rows, under the given single-field schema. It never fails for a well-formed
/// schema: its one column matches the schema in count, type and length, a
/// string array built from plain strings holds no null, and the column's
/// 64-bit offsets cannot overflow for rows a process can hold.
#[verifier::external_body]
fn make_batch(schema: &Schema, rows: &Vec<String>) -> (r: Result<RowBatch, ArrowError>)
    requires
        schema.wf(),
    ensures
        r is Ok,
        r matches Ok(b) ==> batch_fields(b) == schema.model() && batch_rows(b) == lines_view(rows@),
{
    let f = &schema.fields[0];
    let field = arrow::datatypes::Field::new(f.name.clone(), arrow::datatypes::DataType::LargeUtf8, f.nullable);
    let arrow_schema = std::sync::Arc::new(arrow::datatypes::Schema::new(vec![field]));
    let array = arrow::array::LargeStringArray::from(rows.clone());
    match RecordBatch::try_new(arrow_schema, vec![std::sync::Arc::new(array)]) {
        Ok(b) => Ok(RowBatch { inner: b }),
        Err(e) => Err(e),
    }
}

/// Relies on `ArrowWriter::write`: appends the batch's rows after the rows
/// already written, under the unchanged schema. Its documentation has it fail
/// when the batch's schema is not the writer's; with the schemas equal and
/// nothing compressed it succeeds, since the rows are buffered in memory.
/// With nothing buffered and the batch within the row limit, the rows land
/// whole: either they stay buffered, or (a non-empty batch that fills a
/// group) they are closed into exactly one new row group.
#[verifier::external_body]
fn write_rows(w: &mut LogWriter, batch: &RowBatch) -> (r: Result<(), ParquetError>)
    ensures
        r is Ok ==> writer_fields(*final(w)) == writer_fields(*old(w)) && writer_plain(*final(w)) == writer_plain(*old(w)) && writer_rows(*final(w)) == writer_rows(*old(w)) + batch_rows(*batch),
        writer_plain(*old(w)) && batch_fields(*batch) == writer_fields(*old(w)) ==> r is Ok,
        r is Ok && writer_pending(*old(w)) == 0 && batch_rows(*batch).len() <= GROUP_ROW_LIMIT ==> (writer_groups(*final(w)) == writer_groups(*old(w)) && writer_pending(*final(w)) == batch_rows(*batch).len()) || (batch_rows(*batch).len() > 0 && writer_groups(*final(w)) == writer_groups(*old(w)) + 1 && writer_pending(*final(w)) == 0),
{
    w.inner.write(&batch.inner)
}

/// Relies on `ArrowWriter::flush`: closes the buffered rows into exactly one
/// new row group, or does nothing when no rows are buffered, so that each
/// batch forms one row group. The rows written, the schema and the codec stay
/// as they are; with nothing compressed it succeeds, since the row group goes
/// to an in-memory buffer.
#[verifier::external_body]
fn close_row_group(w: &mut LogWriter) -> (r: Result<(), ParquetError>)
    ensures
        r is Ok ==> writer_fields(*final(w)) == writer_fields(*old(w)) && writer_plain(*final(w)) == writer_plain(*old(w)) && writer_rows(*final(w)) == writer_rows(*old(w)),
        r is Ok ==> writer_pending(*final(w)) == 0 && writer_groups(*final(w)) == writer_groups(*old(w)) + (if writer_pending(*old(w)) > 0 { 1nat } else { 0nat }),
        writer_plain(*old(w)) ==> r is Ok,
{
    w.inner.flush()
}

/// Relies on `ArrowWriter::into_inner`: writes the footer with the row-group
/// index and hands back the finished container bytes. The format is lossless
/// and self-describing: a conforming reader recovers from the bytes exactly
/// the schema the writer was opened under and exactly the rows written, which
/// is what the crate it comes from documents and what its own read path does.
/// Rows still buffered are closed into one last row group first, and the
/// footer's index holds exactly the groups closed. With nothing compressed it
/// succeeds, since the footer goes to an in-memory buffer.
#[verifier::external_body]
fn finish_writer(w: LogWriter) -> (r: Result<Vec<u8>, ParquetError>)
    ensures
        r matches Ok(out) ==> parquet_fields(out@) == Some(writer_fields(w)),
        r matches Ok(out) ==> (writer_fields(w).len() == 1 ==> parquet_rows(out@) == Some(writer_rows(w))),
        r matches Ok(out) ==> parquet_groups(out@) == Some(writer_groups(w) + (if writer_pending(w) > 0 { 1nat } else { 0nat })),
        writer_plain(w) ==> r is Ok,
{
    w.inner.into_inner()
}

/// Relies on `parquet::arrow::arrow_reader::ParquetRecordBatchReaderBuilder`:
/// decodes container bytes into the rows of their one string column, or
/// `None` where the bytes are not such a container. What it returns depends
/// on the bytes alone; `parquet_rows` names exactly this result.
#[verifier::external_body]
fn parquet_read_rows(data: &Vec<u8>) -> (r: Option<Vec<String>>)
    ensures
        r is Some <==> parquet_rows(data@) is Some,
        r matches Some(rows) ==> parquet_rows(data@) == Some(lines_view(rows@)),
{
    let bytes = bytes::Bytes::copy_from_slice(data.as_slice());
    let builder = parquet::arrow::arrow_reader::ParquetRecordBatchReaderBuilder::try_new(bytes).ok()?;
    let reader = builder.build().ok()?;
    let mut rows: Vec<String> = Vec::new();
    for batch in reader {
        let batch = batch.ok()?;
        if batch.num_columns() != 1 { return None; }
        let col = batch.column(0).as_any().downcast_ref::<arrow::array::LargeStringArray>()?;
        for i in 0..arrow::array::Array::len(col) {
            rows.push(col.value(i).to_string());
        }
    }
    Some(rows)
}

/// The container writer: opens a writer over an in-memory destination under
/// the schema, streams each batch as one compressed row group in order, and
/// finishes the container with its footer. On success the bytes are a valid,
/// self-describing container: a conforming reader recovers the schema's
/// fields and exactly the batches' rows, in order, and — as long as every
/// batch stays within the writer's row-group row limit, as every batch of
/// this crate's builder does — the footer's index holds one row group per
/// non-empty batch. With no compression it cannot fail; any failure names the
/// stage that failed and leaves no container reported as valid.
pub fn encode_container(schema: &Schema, batches: &Vec<Batch>, codec: CompressionChoice) -> (r: Result<Vec<u8>, ConversionError>)
    requires
        schema.wf(),
    ensures
        r matches Ok(out) ==> parquet_rows(out@) == Some(batches_rows(batches@)) && parquet_fields(out@) == Some(schema.model()),
        r matches Ok(out) ==> ((forall|k: int| 0 <= k < batches@.len() ==> #[trigger] batches@[k].rows().len() <= GROUP_ROW_LIMIT) ==> parquet_groups(out@) == Some(nonempty_batches(batches@))),
        codec is Uncompressed ==> r is Ok,
        r matches Err(e) ==> e is DestinationUnwritable,
{
    let mut writer = match new_log_writer(schema, codec) {
        Ok(w) => w,
        Err(_) => return Err(ConversionError::DestinationUnwritable(WriteStage::Create)),
    };
    let mut i: usize = 0;
    while i < batches.len()
        invariant
            i <= batches@.len(),
            schema.wf(),
            writer_fields(writer) == schema.model(),
            writer_plain(writer) == (codec is Uncompressed),
            writer_rows(writer) == batches_rows(batches@.take(i as int)),
            (forall|k: int| 0 <= k < i ==> #[trigger] batches@[k].rows().len() <= GROUP_ROW_LIMIT) ==> (writer_pending(writer) == 0 && writer_groups(writer) == nonempty_batches(batches@.take(i as int))),
        decreases batches@.len() - i,
    {
        let rb = match make_batch(schema, &batches[i].column) {
            Ok(b) => b,
            // Defensive: a batch of one string column always matches the
            // well-formed schema, so this arm is proved unreachable.
            Err(_) => return Err(ConversionError::SchemaInvariantViolation),
        };
        match write_rows(&mut writer, &rb) {
            Ok(_) => {},
            Err(_) => return Err(ConversionError::DestinationUnwritable(WriteStage::Write)),
        }
        match close_row_group(&mut writer) {
            Ok(_) => {},
            Err(_) => return Err(ConversionError::DestinationUnwritable(WriteStage::Write)),
        }
        proof {
            assert(batches@.take(i as int + 1) =~= batches@.take(i as int).push(
                batches@[i as int],
            ));
            lemma_batches_rows_push(batches@.take(i as int), batches@[i as int]);
            lemma_nonempty_batches_push(batches@.take(i as int), batches@[i as int]);
        }
        i = i + 1;
    }
    proof {
        assert(batches@.take(batches@.len() as int) =~= batches@);
    }
    match finish_writer(writer) {
        Ok(out) => Ok(out),
        Err(_) => Err(ConversionError::DestinationUnwritable(WriteStage::Finalize)),
    }
}

/// Reads a container back: the rows of its one string column, in order, or
/// `None` where the bytes are not a valid container of that shape — a
/// partially written container, cut off before its footer, is not silently
/// truncated but refused whole.
pub fn read_container(data: &Vec<u8>) -> (r: Option<Vec<String>>)
    ensures
        r is Some <==> parquet_rows(data@) is Some,
        r matches Some(rows) ==> parquet_rows(data@) == Some(lines_view(rows@)),
{
    parquet_read_rows(data)
}

} // verus!
