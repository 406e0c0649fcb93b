use arrow::array::{Array, LargeStringArray};
use bytes::Bytes;
use parquet::arrow::arrow_reader::ParquetRecordBatchReaderBuilder;

use logeagle::batch::build_batches;
use logeagle::convert::{convert_each, convert_log};
use logeagle::errors::{ConversionError, SourceError};
use logeagle::lines::decode_lines;
use logeagle::schema::log_schema;
use logeagle::writer::{read_container, CompressionChoice};

/// Reads a container back with the parquet reader itself, with no schema hint:
/// the container must describe itself. Returns the rows of its one column.
fn read_with_parquet(container: &[u8]) -> Vec<String> {
    let builder = ParquetRecordBatchReaderBuilder::try_new(Bytes::copy_from_slice(container))
        .expect("container must carry its own metadata");
    let reader = builder.build().expect("container must be readable");
    let mut rows = Vec::new();
    for batch in reader {
        let batch = batch.expect("row group must decode");
        assert_eq!(batch.num_columns(), 1);
        let col = batch
            .column(0)
            .as_any()
            .downcast_ref::<LargeStringArray>()
            .expect("the one column must hold strings");
        for i in 0..col.len() {
            assert!(!col.is_null(i));
            rows.push(col.value(i).to_string());
        }
    }
    rows
}

#[test]
fn round_trip_lines() {
    let input = b"alpha\nbeta\ngamma\n".to_vec();
    let container = convert_log(&input, String::from("line"), CompressionChoice::Uncompressed)
        .expect("uncompressed conversion cannot fail");
    let rows = read_container(&container).expect("a fresh container must be readable");
    assert_eq!(rows, vec!["alpha", "beta", "gamma"]);
    assert_eq!(read_with_parquet(&container), vec!["alpha", "beta", "gamma"]);
}

#[test]
fn round_trip_empty_list() {
    let input: Vec<u8> = Vec::new();
    let container = convert_log(&input, String::from("line"), CompressionChoice::Uncompressed)
        .expect("empty input is a valid conversion");
    let rows = read_container(&container).expect("a zero-row container must be readable");
    assert_eq!(rows, Vec::<String>::new());
    assert_eq!(read_with_parquet(&container), Vec::<String>::new());
}

#[test]
fn round_trip_keeps_empty_lines() {
    let input = b"a\n\nb\n".to_vec();
    let container = convert_log(&input, String::from("line"), CompressionChoice::Uncompressed)
        .expect("uncompressed conversion cannot fail");
    let rows = read_container(&container).expect("container must be readable");
    assert_eq!(rows, vec!["a", "", "b"]);
}

#[test]
fn decode_skips_invalid_lines() {
    let mut input = b"good line\n".to_vec();
    input.extend_from_slice(&[0xff, 0xfe, 0x80]);
    input.extend_from_slice(b"\nalso good\n");
    let lines = decode_lines(&input);
    assert_eq!(lines, vec!["good line", "also good"]);
}

#[test]
fn decode_skip_survives_conversion() {
    let mut input = b"kept\n".to_vec();
    input.extend_from_slice(&[0xc0, 0xc1]);
    input.extend_from_slice(b"\nkept too");
    let container = convert_log(&input, String::from("line"), CompressionChoice::Uncompressed)
        .expect("invalid lines are dropped, not fatal");
    let rows = read_container(&container).expect("container must be readable");
    assert_eq!(rows, vec!["kept", "kept too"]);
}

#[test]
fn decode_handles_carriage_returns() {
    assert_eq!(decode_lines(&b"a\r\nb\r\n".to_vec()), vec!["a", "b"]);
    assert_eq!(decode_lines(&b"a\rb\n".to_vec()), vec!["a\rb"]);
    assert_eq!(decode_lines(&b"tail\r".to_vec()), vec!["tail\r"]);
    assert_eq!(decode_lines(&b"\n\n".to_vec()), vec!["", ""]);
    assert_eq!(decode_lines(&b"no newline".to_vec()), vec!["no newline"]);
    assert_eq!(decode_lines(&Vec::new()), Vec::<String>::new());
}

#[test]
fn zero_row_validity() {
    let input: Vec<u8> = Vec::new();
    let container = convert_log(&input, String::from("line"), CompressionChoice::Uncompressed)
        .expect("empty input is a valid conversion");
    let builder = ParquetRecordBatchReaderBuilder::try_new(Bytes::from(container))
        .expect("zero-row container must carry valid metadata");
    let schema = builder.schema().clone();
    assert_eq!(schema.fields().len(), 1);
    assert_eq!(schema.field(0).name(), "line");
    assert_eq!(*schema.field(0).data_type(), arrow::datatypes::DataType::LargeUtf8);
    assert!(!schema.field(0).is_nullable());
    assert_eq!(
        builder.metadata().file_metadata().schema_descr().column(0).converted_type(),
        parquet::basic::ConvertedType::UTF8
    );
    assert_eq!(builder.metadata().file_metadata().num_rows(), 0);
    assert_eq!(builder.metadata().num_row_groups(), 0);
}

#[test]
fn idempotent_schema() {
    let a = convert_log(&b"one\ntwo\n".to_vec(), String::from("line"), CompressionChoice::Uncompressed)
        .expect("conversion cannot fail");
    let b = convert_log(
        &b"something else entirely\n\nwith other rows\n".to_vec(),
        String::from("line"),
        CompressionChoice::Uncompressed,
    )
    .expect("conversion cannot fail");
    let ba = ParquetRecordBatchReaderBuilder::try_new(Bytes::from(a)).unwrap();
    let bb = ParquetRecordBatchReaderBuilder::try_new(Bytes::from(b)).unwrap();
    assert_eq!(ba.schema(), bb.schema());
    assert_eq!(
        ba.metadata().file_metadata().schema_descr().root_schema(),
        bb.metadata().file_metadata().schema_descr().root_schema()
    );
}

#[test]
fn failure_isolation() {
    let sources = vec![
        Err(SourceError::NotFound),
        Ok(b"GET / 200\n".to_vec()),
    ];
    let results = convert_each(&sources, &String::from("line"), CompressionChoice::Uncompressed);
    assert_eq!(results.len(), 2);
    assert_eq!(
        results[0],
        Err(ConversionError::SourceUnreadable(SourceError::NotFound))
    );
    let container = results[1].as_ref().expect("the valid source still converts");
    let rows = read_container(container).expect("container must be readable");
    assert_eq!(rows, vec!["GET / 200"]);
}

#[test]
fn concrete_scenario() {
    let input = b"GET /a 200\nGET /b 404\n".to_vec();
    let container = convert_log(&input, String::from("line"), CompressionChoice::Uncompressed)
        .expect("uncompressed conversion cannot fail");
    let builder = ParquetRecordBatchReaderBuilder::try_new(Bytes::copy_from_slice(&container))
        .expect("container must describe itself");
    let schema = builder.schema().clone();
    assert_eq!(schema.fields().len(), 1);
    assert_eq!(schema.field(0).name(), "line");
    assert_eq!(*schema.field(0).data_type(), arrow::datatypes::DataType::LargeUtf8);
    assert!(!schema.field(0).is_nullable());
    assert_eq!(
        builder.metadata().file_metadata().schema_descr().column(0).converted_type(),
        parquet::basic::ConvertedType::UTF8
    );
    assert_eq!(builder.metadata().num_row_groups(), 1);
    let rows = read_with_parquet(&container);
    assert_eq!(rows, vec!["GET /a 200", "GET /b 404"]);
}

#[test]
fn snappy_round_trip() {
    let input = b"compressed once\ncompressed twice\n".to_vec();
    let container = convert_log(&input, String::from("line"), CompressionChoice::Snappy)
        .expect("snappy conversion succeeds here");
    let rows = read_container(&container).expect("compressed container must be readable");
    assert_eq!(rows, vec!["compressed once", "compressed twice"]);
}

#[test]
fn unreadable_bytes_are_refused() {
    assert_eq!(read_container(&b"not a container at all".to_vec()), None);
    assert_eq!(read_container(&Vec::new()), None);
}

#[test]
fn batches_bound_and_order() {
    let lines: Vec<String> = vec!["a", "b", "c", "d", "e"]
        .into_iter()
        .map(String::from)
        .collect();
    let batches = build_batches(lines, 2);
    assert_eq!(batches.len(), 3);
    assert_eq!(batches[0].num_rows(), 2);
    assert_eq!(batches[1].num_rows(), 2);
    assert_eq!(batches[2].num_rows(), 1);
    let flat: Vec<String> = batches.into_iter().flat_map(|b| b.column).collect();
    assert_eq!(flat, vec!["a", "b", "c", "d", "e"]);
}

#[test]
fn zero_lines_build_one_empty_batch() {
    let batches = build_batches(Vec::new(), 100);
    assert_eq!(batches.len(), 1);
    assert_eq!(batches[0].num_rows(), 0);
}

#[test]
fn schema_has_one_field() {
    let schema = log_schema(String::from("line"));
    assert_eq!(schema.num_fields(), 1);
    assert_eq!(schema.fields[0].name, "line");
    assert!(!schema.fields[0].nullable);
}

#[test]
fn error_messages_name_the_stage() {
    let a = ConversionError::SourceUnreadable(SourceError::NotFound).describe();
    let b = ConversionError::SourceUnreadable(SourceError::PermissionDenied).describe();
    let c = ConversionError::DestinationUnwritable(logeagle::errors::WriteStage::Finalize).describe();
    assert_eq!(a, "source file not found");
    assert_eq!(b, "source file permission denied");
    assert_eq!(c, "could not finalize the output container");
    assert_ne!(a, b);
}

#[test]
fn truncated_container_is_corrupt() {
    let input = b"one\ntwo\nthree\n".to_vec();
    let container = convert_log(&input, String::from("line"), CompressionChoice::Uncompressed)
        .expect("uncompressed conversion cannot fail");
    // A container cut off before its footer is unreadable as a whole, not
    // silently truncated to the rows already written.
    let cut = container[..container.len() - 10].to_vec();
    assert_eq!(read_container(&cut), None);
}

#[test]
fn conversion_is_deterministic() {
    let input = b"same\ninput\n".to_vec();
    let a = convert_log(&input, String::from("line"), CompressionChoice::Uncompressed)
        .expect("conversion cannot fail");
    let b = convert_log(&input, String::from("line"), CompressionChoice::Uncompressed)
        .expect("conversion cannot fail");
    assert_eq!(a, b);
}
