//! Converts line-oriented log text into a self-describing columnar container.
//!
//! The pipeline has three stages: a line reader that splits a byte stream on
//! newline boundaries and keeps the segments that decode as UTF-8
//! ([`lines::decode_lines`]); a batch builder that groups the lines into
//! bounded columnar batches ([`batch::build_batches`]); and a container
//! writer that encodes the batches as compressed row groups of a typed,
//! self-describing container ([`writer::encode_container`]). The whole
//! pipeline is [`convert::convert_log`]; callers that handle many sources at
//! once use [`convert::convert_each`], which never lets one source's failure
//! touch another's result.

pub mod batch;
pub mod convert;
pub mod errors;
pub mod lines;
pub mod schema;
pub mod writer;
