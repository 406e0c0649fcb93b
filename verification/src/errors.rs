use vstd::prelude::*;

verus! {

/// The stage of container writing at which a failure happened, so a caller
/// can tell "could not create" from "could not write" from "could not
/// finalize".
#[derive(Clone, Copy, Debug, PartialEq, Eq, Structural)]
pub enum WriteStage {
    /// The writer over the destination could not be set up.
    Create,
    /// A row group could not be written.
    Write,
    /// The footer could not be written, so the container was never finished.
    Finalize,
}

/// Why a source file could not be opened.
#[derive(Clone, Copy, Debug, PartialEq, Eq, Structural)]
pub enum SourceError {
    NotFound,
    PermissionDenied,
    Other,
}

/// A failure of one conversion. One source's failure is recoverable for a
/// caller running many conversions: every other pair goes on unaffected.
#[derive(Clone, Copy, Debug, PartialEq, Eq, Structural)]
pub enum ConversionError {
    /// The source file could not be opened; its conversion is skipped.
    SourceUnreadable(SourceError),
    /// The output container could not be produced; it must not be read.
    DestinationUnwritable(WriteStage),
    /// A batch did not agree with its schema. Unreachable for batches built
    /// by this crate, whose builder guarantees the column lengths.
    SchemaInvariantViolation,
}

impl ConversionError {
    /// A short message naming what failed and at which stage.
    pub fn describe(&self) -> (m: String)
        ensures
            m@ == match *self {
                ConversionError::SourceUnreadable(SourceError::NotFound) => "source file not found"@,
                ConversionError::SourceUnreadable(SourceError::PermissionDenied) => "source file permission denied"@,
                ConversionError::SourceUnreadable(SourceError::Other) => "source file could not be read"@,
                ConversionError::DestinationUnwritable(WriteStage::Create) => "could not create the output container"@,
                ConversionError::DestinationUnwritable(WriteStage::Write) => "could not write a row group"@,
                ConversionError::DestinationUnwritable(WriteStage::Finalize) => "could not finalize the output container"@,
                ConversionError::SchemaInvariantViolation => "batch does not match its schema"@,
            },
    {
        match self {
            ConversionError::SourceUnreadable(SourceError::NotFound) => "source file not found".to_owned(),
            ConversionError::SourceUnreadable(SourceError::PermissionDenied) => "source file permission denied".to_owned(),
            ConversionError::SourceUnreadable(SourceError::Other) => "source file could not be read".to_owned(),
            ConversionError::DestinationUnwritable(WriteStage::Create) => "could not create the output container".to_owned(),
            ConversionError::DestinationUnwritable(WriteStage::Write) => "could not write a row group".to_owned(),
            ConversionError::DestinationUnwritable(WriteStage::Finalize) => "could not finalize the output container".to_owned(),
            ConversionError::SchemaInvariantViolation => "batch does not match its schema".to_owned(),
        }
    }
}

} // verus!
