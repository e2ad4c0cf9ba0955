use vstd::prelude::*;

use crate::output_folder::OutputFolder;

verus! {

/// A reference to one filesystem entry, as the traversal layer hands it to
/// the core: the base name of the entry, its content, and whether it is a
/// regular file. The content is empty when the entry could not be read;
/// the content-based strategies then fail and the chain falls back.
#[derive(Clone, Debug)]
pub struct FileRef {
    pub name: String,
    pub bytes: Vec<u8>,
    pub is_file: bool,
}

/// The typed failure of a strategy or of the chain, with a fixed
/// human-readable diagnostic for each case.
#[derive(Clone, Copy, PartialEq, Eq, Structural, Debug)]
pub enum StrategyError {
    /// The entry is not a regular file; nothing is tried.
    NotAFile,
    /// No strategy is registered for the file's extension.
    NoStrategy,
    /// The embedded metadata container could not be read or parsed.
    MetadataUnreadable,
    /// The metadata holds no primary-image date/time field.
    NoDateTimeField,
    /// The date/time field is present but not text-encoded.
    DateTimeNotText,
    /// The date/time text does not parse as a date.
    DateTimeInvalid,
    /// The file name holds no valid date token.
    NoFilenamePattern,
    /// The media container's header could not be read or parsed.
    ContainerUnreadable,
    /// The container's creation time is too large to convert to a date.
    CreationTimeOutOfRange,
}

/// The diagnostic text of each failure.
pub open spec fn spec_message(e: StrategyError) -> Seq<char> {
    match e {
        StrategyError::NotAFile => "not a file, skipping"@,
        StrategyError::NoStrategy => "no strategy found for extension"@,
        StrategyError::MetadataUnreadable => "unable to read embedded metadata"@,
        StrategyError::NoDateTimeField => "no DateTime field found"@,
        StrategyError::DateTimeNotText => "field not text"@,
        StrategyError::DateTimeInvalid => "DateTime is not valid"@,
        StrategyError::NoFilenamePattern => "no output folder pattern found"@,
        StrategyError::ContainerUnreadable => "unable to extract container metadata"@,
        StrategyError::CreationTimeOutOfRange => "creation time out of range"@,
    }
}

impl StrategyError {
    /// The human-readable diagnostic for this failure.
    pub fn message(&self) -> (r: &'static str)
        ensures
            r@ == spec_message(*self),
    {
        match self {
            StrategyError::NotAFile => "not a file, skipping",
            StrategyError::NoStrategy => "no strategy found for extension",
            StrategyError::MetadataUnreadable => "unable to read embedded metadata",
            StrategyError::NoDateTimeField => "no DateTime field found",
            StrategyError::DateTimeNotText => "field not text",
            StrategyError::DateTimeInvalid => "DateTime is not valid",
            StrategyError::NoFilenamePattern => "no output folder pattern found",
            StrategyError::ContainerUnreadable => "unable to extract container metadata",
            StrategyError::CreationTimeOutOfRange => "creation time out of range",
        }
    }
}

/// A stateless date-inference heuristic: consumes one file reference and
/// produces the destination folder date, or a typed failure. Each
/// implementation pins its exact result down in `outcome`.
pub trait Strategy {
    /// What this strategy returns for a given file.
    spec fn outcome(&self, file: &FileRef) -> Result<OutputFolder, StrategyError>;

    fn derive_output_folder(&self, file: &FileRef) -> (r: Result<OutputFolder, StrategyError>)
        ensures
            r == self.outcome(file),
    ;
}

} // verus!
