use vstd::prelude::*;

verus! {

/// A pre-flight error that aborts the whole run before any conversion starts.
#[derive(Clone, Copy, Debug, PartialEq, Eq, Structural)]
pub enum FatalError {
    /// An input expression was not a well-formed glob pattern.
    InvalidPattern,
    /// The filesystem enumeration of a pattern's matches failed.
    EnumerationError,
    /// All input expressions together resolved to no files at all.
    NoInputFiles,
    /// Several inputs were resolved but the output path is not an existing
    /// directory.
    InvalidOutputTarget,
}

/// Why the conversion of a single file failed. Such a failure is isolated to
/// its file and never aborts the rest of the run.
#[derive(Clone, Copy, Debug, PartialEq, Eq, Structural)]
pub enum FileFailure {
    /// The source file could not be decoded as an image.
    DecodeError,
    /// The converted image could not be written to its target path.
    EncodeError,
    /// The source path has no extractable base name, so no output path inside
    /// the output directory could be formed.
    MissingFileName,
}

/// The terminal outcome of converting one resolved input file.
#[derive(Clone, Copy, Debug, PartialEq, Eq, Structural)]
pub enum FileOutcome {
    /// The file was decoded, padded and re-encoded.
    Success,
    /// The conversion failed for the recorded reason.
    Failure(FileFailure),
}

/// The classification of a whole run over the outcomes of all its files.
#[derive(Clone, Copy, Debug, PartialEq, Eq, Structural)]
pub enum RunResult {
    /// Every file converted successfully.
    Success,
    /// The recorded number of files failed, and at least one succeeded.
    PartialFailure(usize),
    /// Every file failed to convert.
    TotalFailure,
}

} // verus!
