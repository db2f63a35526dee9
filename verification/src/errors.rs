use vstd::prelude::*;

verus! {

/// Every way an encrypt or decrypt run can fail.
///
/// The variants follow the pipeline's error taxonomy: precondition failures
/// (`NotADirectory`, `DestinationMissing`, `EmptyPassphrase`) are detected
/// before any stage runs; `UnsupportedMode` tells "wrong tool" apart from
/// `AuthenticationFailed`, which covers both a wrong passphrase and a
/// tampered artifact; `FormatError` is a malformed artifact; the remaining
/// variants name the stage that failed.
#[derive(Clone, Copy, Debug, PartialEq, Eq, Structural)]
pub enum PipelineError {
    /// The source of an encrypt run is not a directory.
    NotADirectory,
    /// The destination directory of a decrypt run does not exist.
    DestinationMissing,
    /// The passphrase is empty.
    EmptyPassphrase,
    /// The entry archive could not be written or read back.
    ArchiveError,
    /// The compressed stream could not be produced or decoded.
    CompressionError,
    /// The cipher stage failed while producing the artifact.
    EncryptionFailed,
    /// The artifact was encrypted for recipients, not with a passphrase.
    UnsupportedMode,
    /// The passphrase is wrong or the artifact was tampered with.
    AuthenticationFailed,
    /// The artifact is not in the encrypted-artifact format at all.
    FormatError,
}

impl PipelineError {
    /// The one-line diagnostic for this failure, as a sequence of characters.
    pub open spec fn spec_message(self) -> Seq<char> {
        match self {
            PipelineError::NotADirectory => "source is not a directory"@,
            PipelineError::DestinationMissing => "destination directory does not exist"@,
            PipelineError::EmptyPassphrase => "empty passphrase is not allowed"@,
            PipelineError::ArchiveError => "failed to build or unpack the archive"@,
            PipelineError::CompressionError => "failed to compress or decompress the stream"@,
            PipelineError::EncryptionFailed => "failed to encrypt the stream"@,
            PipelineError::UnsupportedMode => "file was encrypted for recipients, not a passphrase"@,
            PipelineError::AuthenticationFailed => "wrong passphrase or corrupted file"@,
            PipelineError::FormatError => "not a valid encrypted file"@,
        }
    }

    /// The one-line diagnostic for this failure.
    pub fn message(&self) -> (r: String)
        ensures
            r@ == self.spec_message(),
    {
        match self {
            PipelineError::NotADirectory => String::from_str("source is not a directory"),
            PipelineError::DestinationMissing => String::from_str("destination directory does not exist"),
            PipelineError::EmptyPassphrase => String::from_str("empty passphrase is not allowed"),
            PipelineError::ArchiveError => String::from_str("failed to build or unpack the archive"),
            PipelineError::CompressionError => String::from_str("failed to compress or decompress the stream"),
            PipelineError::EncryptionFailed => String::from_str("failed to encrypt the stream"),
            PipelineError::UnsupportedMode => String::from_str("file was encrypted for recipients, not a passphrase"),
            PipelineError::AuthenticationFailed => String::from_str("wrong passphrase or corrupted file"),
            PipelineError::FormatError => String::from_str("not a valid encrypted file"),
        }
    }
}

} // verus!
