//! The stream-compressor stage: shrinks the archive byte stream reversibly.
//!
//! The codec is owned by the `flate2` crate and stays opaque: what a
//! compressed stream inflates back to is only given a name, [`gunzip_of`],
//! and the two trusted wrappers speak in terms of that name.

use vstd::prelude::*;

use crate::errors::PipelineError;

verus! {

/// What a compressed byte stream inflates back to, or nothing if the bytes
/// are not a well-formed compressed stream.
pub uninterp spec fn gunzip_of(bytes: Seq<u8>) -> Option<Seq<u8>>;

/// Relies on `flate2::write::GzEncoder` at the default compression level:
/// compressing into memory yields a stream that inflates back to exactly the
/// input bytes.
#[verifier::external_body]
pub(crate) fn gzip_compress(data: &Vec<u8>) -> (r: Result<Vec<u8>, PipelineError>)
    ensures
        (match r {
            Ok(v) => gunzip_of(v@) == Some(data@),
            Err(e) => e == PipelineError::CompressionError,
        }),
{
    let mut enc = flate2::write::GzEncoder::new(Vec::new(), flate2::Compression::default());
    if std::io::Write::write_all(&mut enc, data.as_slice()).is_err() {
        return Err(PipelineError::CompressionError);
    }
    match enc.finish() {
        Ok(v) => Ok(v),
        Err(_) => Err(PipelineError::CompressionError),
    }
}

/// Relies on `flate2::read::GzDecoder`: what an in-memory stream inflates to
/// is a function of its bytes alone; a malformed stream is reported as an
/// error.
#[verifier::external_body]
pub(crate) fn gzip_decompress(bytes: &Vec<u8>) -> (r: Result<Vec<u8>, PipelineError>)
    ensures
        (match gunzip_of(bytes@) {
            Some(p) => r matches Ok(v) && v@ == p,
            None => r == Err::<Vec<u8>, PipelineError>(PipelineError::CompressionError),
        }),
{
    let mut dec = flate2::read::GzDecoder::new(bytes.as_slice());
    let mut out: Vec<u8> = Vec::new();
    match std::io::Read::read_to_end(&mut dec, &mut out) {
        Ok(_) => Ok(out),
        Err(_) => Err(PipelineError::CompressionError),
    }
}

} // verus!
