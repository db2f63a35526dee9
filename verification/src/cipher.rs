//! The passphrase-cipher stage: authenticated encryption of the compressed
//! stream, keyed by a passphrase.
//!
//! The scheme is owned by the `age` crate and stays opaque: what an artifact
//! decrypts to under a given passphrase is only given a name,
//! [`deciphered_of`], and the two trusted wrappers speak in terms of that
//! name. The work factor of the key derivation is pinned on both sides so
//! that whether an artifact is accepted never depends on machine timing.

use vstd::prelude::*;

use crate::errors::PipelineError;

verus! {

/// The scrypt work factor used when producing an artifact.
const WORK_FACTOR: u8 = 14;

/// The largest scrypt work factor accepted when reading an artifact.
const MAX_WORK_FACTOR: u8 = 22;

/// What an artifact decrypts to under a passphrase: the plaintext bytes, or
/// the failure the cipher stage reports. Decryption is deterministic, so
/// this is a function of the artifact and the passphrase alone.
pub uninterp spec fn deciphered_of(artifact: Seq<u8>, pass: Seq<char>) -> Result<
    Seq<u8>,
    PipelineError,
>;

/// Relies on `age::encrypt` with an `age::scrypt::Recipient`, an
/// authenticated passphrase-keyed encryption:
///
/// - the artifact decrypts to exactly the plaintext under the passphrase it
///   was produced with (the recipient's work factor stays below the
///   acceptance bound of [`age_decrypt`]);
/// - under any other passphrase the key derivation yields a key that fails
///   authentication, so decryption is refused;
/// - changing any single byte of the artifact breaks either the header or
///   the payload authentication, so decryption is refused.
///
/// The artifact embeds a fresh random salt, so nothing is promised about
/// the artifact bytes themselves.
#[verifier::external_body]
pub(crate) fn age_encrypt(plain: &Vec<u8>, pass: &String) -> (r: Result<Vec<u8>, PipelineError>)
    ensures
        (match r {
            Ok(art) => deciphered_of(art@, pass@) == Ok::<Seq<u8>, PipelineError>(plain@)
                && (forall|other: Seq<char>|
                other != pass@ ==> #[trigger] deciphered_of(art@, other) == Err::<
                    Seq<u8>,
                    PipelineError,
                >(PipelineError::AuthenticationFailed)) && (forall|idx: int, byte: u8|
                0 <= idx < art@.len() && byte != art@[idx]
                    ==> (#[trigger] deciphered_of(art@.update(idx, byte), pass@)) is Err),
            Err(e) => e == PipelineError::EncryptionFailed,
        }),
{
    let mut recipient = age::scrypt::Recipient::new(age::secrecy::SecretString::from(pass.clone()));
    recipient.set_work_factor(WORK_FACTOR);
    match age::encrypt(&recipient, plain.as_slice()) {
        Ok(v) => Ok(v),
        Err(_) => Err(PipelineError::EncryptionFailed),
    }
}

/// Relies on `age::decrypt` with an `age::scrypt::Identity`: decryption of an
/// in-memory artifact is a function of the artifact and the passphrase alone.
/// The cipher's failures are told apart by `age::DecryptError`: an artifact
/// without a passphrase stanza was encrypted for recipients; a failed key or
/// payload authentication means a wrong passphrase or a tampered artifact;
/// anything else is not a well-formed artifact.
#[verifier::external_body]
pub(crate) fn age_decrypt(artifact: &Vec<u8>, pass: &String) -> (r: Result<Vec<u8>, PipelineError>)
    ensures
        (match deciphered_of(artifact@, pass@) {
            Ok(p) => r matches Ok(v) && v@ == p,
            Err(e) => r == Err::<Vec<u8>, PipelineError>(e),
        }),
{
    let mut identity = age::scrypt::Identity::new(age::secrecy::SecretString::from(pass.clone()));
    identity.set_max_work_factor(MAX_WORK_FACTOR);
    match age::decrypt(&identity, artifact.as_slice()) {
        Ok(v) => Ok(v),
        Err(age::DecryptError::NoMatchingKeys) => Err(PipelineError::UnsupportedMode),
        Err(age::DecryptError::DecryptionFailed) => Err(PipelineError::AuthenticationFailed),
        Err(age::DecryptError::KeyDecryptionFailed) => Err(PipelineError::AuthenticationFailed),
        Err(age::DecryptError::InvalidMac) => Err(PipelineError::AuthenticationFailed),
        Err(age::DecryptError::Io(_)) => Err(PipelineError::AuthenticationFailed),
        Err(_) => Err(PipelineError::FormatError),
    }
}

} // verus!
