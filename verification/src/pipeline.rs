//! The pipeline orchestrator: composes the tree serializer, the stream
//! compressor and the passphrase cipher into one forward (encrypt) and one
//! mirrored reverse (decrypt) operation, and enforces the fail-fast
//! preconditions.
//!
//! The contracts carry the pipeline's guarantees: what an artifact decrypts
//! to is pinned by [`decrypt_model`], a successful encryption's artifact
//! decrypts back to exactly the tree it was made from, any other passphrase
//! is rejected with an authentication failure, and flipping any single byte
//! of the artifact makes decryption fail rather than emit unauthenticated
//! data.

use vstd::prelude::*;

use crate::archive::pack_entries;
use crate::archive::tar_unpack;
use crate::archive::untar_of;
use crate::cipher::age_decrypt;
use crate::cipher::age_encrypt;
use crate::cipher::deciphered_of;
use crate::compress::gunzip_of;
use crate::compress::gzip_compress;
use crate::compress::gzip_decompress;
use crate::errors::PipelineError;
use crate::tree::EntryModel;
use crate::tree::entry_encodable;
use crate::tree::TreeEntry;
use crate::tree::tree_encodable;
use crate::tree::tree_encodable_check;
use crate::tree::tree_model;

verus! {

/// What decrypting an artifact under a passphrase yields: the cipher stage
/// runs first, the decompressor second, the archive reader last, and the
/// first stage to fail decides the error.
pub open spec fn decrypt_model(artifact: Seq<u8>, pass: Seq<char>) -> Result<
    Seq<EntryModel>,
    PipelineError,
> {
    match deciphered_of(artifact, pass) {
        Err(e) => Err(e),
        Ok(compressed) => match gunzip_of(compressed) {
            None => Err(PipelineError::CompressionError),
            Some(archive) => match untar_of(archive) {
                None => Err(PipelineError::ArchiveError),
                Some(entries) => Ok(entries),
            },
        },
    }
}

/// Wrong-passphrase rejection: under every passphrase other than `pass`,
/// decrypting `artifact` fails with an authentication error.
pub open spec fn rejects_other_passphrases(artifact: Seq<u8>, pass: Seq<char>) -> bool {
    forall|other: Seq<char>|
        other != pass ==> #[trigger] decrypt_model(artifact, other) == Err::<
            Seq<EntryModel>,
            PipelineError,
        >(PipelineError::AuthenticationFailed)
}

/// Tamper rejection: flipping any single byte of `artifact` makes
/// decryption under `pass` fail; no unauthenticated tree is ever produced.
pub open spec fn rejects_tampering(artifact: Seq<u8>, pass: Seq<char>) -> bool {
    forall|idx: int, byte: u8|
        0 <= idx < artifact.len() && byte != artifact[idx]
            ==> (#[trigger] decrypt_model(artifact.update(idx, byte), pass)) is Err
}

/// Wrong-passphrase rejection, as a law: an artifact that rejects other
/// passphrases -- what `encrypt_tree` ensures of its output -- decrypts
/// under any different passphrase to exactly the authentication failure.
pub proof fn lemma_wrong_passphrase_rejected(artifact: Seq<u8>, pass: Seq<char>, other: Seq<char>)
    requires
        rejects_other_passphrases(artifact, pass),
        other != pass,
    ensures
        decrypt_model(artifact, other) == Err::<Seq<EntryModel>, PipelineError>(
            PipelineError::AuthenticationFailed,
        ),
{
}

/// Tamper rejection, as a law: flipping any single byte of an artifact that
/// rejects tampering -- what `encrypt_tree` ensures of its output -- makes
/// decryption under the right passphrase fail instead of yielding a tree.
pub proof fn lemma_tampering_rejected(artifact: Seq<u8>, pass: Seq<char>, idx: int, byte: u8)
    requires
        rejects_tampering(artifact, pass),
        0 <= idx < artifact.len(),
        byte != artifact[idx],
    ensures
        decrypt_model(artifact.update(idx, byte), pass) is Err,
{
}

/// Fail-fast check of an encrypt run's source: the path handed in must name
/// a directory.
pub fn check_source_directory(source_is_directory: bool) -> (r: Result<(), PipelineError>)
    ensures
        r == (if source_is_directory {
            Ok::<(), PipelineError>(())
        } else {
            Err::<(), PipelineError>(PipelineError::NotADirectory)
        }),
{
    if source_is_directory {
        Ok(())
    } else {
        Err(PipelineError::NotADirectory)
    }
}

/// Fail-fast check of a decrypt run's destination: the directory entries are
/// unpacked into must already exist; it is never created.
pub fn check_destination_directory(destination_is_directory: bool) -> (r: Result<
    (),
    PipelineError,
>)
    ensures
        r == (if destination_is_directory {
            Ok::<(), PipelineError>(())
        } else {
            Err::<(), PipelineError>(PipelineError::DestinationMissing)
        }),
{
    if destination_is_directory {
        Ok(())
    } else {
        Err(PipelineError::DestinationMissing)
    }
}

/// Fail-fast check of the passphrase: it must not be empty.
pub fn check_passphrase(pass: &String) -> (r: Result<(), PipelineError>)
    ensures
        r == (if pass@.len() == 0 {
            Err::<(), PipelineError>(PipelineError::EmptyPassphrase)
        } else {
            Ok::<(), PipelineError>(())
        }),
{
    if pass.as_str().is_empty() {
        Err(PipelineError::EmptyPassphrase)
    } else {
        Ok(())
    }
}

/// Encrypt a directory tree into one self-contained artifact.
///
/// The entries are serialized into an archive, the archive is compressed,
/// and the compressed stream is encrypted under `pass`. An empty passphrase
/// is rejected before any stage runs, and nothing but an empty passphrase is
/// reported as that error; a tree the serializer cannot record verbatim (an
/// unclean path, or permission bits beyond the mode field) is rejected as an
/// archive error. On success the artifact decrypts back to exactly
/// the given tree under `pass` (round-trip identity), fails authentication
/// under every other passphrase, and tolerates no single-byte tampering.
pub fn encrypt_tree(entries: &Vec<TreeEntry>, pass: &String) -> (r: Result<Vec<u8>, PipelineError>)
    ensures
        r == Err::<Vec<u8>, PipelineError>(PipelineError::EmptyPassphrase) <==> pass@.len() == 0,
        pass@.len() > 0 && !tree_encodable(tree_model(entries@)) ==> r == Err::<
            Vec<u8>,
            PipelineError,
        >(PipelineError::ArchiveError),
        r matches Ok(art) ==> decrypt_model(art@, pass@) == Ok::<Seq<EntryModel>, PipelineError>(
            tree_model(entries@),
        ),
        r matches Ok(art) ==> rejects_other_passphrases(art@, pass@),
        r matches Ok(art) ==> rejects_tampering(art@, pass@),
{
    if pass.as_str().is_empty() {
        return Err(PipelineError::EmptyPassphrase);
    }
    if !tree_encodable_check(entries) {
        return Err(PipelineError::ArchiveError);
    }
    proof {
        assert forall|j: int| 0 <= j < entries@.len() implies entry_encodable(
            #[trigger] entries@[j]@,
        ) by {
            assert(tree_model(entries@)[j] == entries@[j]@);
        }
    }
    let archive = match pack_entries(entries) {
        Ok(v) => v,
        Err(e) => {
            return Err(e);
        },
    };
    let compressed = match gzip_compress(&archive) {
        Ok(v) => v,
        Err(e) => {
            return Err(e);
        },
    };
    let result = age_encrypt(&compressed, pass);
    proof {
        if let Ok(art) = &result {
            assert forall|other: Seq<char>| other != pass@ implies #[trigger] decrypt_model(
                art@,
                other,
            ) == Err::<Seq<EntryModel>, PipelineError>(PipelineError::AuthenticationFailed) by {
                assert(deciphered_of(art@, other) == Err::<Seq<u8>, PipelineError>(
                    PipelineError::AuthenticationFailed,
                ));
            }
            assert forall|idx: int, byte: u8|
                0 <= idx < art@.len() && byte != art@[idx] implies (
            #[trigger] decrypt_model(art@.update(idx, byte), pass@)) is Err by {
                assert(deciphered_of(art@.update(idx, byte), pass@) is Err);
            }
        }
    }
    result
}

/// Decrypt an artifact back into the directory tree it holds.
///
/// The cipher stage reads the artifact under `pass`, the decompressor
/// inflates the stream, and the archive reader yields the recorded entries.
/// An empty passphrase is rejected before any stage runs; otherwise the
/// result is exactly what [`decrypt_model`] says: the recorded tree, or the
/// failure of the first stage that rejects the artifact.
pub fn decrypt_artifact(artifact: &Vec<u8>, pass: &String) -> (r: Result<
    Vec<TreeEntry>,
    PipelineError,
>)
    ensures
        pass@.len() == 0 ==> r == Err::<Vec<TreeEntry>, PipelineError>(
            PipelineError::EmptyPassphrase,
        ),
        pass@.len() > 0 ==> (match decrypt_model(artifact@, pass@) {
            Ok(entries) => r matches Ok(v) && tree_model(v@) == entries,
            Err(e) => r == Err::<Vec<TreeEntry>, PipelineError>(e),
        }),
{
    if pass.as_str().is_empty() {
        return Err(PipelineError::EmptyPassphrase);
    }
    let compressed = match age_decrypt(artifact, pass) {
        Ok(v) => v,
        Err(e) => {
            return Err(e);
        },
    };
    let archive = match gzip_decompress(&compressed) {
        Ok(v) => v,
        Err(e) => {
            return Err(e);
        },
    };
    tar_unpack(&archive)
}

} // verus!
