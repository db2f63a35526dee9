//! Packages a directory tree into a single passphrase-encrypted artifact and
//! reverses the process.
//!
//! The pipeline layers three transformations: the tree is serialized into a
//! linear archive, the archive is compressed, and the compressed stream is
//! encrypted with a key derived from a passphrase. Decryption mirrors the
//! layering and fails closed on a wrong passphrase or a tampered artifact.
//!
//! The tree itself is held as plain values ([`tree::TreeEntry`]); walking a
//! real directory into such values and writing them back out is left to the
//! caller, so that the pipeline is a pure function of its inputs. Each
//! stage's output is held whole in memory between stages; the stages are
//! not streamed into one another.

pub mod archive;
pub mod cipher;
pub mod compress;
pub mod errors;
pub mod pipeline;
pub mod tree;
