use folder_lock::errors::PipelineError;
use folder_lock::pipeline::check_destination_directory;
use folder_lock::pipeline::check_passphrase;
use folder_lock::pipeline::check_source_directory;
use folder_lock::pipeline::decrypt_artifact;
use folder_lock::pipeline::encrypt_tree;
use folder_lock::tree::TreeEntry;

fn sample_tree() -> Vec<TreeEntry> {
    vec![TreeEntry::File { path: "a.txt".to_string(), mode: 0o644, data: b"hello".to_vec() }]
}

#[test]
fn empty_passphrase_rejected_before_any_stage() {
    let empty = String::new();
    assert_eq!(encrypt_tree(&sample_tree(), &empty), Err(PipelineError::EmptyPassphrase));
    assert_eq!(
        decrypt_artifact(&vec![1u8, 2, 3], &empty),
        Err(PipelineError::EmptyPassphrase)
    );
    assert_eq!(check_passphrase(&empty), Err(PipelineError::EmptyPassphrase));
    assert_eq!(check_passphrase(&"correct-horse".to_string()), Ok(()));
}

#[test]
fn wrong_passphrase_fails_with_authentication_error() {
    let artifact =
        encrypt_tree(&sample_tree(), &"correct-horse".to_string()).expect("encryption");
    let result = decrypt_artifact(&artifact, &"horse-correct".to_string());
    assert_eq!(result.unwrap_err(), PipelineError::AuthenticationFailed);
}

#[test]
fn tampered_artifact_fails_closed() {
    let artifact = encrypt_tree(&sample_tree(), &"correct-horse".to_string()).expect("encryption");
    let positions = [0usize, artifact.len() / 2, artifact.len() - 1];
    for &pos in positions.iter() {
        let mut tampered = artifact.clone();
        tampered[pos] ^= 0x01;
        let result = decrypt_artifact(&tampered, &"correct-horse".to_string());
        let err = result.expect_err("a tampered artifact must not decrypt");
        assert!(
            matches!(
                err,
                PipelineError::AuthenticationFailed
                    | PipelineError::FormatError
                    | PipelineError::UnsupportedMode
            ),
            "unexpected error {:?} for a byte flipped at {}",
            err,
            pos
        );
    }
}

#[test]
fn recipient_mode_artifact_rejected_distinctly() {
    let identity = age::x25519::Identity::generate();
    let recipient = identity.to_public();
    let foreign = age::encrypt(&recipient, b"payload").expect("recipient-mode encryption");
    let result = decrypt_artifact(&foreign, &"correct-horse".to_string());
    assert_eq!(result.unwrap_err(), PipelineError::UnsupportedMode);
}

#[test]
fn garbage_artifact_rejected_as_format_error() {
    let garbage = b"this is not an encrypted artifact at all".to_vec();
    let result = decrypt_artifact(&garbage, &"correct-horse".to_string());
    assert_eq!(result.unwrap_err(), PipelineError::FormatError);
}

#[test]
fn preconditions_checked_before_work() {
    assert_eq!(check_source_directory(false), Err(PipelineError::NotADirectory));
    assert_eq!(check_source_directory(true), Ok(()));
    assert_eq!(
        check_destination_directory(false),
        Err(PipelineError::DestinationMissing)
    );
    assert_eq!(check_destination_directory(true), Ok(()));
}

#[test]
fn error_messages_are_distinct_one_liners() {
    let errors = [
        PipelineError::NotADirectory,
        PipelineError::DestinationMissing,
        PipelineError::EmptyPassphrase,
        PipelineError::ArchiveError,
        PipelineError::CompressionError,
        PipelineError::EncryptionFailed,
        PipelineError::UnsupportedMode,
        PipelineError::AuthenticationFailed,
        PipelineError::FormatError,
    ];
    for (i, a) in errors.iter().enumerate() {
        let message = a.message();
        assert!(!message.is_empty());
        assert!(!message.contains('\n'));
        for b in errors.iter().skip(i + 1) {
            assert_ne!(a.message(), b.message());
        }
    }
    assert_eq!(
        PipelineError::EmptyPassphrase.message(),
        "empty passphrase is not allowed"
    );
}

/// A well-encrypted artifact whose inner layers are wrong surfaces the
/// failure of the stage that rejects it: bytes that are no gzip stream give
/// the compression error, a gzip stream holding no archive gives the
/// archive error.
#[test]
fn stream_and_archive_failures_surface_distinctly() {
    let pass = "correct-horse".to_string();
    let mut recipient =
        age::scrypt::Recipient::new(age::secrecy::SecretString::from(pass.clone()));
    recipient.set_work_factor(10);

    let not_gzip = age::encrypt(&recipient, b"definitely not a gzip stream").expect("age");
    assert_eq!(
        decrypt_artifact(&not_gzip, &pass).unwrap_err(),
        PipelineError::CompressionError
    );

    let mut encoder =
        flate2::write::GzEncoder::new(Vec::new(), flate2::Compression::default());
    std::io::Write::write_all(&mut encoder, &[0xABu8; 1024]).expect("gzip write");
    let gzipped_garbage = encoder.finish().expect("gzip finish");
    let not_tar = age::encrypt(&recipient, &gzipped_garbage).expect("age");
    assert_eq!(
        decrypt_artifact(&not_tar, &pass).unwrap_err(),
        PipelineError::ArchiveError
    );
}

/// Permission bits are twelve bits; an entry claiming more cannot be
/// recorded by the serializer and is rejected before any stage runs.
#[test]
fn unrepresentable_mode_rejected() {
    let tree = vec![TreeEntry::File {
        path: "a.txt".to_string(),
        mode: 0o10000,
        data: b"hello".to_vec(),
    }];
    assert_eq!(
        encrypt_tree(&tree, &"correct-horse".to_string()),
        Err(PipelineError::ArchiveError)
    );
}

/// The serializer records only clean relative paths verbatim; anything it
/// would refuse or silently rewrite is rejected before any stage runs. A
/// link target may be absolute or climb, but is held to the same
/// no-rewriting rule.
#[test]
fn unclean_paths_rejected() {
    let pass = "correct-horse".to_string();
    let bad_paths = ["", "/abs", "./a", "a/./b", "../a", "a/..", "a//b", "a/", "nul\0byte"];
    for bad in bad_paths.iter() {
        let tree = vec![TreeEntry::File {
            path: bad.to_string(),
            mode: 0o644,
            data: b"x".to_vec(),
        }];
        assert_eq!(
            encrypt_tree(&tree, &pass),
            Err(PipelineError::ArchiveError),
            "path {:?} must be rejected",
            bad
        );
    }
    let bad_targets = ["", "a//b", "x/./y", "t/"];
    for bad in bad_targets.iter() {
        let tree = vec![TreeEntry::Symlink {
            path: "l".to_string(),
            target: bad.to_string(),
        }];
        assert_eq!(
            encrypt_tree(&tree, &pass),
            Err(PipelineError::ArchiveError),
            "target {:?} must be rejected",
            bad
        );
    }
}
