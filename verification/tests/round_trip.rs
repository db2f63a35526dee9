use folder_lock::pipeline::decrypt_artifact;
use folder_lock::pipeline::encrypt_tree;
use folder_lock::tree::TreeEntry;

fn file(path: &str, mode: u32, data: &[u8]) -> TreeEntry {
    TreeEntry::File { path: path.to_string(), mode, data: data.to_vec() }
}

fn dir(path: &str, mode: u32) -> TreeEntry {
    TreeEntry::Dir { path: path.to_string(), mode }
}

fn symlink(path: &str, target: &str) -> TreeEntry {
    TreeEntry::Symlink { path: path.to_string(), target: target.to_string() }
}

#[test]
fn scenario_hello_round_trip() {
    let tree = vec![file("a.txt", 0o644, b"hello")];
    let pass = "correct-horse".to_string();
    let artifact = encrypt_tree(&tree, &pass).expect("encryption should succeed");

    let restored = decrypt_artifact(&artifact, &pass).expect("decryption should succeed");
    assert_eq!(restored.len(), 1);
    match &restored[0] {
        TreeEntry::File { path, data, .. } => {
            assert_eq!(path, "a.txt");
            assert_eq!(data.as_slice(), b"hello");
        }
        other => panic!("expected a file entry, got {:?}", other),
    }

    let wrong = decrypt_artifact(&artifact, &"wrong".to_string());
    assert!(wrong.is_err(), "a wrong passphrase must be rejected");
}

#[test]
fn round_trip_nested_tree() {
    let tree = vec![
        dir("sub", 0o755),
        dir("sub/inner", 0o700),
        file("sub/script.sh", 0o755, b"#!/bin/sh\nexit 0\n"),
        file("sub/inner/secret.bin", 0o600, &[0u8, 1, 2, 255, 254, 0, 7]),
        file("empty.dat", 0o644, b""),
        symlink("link-to-script", "sub/script.sh"),
        symlink("sub/link-up", "../empty.dat"),
        symlink("link-abs", "/usr/bin/env"),
    ];
    let pass = "correct-horse".to_string();
    let artifact = encrypt_tree(&tree, &pass).expect("encryption should succeed");
    let restored = decrypt_artifact(&artifact, &pass).expect("decryption should succeed");
    assert_eq!(restored, tree);
}

#[test]
fn round_trip_empty_tree() {
    let tree: Vec<TreeEntry> = Vec::new();
    let pass = "a different passphrase with spaces".to_string();
    let artifact = encrypt_tree(&tree, &pass).expect("encryption should succeed");
    let restored = decrypt_artifact(&artifact, &pass).expect("decryption should succeed");
    assert!(restored.is_empty());
}

/// The artifact must be the three documented layers in order: an age stream
/// around a gzip stream around a tar archive. Each layer is opened here with
/// its own crate, not with the library.
#[test]
fn layering_order_matches_stage_crates() {
    let tree = vec![file("a.txt", 0o644, b"hello")];
    let pass = "correct-horse".to_string();
    let artifact = encrypt_tree(&tree, &pass).expect("encryption should succeed");
    assert_ne!(artifact.as_slice(), b"hello", "the artifact must not hold the plaintext");

    let identity = age::scrypt::Identity::new(age::secrecy::SecretString::from(pass));
    let compressed = age::decrypt(&identity, artifact.as_slice()).expect("age layer");

    let mut archive_bytes: Vec<u8> = Vec::new();
    let mut decoder = flate2::read::GzDecoder::new(compressed.as_slice());
    std::io::Read::read_to_end(&mut decoder, &mut archive_bytes).expect("gzip layer");

    let mut archive = tar::Archive::new(archive_bytes.as_slice());
    let mut entries = archive.entries().expect("tar layer");
    let mut entry = entries.next().expect("one entry").expect("readable entry");
    assert_eq!(entry.path().unwrap().to_str().unwrap(), "a.txt");
    let mut contents: Vec<u8> = Vec::new();
    std::io::Read::read_to_end(&mut entry, &mut contents).expect("entry contents");
    assert_eq!(contents.as_slice(), b"hello");
    assert!(entries.next().is_none(), "exactly one entry was packed");
}
