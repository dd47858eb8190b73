use openmix::digest::{hex_lower_string, FileHasher, HashStep, ReadOutcome, HASH_BUF_SIZE};
use sha2::{Digest, Sha256};

fn reference_hex(bytes: &[u8]) -> String {
    let mut h = Sha256::new();
    h.update(bytes);
    h.finalize().iter().map(|b| format!("{b:02x}")).collect()
}

#[test]
fn hash_buf_size_is_bounded() {
    assert_eq!(HASH_BUF_SIZE, 64 * 1024);
}

#[test]
fn hasher_matches_in_memory_digest() {
    let bytes = b"openmix hash probe bytes";
    let mut h = FileHasher::new();
    h.absorb(bytes);
    assert_eq!(h.finish(), reference_hex(bytes));
}

#[test]
fn hasher_of_nothing_is_the_empty_digest() {
    assert_eq!(
        FileHasher::new().finish(),
        "e3b0c44298fc1c149afbf4c8996fb92427ae41e4649b934ca495991b7852b855"
    );
}

#[test]
fn hasher_of_hello_world_is_known_digest() {
    let mut h = FileHasher::new();
    h.absorb(b"hello world");
    assert_eq!(
        h.finish(),
        "b94d27b9934d3e08a52e52d7da7dabfac484efe37a5380ee9088f7ace2efcde9"
    );
}

#[test]
fn chunked_absorption_equals_whole_content() {
    let content: Vec<u8> = (0..200_000u32).map(|i| (i * 31 % 251) as u8).collect();
    let mut h = FileHasher::new();
    for chunk in content.chunks(HASH_BUF_SIZE) {
        h.absorb(chunk);
    }
    let streamed = h.finish();
    assert_eq!(streamed, reference_hex(&content));
    assert_eq!(streamed.len(), 64);
}

#[test]
fn changed_content_changes_the_fingerprint() {
    let mut a = FileHasher::new();
    a.absorb(b"abc");
    let mut b = FileHasher::new();
    b.absorb(b"abd");
    assert_ne!(a.finish(), b.finish());
}

#[test]
fn hex_is_two_lowercase_digits_per_byte() {
    assert_eq!(hex_lower_string(&[]), "");
    assert_eq!(hex_lower_string(&[0x00, 0x0f, 0xa5, 0xff, 0x10]), "000fa5ff10");
}

#[test]
fn read_outcomes_drive_the_hashing_loop() {
    let buf = b"hello worldXXXX";
    let mut h = FileHasher::new();
    assert_eq!(h.on_read(buf, ReadOutcome::Interrupted), HashStep::ReadMore);
    assert_eq!(h.on_read(buf, ReadOutcome::Bytes(5)), HashStep::ReadMore);
    assert_eq!(h.on_read(&buf[5..], ReadOutcome::Bytes(6)), HashStep::ReadMore);
    assert_eq!(h.on_read(buf, ReadOutcome::Bytes(0)), HashStep::Finished);
    assert_eq!(h.finish(), reference_hex(b"hello world"));
    let mut g = FileHasher::new();
    assert_eq!(g.on_read(buf, ReadOutcome::Failed), HashStep::Abort);
    assert_eq!(g.finish(), reference_hex(b""));
}

#[test]
fn absorbing_in_two_parts_finishes_like_the_whole() {
    let mut parts = FileHasher::new();
    parts.absorb(b"openmix ");
    parts.absorb(b"fingerprint");
    let mut whole = FileHasher::new();
    whole.absorb(b"openmix fingerprint");
    assert_eq!(parts.finish(), whole.finish());
}
