use plugin_signer::checksum::{digest_hex, digest_prefixed};
use sha2::Digest;

#[test]
fn digest_hex_of_known_input() {
    let expected = "ba7816bf8f01cfea414140de5dae2223b00361a396177a9cb410ff61f20015ad";
    assert_eq!(digest_hex(b"abc"), expected.as_bytes().to_vec());
}

#[test]
fn digest_hex_of_empty_input() {
    let expected = "e3b0c44298fc1c149afbf4c8996fb92427ae41e4649b934ca495991b7852b855";
    assert_eq!(digest_hex(b""), expected.as_bytes().to_vec());
}

#[test]
fn digest_prefixed_has_scheme_tag() {
    let expected = "sha256:ba7816bf8f01cfea414140de5dae2223b00361a396177a9cb410ff61f20015ad";
    assert_eq!(digest_prefixed(b"abc"), expected.as_bytes().to_vec());
}

#[test]
fn digest_is_deterministic_and_input_sensitive() {
    let a1 = digest_hex(b"some artifact bytes");
    let a2 = digest_hex(b"some artifact bytes");
    let b = digest_hex(b"some artifact byteS");
    assert_eq!(a1, a2);
    assert_ne!(a1, b);
}

#[test]
fn digest_matches_independent_computation() {
    let data: Vec<u8> = (0u8..=255).collect();
    let independent = hex::encode(sha2::Sha256::digest(&data));
    assert_eq!(digest_hex(&data), independent.into_bytes());
}
