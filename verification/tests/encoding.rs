use base64::Engine;
use plugin_signer::errors::SignerError;
use plugin_signer::signature::{decode_signature, encode_signature};

#[test]
fn encode_signature_known_value() {
    let sig = vec![0u8; 64];
    let mut expected = "A".repeat(86);
    expected.push_str("==");
    assert_eq!(encode_signature(&sig), expected);
}

#[test]
fn encode_signature_matches_outside_engine() {
    let sig: Vec<u8> = (0u8..64).collect();
    let independent = base64::engine::general_purpose::STANDARD.encode(&sig);
    assert_eq!(encode_signature(&sig), independent);
}

#[test]
fn decode_signature_round_trip() {
    let sig: Vec<u8> = (100u8..164).collect();
    let rendered = encode_signature(&sig);
    assert_eq!(decode_signature(&rendered), Ok(sig));
}

#[test]
fn decode_signature_rejects_bad_base64() {
    assert_eq!(
        decode_signature("!not base64!"),
        Err(SignerError::SignatureEncodingError)
    );
}

#[test]
fn decode_signature_rejects_wrong_length() {
    let rendered = encode_signature(b"too short to be a signature");
    assert_eq!(
        decode_signature(&rendered),
        Err(SignerError::SignatureEncodingError)
    );
}
