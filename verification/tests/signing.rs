use plugin_signer::errors::{Outcome, SignerError};
use plugin_signer::keys::{derive_public, PrivateKey};
use plugin_signer::manifest::extract_version;
use plugin_signer::message::sidecar_file_name;
use plugin_signer::protocol::{sign_plugin, sign_release, verify_plugin, verify_release};
use plugin_signer::signature::{encode_signature, sign_message, verify_message};
use sha2::Digest;

fn test_keys() -> (PrivateKey, plugin_signer::keys::PublicKey) {
    let private = PrivateKey::parse(&[7u8; 32]).unwrap();
    let public = derive_public(&private);
    (private, public)
}

fn other_public() -> plugin_signer::keys::PublicKey {
    let private = PrivateKey::parse(&[8u8; 32]).unwrap();
    derive_public(&private)
}

#[test]
fn sign_then_verify_is_verified() {
    let (private, public) = test_keys();
    let msg = b"any non-empty message";
    let sig = encode_signature(&sign_message(msg, &private));
    assert_eq!(verify_message(msg, &sig, &public), Ok(Outcome::Verified));
}

#[test]
fn signing_is_deterministic() {
    let (private, _) = test_keys();
    assert_eq!(
        sign_message(b"same message", &private),
        sign_message(b"same message", &private)
    );
}

#[test]
fn verify_with_unrelated_key_is_rejected() {
    let (private, _) = test_keys();
    let msg = b"a message signed under one key";
    let sig = encode_signature(&sign_message(msg, &private));
    assert_eq!(
        verify_message(msg, &sig, &other_public()),
        Ok(Outcome::Rejected)
    );
}

#[test]
fn verify_of_altered_message_is_rejected() {
    let (private, public) = test_keys();
    let msg = b"pristine content".to_vec();
    let sig = encode_signature(&sign_message(&msg, &private));
    for i in 0..msg.len() {
        let mut altered = msg.clone();
        altered[i] ^= 0x01;
        assert_eq!(
            verify_message(&altered, &sig, &public),
            Ok(Outcome::Rejected)
        );
    }
}

#[test]
fn extract_version_takes_first_quoted_value() {
    assert_eq!(
        extract_version(b"name = \"todo\"\nversion = \"1.2.0\"\n"),
        Some(b"1.2.0".to_vec())
    );
    assert_eq!(
        extract_version(b"version = \"1.0.0\"\nversion = \"2.0.0\"\n"),
        Some(b"1.0.0".to_vec())
    );
}

#[test]
fn extract_version_keeps_unquoted_value() {
    assert_eq!(
        extract_version(b"version = 1.2.0"),
        Some(b"1.2.0".to_vec())
    );
}

#[test]
fn extract_version_reads_crlf_manifests() {
    assert_eq!(
        extract_version(b"name = \"todo\"\r\nversion = \"3.1.4\"\r\n"),
        Some(b"3.1.4".to_vec())
    );
}

#[test]
fn extract_version_trims_one_quote_pair_only() {
    assert_eq!(extract_version(b"version = \"\""), Some(b"".to_vec()));
    assert_eq!(extract_version(b"version = \"\"x\"\""), Some(b"\"x\"".to_vec()));
    assert_eq!(extract_version(b"version = \""), Some(b"\"".to_vec()));
}

#[test]
fn extract_version_requires_line_start() {
    assert_eq!(extract_version(b"  version = \"1.0\"\n"), None);
    assert_eq!(extract_version(b"xversion = \"1.0\"\n"), None);
}

#[test]
fn extract_version_fails_without_version_line() {
    assert_eq!(extract_version(b"name = \"todo\"\n"), None);
    assert_eq!(extract_version(b""), None);
}

#[test]
fn plugin_scenario_builds_expected_message_and_verifies() {
    let entry = b"print('hello')\n";
    let manifest = b"name = \"todo\"\nversion = \"1.2.0\"\n";
    let (private, public) = test_keys();
    let signed = sign_plugin(b"todo-plugin", entry, manifest, &private).unwrap();

    let expected = format!(
        "todo-plugin/:1.2.0:sha256:{}:sha256:{}",
        hex::encode(sha2::Sha256::digest(entry)),
        hex::encode(sha2::Sha256::digest(manifest)),
    );
    assert_eq!(signed.message, expected.into_bytes());
    assert_eq!(signed.version, b"1.2.0".to_vec());
    assert_eq!(
        signed.entry_checksum,
        format!("sha256:{}", hex::encode(sha2::Sha256::digest(entry))).into_bytes()
    );

    assert_eq!(
        verify_plugin(b"todo-plugin", entry, manifest, &signed.signature_b64, &public),
        Ok(Outcome::Verified)
    );
    assert_eq!(
        verify_plugin(
            b"todo-plugin",
            entry,
            manifest,
            &signed.signature_b64,
            &other_public()
        ),
        Ok(Outcome::Rejected)
    );
}

#[test]
fn plugin_with_altered_entry_byte_is_rejected() {
    let entry = b"print('hello')\n".to_vec();
    let manifest = b"version = \"1.2.0\"\n";
    let (private, public) = test_keys();
    let signed = sign_plugin(b"todo-plugin", &entry, manifest, &private).unwrap();
    for i in 0..entry.len() {
        let mut altered = entry.clone();
        altered[i] ^= 0x01;
        assert_eq!(
            verify_plugin(b"todo-plugin", &altered, manifest, &signed.signature_b64, &public),
            Ok(Outcome::Rejected)
        );
    }
}

#[test]
fn plugin_without_version_line_is_malformed() {
    let (private, public) = test_keys();
    assert_eq!(
        sign_plugin(b"todo-plugin", b"entry", b"name = \"todo\"\n", &private).err(),
        Some(SignerError::MalformedManifest)
    );
    assert_eq!(
        verify_plugin(b"todo-plugin", b"entry", b"name = \"todo\"\n", "AA==", &public).err(),
        Some(SignerError::MalformedManifest)
    );
}

#[test]
fn release_scenario_builds_expected_message() {
    let binary = b"\x7fELF release bytes";
    let (private, _) = test_keys();
    let signed = sign_release(b"0.9.1", b"linux-amd64", binary, &private);
    let expected = format!(
        "0.9.1:linux-amd64:{}",
        hex::encode(sha2::Sha256::digest(binary))
    );
    assert_eq!(signed.message, expected.clone().into_bytes());
    assert_eq!(
        signed.checksum,
        hex::encode(sha2::Sha256::digest(binary)).into_bytes()
    );
}

#[test]
fn release_sidecar_round_trip_verifies() {
    let binary = b"release binary image";
    let (private, public) = test_keys();
    let signed = sign_release(b"0.9.1", b"linux-amd64", binary, &private);
    let sidecar_content = signed.signature_b64.clone();
    assert_eq!(
        verify_release(b"0.9.1", b"linux-amd64", binary, &sidecar_content, &public),
        Ok(Outcome::Verified)
    );
}

#[test]
fn release_with_altered_binary_byte_is_rejected() {
    let binary = b"release binary image".to_vec();
    let (private, public) = test_keys();
    let signed = sign_release(b"0.9.1", b"linux-amd64", &binary, &private);
    for i in 0..binary.len() {
        let mut altered = binary.clone();
        altered[i] ^= 0x80;
        assert_eq!(
            verify_release(b"0.9.1", b"linux-amd64", &altered, &signed.signature_b64, &public),
            Ok(Outcome::Rejected)
        );
    }
}

#[test]
fn release_with_wrong_identity_is_rejected() {
    let binary = b"release binary image";
    let (private, public) = test_keys();
    let signed = sign_release(b"0.9.1", b"linux-amd64", binary, &private);
    assert_eq!(
        verify_release(b"0.9.2", b"linux-amd64", binary, &signed.signature_b64, &public),
        Ok(Outcome::Rejected)
    );
    assert_eq!(
        verify_release(b"0.9.1", b"macos-universal", binary, &signed.signature_b64, &public),
        Ok(Outcome::Rejected)
    );
}

#[test]
fn verify_release_rejects_malformed_signature_claim() {
    let (_, public) = test_keys();
    assert_eq!(
        verify_release(b"0.9.1", b"linux-amd64", b"bytes", "*bad*", &public).err(),
        Some(SignerError::SignatureEncodingError)
    );
    assert_eq!(
        verify_release(b"0.9.1", b"linux-amd64", b"bytes", "AA==", &public).err(),
        Some(SignerError::SignatureEncodingError)
    );
}

#[test]
fn distinct_identities_give_distinct_messages() {
    let binary = b"release binary image";
    let (private, _) = test_keys();
    let a = sign_release(b"0.9.1", b"linux-amd64", binary, &private);
    let b = sign_release(b"0.9.2", b"linux-amd64", binary, &private);
    let c = sign_release(b"0.9.1", b"macos-universal", binary, &private);
    assert_ne!(a.message, b.message);
    assert_ne!(a.message, c.message);
    assert_ne!(b.message, c.message);
}

#[test]
fn sidecar_name_appends_sig() {
    assert_eq!(sidecar_file_name(b"app"), b"app.sig".to_vec());
    assert_eq!(sidecar_file_name(b"app.exe"), b"app.exe.sig".to_vec());
    assert_eq!(
        sidecar_file_name(b"tool-0.9.1-linux-amd64"),
        b"tool-0.9.1-linux-amd64.sig".to_vec()
    );
}
