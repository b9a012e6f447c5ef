use plugin_signer::errors::{Outcome, SignerError};
use plugin_signer::keys::{derive_public, generate_keypair, KeygenOutcome, PrivateKey, PublicKey};
use plugin_signer::signature::{encode_signature, sign_message, verify_message};

#[test]
fn private_key_parse_accepts_exactly_32_bytes() {
    assert!(PrivateKey::parse(&[7u8; 32]).is_ok());
    assert_eq!(
        PrivateKey::parse(&[7u8; 31]).err(),
        Some(SignerError::KeySizeMismatch)
    );
    assert_eq!(
        PrivateKey::parse(&[7u8; 33]).err(),
        Some(SignerError::KeySizeMismatch)
    );
    assert_eq!(
        PrivateKey::parse(&[]).err(),
        Some(SignerError::KeySizeMismatch)
    );
}

#[test]
fn private_key_round_trips_its_bytes() {
    let seed: Vec<u8> = (0u8..32).collect();
    let key = PrivateKey::parse(&seed).unwrap();
    assert_eq!(key.as_bytes(), seed.as_slice());
}

#[test]
fn public_key_parse_rejects_wrong_length() {
    assert_eq!(
        PublicKey::parse(&[1u8; 16]).err(),
        Some(SignerError::KeySizeMismatch)
    );
}

#[test]
fn public_key_parse_matches_curve_point_check() {
    let patterns: Vec<[u8; 32]> = vec![[0u8; 32], [1u8; 32], [2u8; 32], [6u8; 32], [255u8; 32]];
    let mut rejected = 0;
    for bytes in patterns {
        let ours = PublicKey::parse(&bytes);
        let outside = ed25519_dalek::VerifyingKey::from_bytes(&bytes);
        assert_eq!(ours.is_ok(), outside.is_ok());
        if let Err(e) = ours {
            assert_eq!(e, SignerError::InvalidPublicKeyEncoding);
            rejected += 1;
        }
    }
    assert!(rejected > 0);
}

#[test]
fn public_key_parse_accepts_derived_key() {
    let key = PrivateKey::parse(&[9u8; 32]).unwrap();
    let public = derive_public(&key);
    let reparsed = PublicKey::parse(public.as_bytes()).unwrap();
    assert_eq!(reparsed.as_bytes(), public.as_bytes());
}

#[test]
fn generate_keypair_leaves_existing_key_alone() {
    assert!(matches!(generate_keypair(true), KeygenOutcome::AlreadyExists));
}

#[test]
fn generate_keypair_creates_working_pair() {
    let kp = match generate_keypair(false) {
        KeygenOutcome::Created(kp) => kp,
        KeygenOutcome::AlreadyExists => panic!("no key exists, one must be created"),
    };
    let sig = sign_message(b"bootstrap message", &kp.private);
    let rendered = encode_signature(&sig);
    assert_eq!(
        verify_message(b"bootstrap message", &rendered, &kp.public),
        Ok(Outcome::Verified)
    );
}

#[test]
fn derive_public_matches_generated_half() {
    let kp = match generate_keypair(false) {
        KeygenOutcome::Created(kp) => kp,
        KeygenOutcome::AlreadyExists => panic!("no key exists, one must be created"),
    };
    let derived = derive_public(&kp.private);
    assert_eq!(derived.as_bytes(), kp.public.as_bytes());
}
