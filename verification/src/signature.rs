use vstd::prelude::*;

use crate::errors::{Outcome, SignerError};
use crate::keys::{ed25519_pk_of, ed25519_pk_valid, PrivateKey, PublicKey};
use base64::Engine;
use ed25519_dalek::Signer;
use ed25519_dalek::Verifier;

verus! {

/// The Ed25519 signature (64 bytes) over a message under a 32-byte private
/// seed. Ed25519 signing is deterministic: a fixed function of seed and
/// message alone.
pub uninterp spec fn ed25519_sign_of(seed: Seq<u8>, msg: Seq<u8>) -> Seq<u8>;

/// Whether a 64-byte signature verifies over a message under a valid 32-byte
/// public key: a fixed function of the three inputs.
pub uninterp spec fn ed25519_verify_ok(pk: Seq<u8>, msg: Seq<u8>, sig: Seq<u8>) -> bool;

/// The standard base64 rendering (with padding) of a byte sequence.
pub uninterp spec fn b64_of(b: Seq<u8>) -> Seq<char>;

/// What standard base64 decoding yields on a character sequence: the decoded
/// bytes, or nothing where the input is not valid base64.
pub uninterp spec fn b64_decode_of(s: Seq<char>) -> Option<Seq<u8>>;

/// Relies on ed25519_dalek's `Signer::sign` (with `SigningKey::from_bytes`
/// converting the seed): deterministic Ed25519 signing, 64 bytes out, and the
/// result verifies under the public key that belongs to the seed.
#[verifier::external_body]
fn sign_raw(seed: &[u8], msg: &[u8]) -> (r: Vec<u8>)
    requires
        seed@.len() == 32,
    ensures
        r@ == ed25519_sign_of(seed@, msg@),
        r@.len() == 64,
        ed25519_verify_ok(ed25519_pk_of(seed@), msg@, r@),
{
    let arr: [u8; 32] = seed.try_into().unwrap();
    let key = ed25519_dalek::SigningKey::from_bytes(&arr);
    key.sign(msg).to_bytes().to_vec()
}

/// Relies on ed25519_dalek's `Verifier::verify` (with
/// `VerifyingKey::from_bytes` and `Signature::from_slice` converting the
/// arguments): the deterministic Ed25519 verification predicate.
#[verifier::external_body]
fn verify_raw(pk: &[u8], msg: &[u8], sig: &[u8]) -> (r: bool)
    requires
        pk@.len() == 32,
        ed25519_pk_valid(pk@),
        sig@.len() == 64,
    ensures
        r == ed25519_verify_ok(pk@, msg@, sig@),
{
    let arr: [u8; 32] = pk.try_into().unwrap();
    let key = match ed25519_dalek::VerifyingKey::from_bytes(&arr) {
        Ok(k) => k,
        Err(_) => return false,
    };
    let signature = match ed25519_dalek::Signature::from_slice(sig) {
        Ok(s) => s,
        Err(_) => return false,
    };
    key.verify(msg, &signature).is_ok()
}

/// Relies on base64's `Engine::encode` with the standard alphabet and
/// padding: a fixed function of the input bytes, and decoding the rendering
/// gives back exactly those bytes.
#[verifier::external_body]
fn b64_encode(data: &[u8]) -> (r: String)
    ensures
        r@ == b64_of(data@),
        b64_decode_of(r@) == Some(data@),
{
    base64::engine::general_purpose::STANDARD.encode(data)
}

/// Relies on base64's `Engine::decode` with the standard alphabet: the
/// decoded bytes, or nothing where the input is not valid base64.
#[verifier::external_body]
fn b64_decode(s: &str) -> (r: Option<Vec<u8>>)
    ensures
        match r {
            Some(v) => b64_decode_of(s@) == Some(v@),
            None => b64_decode_of(s@) is None,
        },
{
    match base64::engine::general_purpose::STANDARD.decode(s) {
        Ok(v) => Some(v),
        Err(_) => None,
    }
}

/// Sign a canonical message with a private key: the deterministic Ed25519
/// signature of the message bytes under the key's seed. The signature
/// verifies under the public key that belongs to that seed.
pub fn sign_message(msg: &[u8], key: &PrivateKey) -> (r: Vec<u8>)
    ensures
        r@ == ed25519_sign_of(key@, msg@),
        r@.len() == 64,
        ed25519_verify_ok(ed25519_pk_of(key@), msg@, r@),
{
    sign_raw(key.as_bytes(), msg)
}

/// Base64 rendering of a raw signature, for the sidecar file and the registry
/// fragment; decoding it gives back exactly the raw signature bytes.
pub fn encode_signature(sig: &[u8]) -> (r: String)
    ensures
        r@ == b64_of(sig@),
        b64_decode_of(r@) == Some(sig@),
{
    b64_encode(sig)
}

/// What decoding a claimed base64 signature must yield for the claim to be
/// well-formed: the decoded bytes, exactly 64 of them.
pub open spec fn spec_decode_signature(s: Seq<char>) -> Option<Seq<u8>> {
    match b64_decode_of(s) {
        Some(v) => if v.len() == 64 {
            Some(v)
        } else {
            None
        },
        None => None,
    }
}

/// Decode a claimed base64 signature. Malformed base64 and a decoded length
/// other than the fixed signature size are both encoding errors.
pub fn decode_signature(s: &str) -> (r: Result<Vec<u8>, SignerError>)
    ensures
        r is Ok <==> spec_decode_signature(s@) is Some,
        r matches Ok(v) ==> spec_decode_signature(s@) == Some(v@) && v@.len() == 64,
        r matches Err(e) ==> e == SignerError::SignatureEncodingError,
{
    match b64_decode(s) {
        None => Err(SignerError::SignatureEncodingError),
        Some(v) => {
            if v.len() == 64 {
                Ok(v)
            } else {
                Err(SignerError::SignatureEncodingError)
            }
        },
    }
}

/// Check a claimed signature against a message and a public key. The claim is
/// decoded afresh; the cryptographic check runs only on a well-formed claim,
/// and a mismatch is a normal result, not an error.
pub fn verify_message(msg: &[u8], signature_b64: &str, key: &PublicKey) -> (r: Result<
    Outcome,
    SignerError,
>)
    ensures
        r is Ok <==> spec_decode_signature(signature_b64@) is Some,
        r matches Err(e) ==> e == SignerError::SignatureEncodingError,
        r matches Ok(o) ==> (o == Outcome::Verified <==> ed25519_verify_ok(
            key@,
            msg@,
            spec_decode_signature(signature_b64@).unwrap(),
        )),
        r matches Ok(o) ==> (o == Outcome::Rejected <==> !ed25519_verify_ok(
            key@,
            msg@,
            spec_decode_signature(signature_b64@).unwrap(),
        )),
{
    let sig = match decode_signature(signature_b64) {
        Ok(v) => v,
        Err(e) => {
            return Err(e);
        },
    };
    if verify_raw(key.as_bytes(), msg, sig.as_slice()) {
        Ok(Outcome::Verified)
    } else {
        Ok(Outcome::Rejected)
    }
}

} // verus!
