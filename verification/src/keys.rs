use vstd::prelude::*;

use crate::errors::SignerError;
use vstd::slice::slice_to_vec;

verus! {

/// The Ed25519 public key that belongs to a 32-byte private seed: a fixed
/// function of the seed alone.
pub uninterp spec fn ed25519_pk_of(seed: Seq<u8>) -> Seq<u8>;

/// Whether 32 bytes are the encoding of a valid point on the Ed25519 curve,
/// and so usable as a public key.
pub uninterp spec fn ed25519_pk_valid(pk: Seq<u8>) -> bool;

/// Relies on ed25519_dalek's `VerifyingKey::from_bytes`: it accepts exactly
/// the 32-byte encodings of valid curve points.
#[verifier::external_body]
fn pk_check(bytes: &[u8]) -> (r: bool)
    requires
        bytes@.len() == 32,
    ensures
        r == ed25519_pk_valid(bytes@),
{
    let arr: [u8; 32] = bytes.try_into().unwrap();
    ed25519_dalek::VerifyingKey::from_bytes(&arr).is_ok()
}

/// Relies on ed25519_dalek's `SigningKey::verifying_key` (with
/// `SigningKey::from_bytes` converting the seed): the public key derived from
/// a seed is a fixed function of the seed, and a valid curve point.
#[verifier::external_body]
fn pk_from_seed(seed: &[u8]) -> (r: Vec<u8>)
    requires
        seed@.len() == 32,
    ensures
        r@ == ed25519_pk_of(seed@),
        r@.len() == 32,
        ed25519_pk_valid(r@),
{
    let arr: [u8; 32] = seed.try_into().unwrap();
    ed25519_dalek::SigningKey::from_bytes(&arr).verifying_key().to_bytes().to_vec()
}

/// Relies on ed25519_dalek's `SigningKey::generate` with rand's `OsRng`: a
/// fresh 32-byte seed drawn from the operating system's secure random source.
/// Nothing is promised of the value itself.
#[verifier::external_body]
fn fresh_seed() -> (r: Vec<u8>)
    ensures
        r@.len() == 32,
{
    let mut csprng = rand::rngs::OsRng;
    ed25519_dalek::SigningKey::generate(&mut csprng).to_bytes().to_vec()
}

/// The private half of a keypair: exactly 32 seed bytes.
pub struct PrivateKey {
    bytes: Vec<u8>,
}

impl View for PrivateKey {
    type V = Seq<u8>;

    closed spec fn view(&self) -> Seq<u8> {
        self.bytes@
    }
}

impl PrivateKey {
    #[verifier::type_invariant]
    spec fn inv(self) -> bool {
        self.bytes@.len() == 32
    }

    /// Accept exactly 32 bytes as a private key; a file of any other length
    /// is a corrupt or foreign key.
    pub fn parse(bytes: &[u8]) -> (r: Result<PrivateKey, SignerError>)
        ensures
            r is Ok <==> bytes@.len() == 32,
            r matches Ok(k) ==> k@ == bytes@,
            r matches Err(e) ==> e == SignerError::KeySizeMismatch,
    {
        if bytes.len() == 32 {
            Ok(PrivateKey { bytes: slice_to_vec(bytes) })
        } else {
            Err(SignerError::KeySizeMismatch)
        }
    }

    /// The raw 32 seed bytes, for persisting the key.
    pub fn as_bytes(&self) -> (r: &[u8])
        ensures
            r@ == self@,
            r@.len() == 32,
    {
        proof {
            use_type_invariant(&*self);
        }
        self.bytes.as_slice()
    }
}

/// The public half of a keypair: exactly 32 bytes that decode to a valid
/// curve point.
pub struct PublicKey {
    bytes: Vec<u8>,
}

impl View for PublicKey {
    type V = Seq<u8>;

    closed spec fn view(&self) -> Seq<u8> {
        self.bytes@
    }
}

impl PublicKey {
    #[verifier::type_invariant]
    spec fn inv(self) -> bool {
        self.bytes@.len() == 32 && ed25519_pk_valid(self.bytes@)
    }

    /// Accept 32 bytes that decode to a valid curve point as a public key;
    /// the wrong length and an invalid encoding are told apart.
    pub fn parse(bytes: &[u8]) -> (r: Result<PublicKey, SignerError>)
        ensures
            r is Ok <==> bytes@.len() == 32 && ed25519_pk_valid(bytes@),
            r matches Ok(k) ==> k@ == bytes@,
            bytes@.len() != 32 ==> r == Err::<PublicKey, SignerError>(SignerError::KeySizeMismatch),
            bytes@.len() == 32 && !ed25519_pk_valid(bytes@) ==> r == Err::<PublicKey, SignerError>(
                SignerError::InvalidPublicKeyEncoding,
            ),
    {
        if bytes.len() != 32 {
            Err(SignerError::KeySizeMismatch)
        } else if !pk_check(bytes) {
            Err(SignerError::InvalidPublicKeyEncoding)
        } else {
            Ok(PublicKey { bytes: slice_to_vec(bytes) })
        }
    }

    /// The raw 32 key bytes, for persisting and for display.
    pub fn as_bytes(&self) -> (r: &[u8])
        ensures
            r@ == self@,
            r@.len() == 32,
            ed25519_pk_valid(r@),
    {
        proof {
            use_type_invariant(&*self);
        }
        self.bytes.as_slice()
    }
}

/// The public key that belongs to a private key, derived afresh from its
/// seed: the half that key generation persists for verifiers.
pub fn derive_public(key: &PrivateKey) -> (r: PublicKey)
    ensures
        r@ == ed25519_pk_of(key@),
        r@.len() == 32,
{
    let bytes = pk_from_seed(key.as_bytes());
    PublicKey { bytes }
}

/// A signing keypair. The two halves are mathematically linked: the public
/// key is the one derived from the private seed.
pub struct KeyPair {
    pub private: PrivateKey,
    pub public: PublicKey,
}

impl KeyPair {
    /// The public half belongs to the private half.
    pub open spec fn linked(&self) -> bool {
        self.public@ == ed25519_pk_of(self.private@)
    }
}

/// What a generation request came to.
pub enum KeygenOutcome {
    /// A fresh keypair was produced; the caller persists both halves.
    Created(KeyPair),
    /// A private key already exists; it is left untouched, and no key
    /// material is produced or replaced.
    AlreadyExists,
}

/// Key generation is a one-time bootstrap. With a private key already
/// present, nothing is generated and the existing key stays as it is — the
/// caller must delete it out-of-band to regenerate. Otherwise a fresh, linked
/// keypair is drawn from a secure random source.
pub fn generate_keypair(private_key_exists: bool) -> (r: KeygenOutcome)
    ensures
        private_key_exists <==> r is AlreadyExists,
        r matches KeygenOutcome::Created(kp) ==> kp.linked() && kp.private@.len() == 32
            && kp.public@.len() == 32,
{
    if private_key_exists {
        KeygenOutcome::AlreadyExists
    } else {
        let seed = fresh_seed();
        let public_bytes = pk_from_seed(seed.as_slice());
        KeygenOutcome::Created(
            KeyPair { private: PrivateKey { bytes: seed }, public: PublicKey { bytes: public_bytes } },
        )
    }
}

} // verus!
