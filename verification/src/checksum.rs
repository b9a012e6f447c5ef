use vstd::prelude::*;

use crate::util::append_bytes;
use sha2::Digest;

verus! {

/// The lowercase ASCII hex digit for a value below 16.
pub open spec fn hex_digit(v: int) -> u8 {
    if v < 10 {
        (48 + v) as u8
    } else {
        (87 + v) as u8
    }
}

/// Lowercase hex rendering of a byte sequence: two ASCII digits per byte,
/// in input order.
pub open spec fn hex_bytes_of(b: Seq<u8>) -> Seq<u8>
    decreases b.len(),
{
    if b.len() == 0 {
        Seq::empty()
    } else {
        seq![hex_digit(b.first() as int / 16), hex_digit(b.first() as int % 16)]
            + hex_bytes_of(b.drop_first())
    }
}

/// The SHA-256 digest (32 bytes) of a byte sequence: a fixed function of the
/// input bytes alone, identical across calls, processes and machines.
pub uninterp spec fn sha256_of(b: Seq<u8>) -> Seq<u8>;

/// Relies on sha2's `Sha256::digest`: one SHA-256 hash over the whole input,
/// 32 bytes out, a deterministic function of the input bytes alone.
#[verifier::external_body]
fn sha256(data: &[u8]) -> (r: Vec<u8>)
    ensures
        r@ == sha256_of(data@),
        r@.len() == 32,
{
    sha2::Sha256::digest(data).to_vec()
}

/// Relies on `hex::encode`: lowercase hex, two digits per byte, in input order.
#[verifier::external_body]
fn hex_encode(data: &[u8]) -> (r: Vec<u8>)
    ensures
        r@ == hex_bytes_of(data@),
{
    hex::encode(data).into_bytes()
}

/// The bare digest of a byte sequence: lowercase hex of its SHA-256.
pub open spec fn spec_digest_hex(b: Seq<u8>) -> Seq<u8> {
    hex_bytes_of(sha256_of(b))
}

/// The ASCII bytes of the scheme tag `sha256:`.
pub open spec fn digest_prefix() -> Seq<u8> {
    seq![115u8, 104u8, 97u8, 50u8, 53u8, 54u8, 58u8]
}

/// The prefixed digest of a byte sequence: `sha256:` followed by the bare digest.
pub open spec fn spec_digest_prefixed(b: Seq<u8>) -> Seq<u8> {
    digest_prefix() + spec_digest_hex(b)
}

/// Bare content digest: the lowercase hex of the SHA-256 of `data`,
/// as ASCII bytes. Used by the release scheme.
pub fn digest_hex(data: &[u8]) -> (r: Vec<u8>)
    ensures
        r@ == spec_digest_hex(data@),
        r@.len() == 64,
{
    let h = sha256(data);
    let r = hex_encode(h.as_slice());
    proof {
        lemma_hex_bytes_len(h@);
    }
    r
}

/// Prefixed content digest: `sha256:` followed by the bare digest.
/// Used by the plugin scheme.
pub fn digest_prefixed(data: &[u8]) -> (r: Vec<u8>)
    ensures
        r@ == spec_digest_prefixed(data@),
        r@.len() == 71,
{
    let mut out: Vec<u8> = Vec::new();
    out.push(115);
    out.push(104);
    out.push(97);
    out.push(50);
    out.push(53);
    out.push(54);
    out.push(58);
    assert(out@ =~= digest_prefix());
    let hex_digest = digest_hex(data);
    append_bytes(&mut out, hex_digest.as_slice());
    out
}

/// The hex rendering of a sequence has twice its length.
pub proof fn lemma_hex_bytes_len(b: Seq<u8>)
    ensures
        hex_bytes_of(b).len() == 2 * b.len(),
    decreases b.len(),
{
    if b.len() > 0 {
        lemma_hex_bytes_len(b.drop_first());
    }
}

/// Law: the digest is deterministic — equal input bytes always yield an
/// identical digest.
pub proof fn lemma_digest_deterministic(b1: Seq<u8>, b2: Seq<u8>)
    requires
        b1 == b2,
    ensures
        spec_digest_hex(b1) == spec_digest_hex(b2),
        spec_digest_prefixed(b1) == spec_digest_prefixed(b2),
{
}

} // verus!
