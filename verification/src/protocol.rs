use vstd::prelude::*;

use crate::checksum::{digest_hex, digest_prefixed, spec_digest_hex, spec_digest_prefixed};
use crate::errors::{Outcome, SignerError};
use crate::keys::{ed25519_pk_of, PrivateKey, PublicKey};
use crate::manifest::{extract_version, manifest_version};
use crate::message::{plugin_message, plugin_message_spec, release_message, release_message_spec};
use crate::signature::{
    b64_decode_of, b64_of, ed25519_sign_of, ed25519_verify_ok, encode_signature, sign_message,
    spec_decode_signature, verify_message,
};

verus! {

/// The canonical message of a plugin bundle, rebuilt from its current content
/// bytes and its declared version. Meaningful only where the manifest
/// declares a version.
pub open spec fn plugin_canonical(bundle: Seq<u8>, entry: Seq<u8>, manifest: Seq<u8>) -> Seq<u8>
    recommends
        manifest_version(manifest) is Some,
{
    plugin_message_spec(bundle, manifest_version(manifest).unwrap(), entry, manifest)
}

/// Everything signing a plugin produces: the values the operator embeds into
/// the artifact registry, plus the exact message that was signed.
pub struct PluginSignature {
    /// The declared version taken from the manifest, quotes trimmed.
    pub version: Vec<u8>,
    /// Prefixed digest of the entry script bytes.
    pub entry_checksum: Vec<u8>,
    /// Prefixed digest of the manifest bytes.
    pub manifest_checksum: Vec<u8>,
    /// The canonical message the signature was computed over.
    pub message: Vec<u8>,
    /// The signature over the message, base64-rendered.
    pub signature_b64: String,
}

/// Sign a plugin bundle: extract the declared version, digest the current
/// content bytes, build the canonical message, and sign it. A manifest with
/// no `version = ` line is rejected as malformed; nothing else can fail.
/// The rendered signature decodes back to the raw signature, which verifies
/// under the public key belonging to `key`.
pub fn sign_plugin(bundle_name: &[u8], entry: &[u8], manifest: &[u8], key: &PrivateKey) -> (r:
    Result<PluginSignature, SignerError>)
    ensures
        r is Ok <==> manifest_version(manifest@) is Some,
        r matches Err(e) ==> e == SignerError::MalformedManifest,
        r matches Ok(ps) ==> ps.version@ == manifest_version(manifest@).unwrap(),
        r matches Ok(ps) ==> ps.entry_checksum@ == spec_digest_prefixed(entry@),
        r matches Ok(ps) ==> ps.manifest_checksum@ == spec_digest_prefixed(manifest@),
        r matches Ok(ps) ==> ps.message@ == plugin_canonical(bundle_name@, entry@, manifest@),
        r matches Ok(ps) ==> ps.signature_b64@ == b64_of(ed25519_sign_of(key@, ps.message@)),
        r matches Ok(ps) ==> b64_decode_of(ps.signature_b64@) == Some(
            ed25519_sign_of(key@, ps.message@),
        ),
        r matches Ok(ps) ==> ed25519_verify_ok(
            ed25519_pk_of(key@),
            ps.message@,
            ed25519_sign_of(key@, ps.message@),
        ),
{
    let version = match extract_version(manifest) {
        Some(v) => v,
        None => {
            return Err(SignerError::MalformedManifest);
        },
    };
    let entry_checksum = digest_prefixed(entry);
    let manifest_checksum = digest_prefixed(manifest);
    let message = plugin_message(bundle_name, version.as_slice(), entry, manifest);
    let raw_signature = sign_message(message.as_slice(), key);
    let signature_b64 = encode_signature(raw_signature.as_slice());
    Ok(
        PluginSignature {
            version,
            entry_checksum,
            manifest_checksum,
            message,
            signature_b64,
        },
    )
}

/// Verify a plugin bundle against a claimed signature: the canonical message
/// is always recomputed from the current content bytes and the version
/// declared in the manifest — never taken from the claim. A missing version
/// line and a malformed claim are errors; a cryptographic mismatch is the
/// normal `Rejected` result.
pub fn verify_plugin(
    bundle_name: &[u8],
    entry: &[u8],
    manifest: &[u8],
    signature_b64: &str,
    key: &PublicKey,
) -> (r: Result<Outcome, SignerError>)
    ensures
        r is Ok <==> manifest_version(manifest@) is Some && spec_decode_signature(
            signature_b64@,
        ) is Some,
        manifest_version(manifest@) is None <==> r == Err::<Outcome, SignerError>(
            SignerError::MalformedManifest,
        ),
        manifest_version(manifest@) is Some && spec_decode_signature(signature_b64@) is None
            <==> r == Err::<Outcome, SignerError>(SignerError::SignatureEncodingError),
        r matches Ok(o) ==> (o == Outcome::Verified <==> ed25519_verify_ok(
            key@,
            plugin_canonical(bundle_name@, entry@, manifest@),
            spec_decode_signature(signature_b64@).unwrap(),
        )),
{
    let version = match extract_version(manifest) {
        Some(v) => v,
        None => {
            return Err(SignerError::MalformedManifest);
        },
    };
    let message = plugin_message(bundle_name, version.as_slice(), entry, manifest);
    verify_message(message.as_slice(), signature_b64, key)
}

/// Everything signing a release binary produces: the report values and the
/// sidecar file's content.
pub struct ReleaseSignature {
    /// Bare digest of the binary bytes.
    pub checksum: Vec<u8>,
    /// The canonical message the signature was computed over.
    pub message: Vec<u8>,
    /// The signature over the message, base64-rendered: exactly what the
    /// sidecar file carries.
    pub signature_b64: String,
}

/// Sign a release binary: digest its bytes, build the canonical message from
/// the caller-supplied version and platform, and sign it. Nothing can fail.
/// The rendered signature decodes back to the raw signature, which verifies
/// under the public key belonging to `key`.
pub fn sign_release(version: &[u8], platform: &[u8], binary: &[u8], key: &PrivateKey) -> (r:
    ReleaseSignature)
    ensures
        r.checksum@ == spec_digest_hex(binary@),
        r.message@ == release_message_spec(version@, platform@, binary@),
        r.signature_b64@ == b64_of(ed25519_sign_of(key@, r.message@)),
        b64_decode_of(r.signature_b64@) == Some(ed25519_sign_of(key@, r.message@)),
        ed25519_verify_ok(
            ed25519_pk_of(key@),
            r.message@,
            ed25519_sign_of(key@, r.message@),
        ),
{
    let checksum = digest_hex(binary);
    let message = release_message(version, platform, binary);
    let raw_signature = sign_message(message.as_slice(), key);
    let signature_b64 = encode_signature(raw_signature.as_slice());
    ReleaseSignature { checksum, message, signature_b64 }
}

/// Verify a release binary against a claimed signature: the canonical message
/// is always recomputed from the binary's current bytes and the
/// caller-supplied identity — never taken from the claim. A malformed claim
/// is an error; a cryptographic mismatch is the normal `Rejected` result.
pub fn verify_release(
    version: &[u8],
    platform: &[u8],
    binary: &[u8],
    signature_b64: &str,
    key: &PublicKey,
) -> (r: Result<Outcome, SignerError>)
    ensures
        r is Ok <==> spec_decode_signature(signature_b64@) is Some,
        r matches Err(e) ==> e == SignerError::SignatureEncodingError,
        r matches Ok(o) ==> (o == Outcome::Verified <==> ed25519_verify_ok(
            key@,
            release_message_spec(version@, platform@, binary@),
            spec_decode_signature(signature_b64@).unwrap(),
        )),
{
    let message = release_message(version, platform, binary);
    verify_message(message.as_slice(), signature_b64, key)
}

} // verus!
