use vstd::prelude::*;

verus! {

/// The faults a signing or verification command can run into.
///
/// A cryptographic mismatch is not listed here: it is a normal result,
/// reported through `Outcome`, not an error.
#[derive(Clone, Copy, Debug, PartialEq, Eq, Structural)]
pub enum SignerError {
    /// An expected artifact file (entry script, manifest, binary) is absent.
    MissingArtifact,
    /// The manifest holds no `version = ...` line.
    MalformedManifest,
    /// A key file does not exist; key generation must run first.
    KeyAbsent,
    /// A key file exists but is not exactly 32 bytes long.
    KeySizeMismatch,
    /// A public key file holds 32 bytes that are not a valid curve point.
    InvalidPublicKeyEncoding,
    /// A claimed signature is not valid base64, or decodes to the wrong length.
    SignatureEncodingError,
}

/// The two-valued result of a signature check: the check itself ran fine
/// either way, so neither variant is an error.
#[derive(Clone, Copy, Debug, PartialEq, Eq, Structural)]
pub enum Outcome {
    /// The signature matches the recomputed canonical message under the key.
    Verified,
    /// The signature does not match.
    Rejected,
}

} // verus!
