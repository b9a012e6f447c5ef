//! Trust-bootstrap signing for distributable artifacts: canonical message
//! construction from artifact content, SHA-256 checksums, Ed25519 key
//! lifecycle, and signature production and verification for plugin bundles
//! and release binaries. Verification always re-derives the canonical
//! message from the artifact's current bytes; it never trusts supplied
//! checksums or messages.

pub mod checksum;
pub mod errors;
pub mod keys;
pub mod manifest;
pub mod message;
pub mod protocol;
pub mod signature;
pub mod util;
