//! Core of an end-to-end secure messaging library: the X3DH asynchronous
//! initial key agreement and the Double Ratchet session state machine,
//! with typed key material, out-of-order message handling through a bounded
//! skipped-key buffer, and a per-user session directory binding the two.
//!
//! The cryptographic primitives (X25519, Ed25519, HKDF-SHA256, HMAC-SHA256,
//! ChaCha20-Poly1305) are called through the trusted adapter in [`crypto`];
//! everything above that adapter is verified against the contracts stated
//! there.

pub mod byteops;
pub mod crypto;
pub mod double_ratchet;
pub mod errors;
pub mod kdf;
pub mod keys;
pub mod user;
pub mod x3dh;
