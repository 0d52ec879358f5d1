//! Long-term identity key pairs: an X25519 pair for key agreement and an
//! Ed25519 pair for signatures. Created once per user and never mutated.

use vstd::prelude::*;

use crate::crypto::{ed25519_keypair, ed25519_public_of, x25519_keypair, x25519_public_of};

verus! {

/// The mathematical content of an [`IdentityKey`].
pub ghost struct IdentityKeyView {
    pub dh_private: Seq<u8>,
    pub dh_public: Seq<u8>,
    pub sign_private: Seq<u8>,
    pub sign_public: Seq<u8>,
}

/// A user's long-term identity: X25519 pair for ECDH plus Ed25519 pair for
/// signing.
#[derive(Clone, Copy, Debug)]
pub struct IdentityKey {
    dh_private: [u8; 32],
    pub dh_public: [u8; 32],
    sign_private: [u8; 32],
    pub sign_public: [u8; 32],
}

impl View for IdentityKey {
    type V = IdentityKeyView;

    closed spec fn view(&self) -> IdentityKeyView {
        IdentityKeyView {
            dh_private: self.dh_private@,
            dh_public: self.dh_public@,
            sign_private: self.sign_private@,
            sign_public: self.sign_public@,
        }
    }
}

impl IdentityKey {
    /// Each public component is derived from its private counterpart.
    pub open spec fn wf(self) -> bool {
        &&& self@.dh_public == x25519_public_of(self@.dh_private)
        &&& self@.sign_public == ed25519_public_of(self@.sign_private)
    }

    /// Generates a fresh identity with both key pairs from the platform RNG.
    pub fn new() -> (r: Self)
        ensures
            r.wf(),
    {
        let (dh_private, dh_public) = x25519_keypair();
        let (sign_private, sign_public) = ed25519_keypair();
        Self { dh_private, dh_public, sign_private, sign_public }
    }

    /// The X25519 public key of the identity.
    pub fn dh_public_key(&self) -> (r: [u8; 32])
        ensures
            r@ == self@.dh_public,
    {
        self.dh_public
    }

    /// The Ed25519 verifying key of the identity.
    pub fn sign_public_key(&self) -> (r: [u8; 32])
        ensures
            r@ == self@.sign_public,
    {
        self.sign_public
    }

    /// The X25519 private scalar. This exposes sensitive material.
    pub fn get_private(&self) -> (r: [u8; 32])
        ensures
            r@ == self@.dh_private,
    {
        self.dh_private
    }

    /// The Ed25519 signing seed. This exposes sensitive material.
    pub fn signing_key(&self) -> (r: &[u8; 32])
        ensures
            r@ == self@.sign_private,
    {
        &self.sign_private
    }
}

} // verus!
