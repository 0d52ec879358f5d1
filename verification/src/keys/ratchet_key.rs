//! Per-DH-ratchet-step X25519 key pairs: replaced on every outbound DH
//! ratchet step.

use vstd::prelude::*;

use crate::crypto::{x25519_keypair, x25519_public_of};

verus! {

/// The mathematical content of a [`RatchetKey`].
pub ghost struct RatchetKeyView {
    pub private: Seq<u8>,
    pub public: Seq<u8>,
}

/// An X25519 key pair used for DH ratchet steps.
#[derive(Clone, Copy, Debug)]
pub struct RatchetKey {
    private: [u8; 32],
    pub public: [u8; 32],
}

impl View for RatchetKey {
    type V = RatchetKeyView;

    closed spec fn view(&self) -> RatchetKeyView {
        RatchetKeyView { private: self.private@, public: self.public@ }
    }
}

impl RatchetKey {
    /// The public component is the X25519 public key of the private scalar.
    pub open spec fn wf(self) -> bool {
        self@.public == x25519_public_of(self@.private)
    }

    /// Generates a fresh ratchet key pair from the platform RNG.
    pub fn new() -> (r: Self)
        ensures
            r.wf(),
    {
        let (private, public) = x25519_keypair();
        Self { private, public }
    }

    /// Wraps pre-existing key material, as when the responder installs its
    /// signed pre-key pair as the first ratchet key.
    pub fn from_keys(private: [u8; 32], public: [u8; 32]) -> (r: Self)
        ensures
            r@.private == private@,
            r@.public == public@,
    {
        Self { private, public }
    }

    /// The public half of the key pair.
    pub fn public_key(&self) -> (r: [u8; 32])
        ensures
            r@ == self@.public,
    {
        self.public
    }

    /// The private scalar. This exposes sensitive material.
    pub fn get_private(&self) -> (r: [u8; 32])
        ensures
            r@ == self@.private,
    {
        self.private
    }
}

} // verus!
