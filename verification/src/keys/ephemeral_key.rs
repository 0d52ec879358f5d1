//! Single-handshake X25519 key pairs, generated by the initiator for each
//! new X3DH handshake and discarded after the first message is sent.

use vstd::prelude::*;

use crate::crypto::{x25519_keypair, x25519_public_of};

verus! {

/// The mathematical content of an [`EphemeralKey`].
pub ghost struct EphemeralKeyView {
    pub private: Seq<u8>,
    pub public: Seq<u8>,
}

/// A single-use X25519 key pair for X3DH.
#[derive(Clone, Copy, Debug)]
pub struct EphemeralKey {
    private: [u8; 32],
    pub public: [u8; 32],
}

impl View for EphemeralKey {
    type V = EphemeralKeyView;

    closed spec fn view(&self) -> EphemeralKeyView {
        EphemeralKeyView { private: self.private@, public: self.public@ }
    }
}

impl EphemeralKey {
    /// The public component is the X25519 public key of the private scalar.
    pub open spec fn wf(self) -> bool {
        self@.public == x25519_public_of(self@.private)
    }

    /// Generates a fresh ephemeral key pair from the platform RNG.
    pub fn new() -> (r: Self)
        ensures
            r.wf(),
    {
        let (private, public) = x25519_keypair();
        Self { private, public }
    }

    /// The public half of the key pair.
    pub fn public_key(&self) -> (r: [u8; 32])
        ensures
            r@ == self@.public,
    {
        self.public
    }

    /// The private scalar. This exposes sensitive material.
    pub fn get_private(&self) -> (r: [u8; 32])
        ensures
            r@ == self@.private,
    {
        self.private
    }
}

} // verus!
