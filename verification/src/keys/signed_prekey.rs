//! Medium-term signed pre-keys: an X25519 pair whose public half is signed
//! by the owner's Ed25519 identity key. Rotated out of band; the core does
//! not schedule rotation.

use vstd::prelude::*;

use crate::crypto::{ed25519_sign, ed25519_sign_of, ed25519_verifies, ed25519_public_of, fresh_uuid,
    unix_time_now, x25519_keypair, x25519_public_of};

verus! {

/// The mathematical content of a [`SignedPreKey`].
pub ghost struct SignedPreKeyView {
    pub id: u128,
    pub private: Seq<u8>,
    pub public: Seq<u8>,
    pub signature: Seq<u8>,
    pub created_at: i64,
}

/// A signed X25519 pre-key: key pair, identifier, Ed25519 signature of the
/// public half, and creation time (Unix seconds).
#[derive(Clone, Debug)]
pub struct SignedPreKey {
    id: u128,
    private: [u8; 32],
    pub public: [u8; 32],
    pub signature: Vec<u8>,
    pub created_at: i64,
}

impl View for SignedPreKey {
    type V = SignedPreKeyView;

    closed spec fn view(&self) -> SignedPreKeyView {
        SignedPreKeyView {
            id: self.id,
            private: self.private@,
            public: self.public@,
            signature: self.signature@,
            created_at: self.created_at,
        }
    }
}

impl SignedPreKey {
    /// The public component is the X25519 public key of the private scalar.
    pub open spec fn wf(self) -> bool {
        self@.public == x25519_public_of(self@.private)
    }

    /// Generates a fresh pre-key pair and signs its public half with the
    /// given Ed25519 identity seed; the signature then verifies under the
    /// identity's verifying key.
    pub fn new(identity_signing_key: &[u8; 32]) -> (r: Self)
        ensures
            r.wf(),
            r@.signature == ed25519_sign_of(identity_signing_key@, r@.public),
            ed25519_verifies(ed25519_public_of(identity_signing_key@), r@.public, r@.signature),
    {
        let (private, public) = x25519_keypair();
        let signature = ed25519_sign(identity_signing_key, public.as_slice());
        Self {
            id: fresh_uuid(),
            private,
            public,
            signature: vstd::slice::slice_to_vec(signature.as_slice()),
            created_at: unix_time_now(),
        }
    }

    /// The public half of the pre-key pair.
    pub fn public_key(&self) -> (r: [u8; 32])
        ensures
            r@ == self@.public,
    {
        self.public
    }

    /// The Ed25519 signature of the public half.
    pub fn signature_bytes(&self) -> (r: &Vec<u8>)
        ensures
            r@ == self@.signature,
    {
        &self.signature
    }

    /// The private scalar. This exposes sensitive material.
    pub fn get_private(&self) -> (r: [u8; 32])
        ensures
            r@ == self@.private,
    {
        self.private
    }
}

} // verus!
