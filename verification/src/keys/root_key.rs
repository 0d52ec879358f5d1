//! The 32-byte root key: input to each DH ratchet step, replaced by its
//! output. Exactly one per session.

use vstd::prelude::*;

verus! {

/// A 32-byte root key of the Double Ratchet.
#[derive(Clone, Copy, Debug)]
pub struct RootKey {
    bytes: [u8; 32],
}

impl View for RootKey {
    type V = Seq<u8>;

    closed spec fn view(&self) -> Seq<u8> {
        self.bytes@
    }
}

impl RootKey {
    /// Wraps the given byte array as a root key.
    pub fn new(bytes: [u8; 32]) -> (r: Self)
        ensures
            r@ == bytes@,
    {
        Self { bytes }
    }

    /// The raw key material.
    pub fn get_bytes(&self) -> (r: &[u8; 32])
        ensures
            r@ == self@,
    {
        &self.bytes
    }
}

} // verus!
