//! The symmetric session key agreed through X3DH, together with the two
//! endpoint identifiers it was established between.

use vstd::prelude::*;

verus! {

/// The mathematical content of a [`SessionKey`].
pub ghost struct SessionKeyView {
    pub bytes: Seq<u8>,
    pub sender: Seq<char>,
    pub receiver: Seq<char>,
}

/// A 32-byte session key plus the names of the endpoints.
#[derive(Clone, Debug)]
pub struct SessionKey {
    bytes: [u8; 32],
    pub sender: String,
    pub receiver: String,
}

impl View for SessionKey {
    type V = SessionKeyView;

    closed spec fn view(&self) -> SessionKeyView {
        SessionKeyView { bytes: self.bytes@, sender: self.sender@, receiver: self.receiver@ }
    }
}

impl SessionKey {
    /// Wraps raw key material and endpoint identifiers.
    pub fn new(bytes: [u8; 32], sender: String, receiver: String) -> (r: Self)
        ensures
            r@.bytes == bytes@,
            r@.sender == sender@,
            r@.receiver == receiver@,
    {
        Self { bytes, sender, receiver }
    }

    /// The raw 32-byte key material.
    pub fn get_bytes(&self) -> (r: &[u8; 32])
        ensures
            r@ == self@.bytes,
    {
        &self.bytes
    }
}

} // verus!
