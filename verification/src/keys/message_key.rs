//! Per-message AEAD keys: derived once from a chain key and used exactly
//! once, together with the chain index they were derived at.

use vstd::prelude::*;

verus! {

/// The mathematical content of a [`MessageKey`].
pub ghost struct MessageKeyView {
    pub key: Seq<u8>,
    pub index: u32,
}

/// A one-shot 32-byte AEAD key plus the position in the chain it was derived
/// at.
#[derive(Clone, Copy, Debug)]
pub struct MessageKey {
    key: [u8; 32],
    index: u32,
}

impl View for MessageKey {
    type V = MessageKeyView;

    closed spec fn view(&self) -> MessageKeyView {
        MessageKeyView { key: self.key@, index: self.index }
    }
}

impl MessageKey {
    /// Wraps the given key bytes and chain index.
    pub fn new(key: [u8; 32], index: u32) -> (r: Self)
        ensures
            r@.key == key@,
            r@.index == index,
    {
        MessageKey { key, index }
    }

    /// The raw 32-byte symmetric key.
    pub fn get_key(&self) -> (r: &[u8; 32])
        ensures
            r@ == self@.key,
    {
        &self.key
    }

    /// The chain index this key was derived at.
    pub fn get_index(&self) -> (r: u32)
        ensures
            r == self@.index,
    {
        self.index
    }
}

} // verus!
