//! Chain keys of the symmetric ratchet: advanced by HMAC once per message to
//! produce message keys, guaranteeing forward secrecy within a chain.

use vstd::prelude::*;

use crate::crypto::hmac_sha256;
use crate::kdf::{chain_next_of, ctx_ck_bytes, ctx_msg_key_bytes, message_key_of};
use crate::keys::message_key::MessageKey;

verus! {

/// The mathematical content of a [`ChainKey`].
pub ghost struct ChainKeyView {
    pub key: Seq<u8>,
    pub index: u32,
}

/// A 32-byte HMAC input key plus the message index in its chain.
#[derive(Clone, Copy, Debug)]
pub struct ChainKey {
    key: [u8; 32],
    index: u32,
}

impl View for ChainKey {
    type V = ChainKeyView;

    closed spec fn view(&self) -> ChainKeyView {
        ChainKeyView { key: self.key@, index: self.index }
    }
}

impl ChainKey {
    /// Wraps the given key bytes and starting index.
    pub fn new(key: [u8; 32], index: u32) -> (r: Self)
        ensures
            r@.key == key@,
            r@.index == index,
    {
        Self { key, index }
    }

    /// The current message index.
    pub fn get_index(&self) -> (r: u32)
        ensures
            r == self@.index,
    {
        self.index
    }

    /// Advances the chain one step: the message key is HMAC(chain key,
    /// `"msg_key"`) at the current index, and the next chain key is
    /// HMAC(chain key, `"ck"`) at the next index. This is the only source of
    /// per-message keys within a chain.
    pub fn derive_next(&self) -> (r: (ChainKey, MessageKey))
        requires
            self@.index < u32::MAX,
        ensures
            r.0@.key == chain_next_of(self@.key),
            r.0@.index == self@.index + 1,
            r.1@.key == message_key_of(self@.key),
            r.1@.index == self@.index,
    {
        let ctx_mk = ctx_msg_key_bytes();
        let message_key = MessageKey::new(hmac_sha256(&self.key, ctx_mk.as_slice()), self.index);

        let ctx = ctx_ck_bytes();
        let next_chain_key = ChainKey {
            key: hmac_sha256(&self.key, ctx.as_slice()),
            index: self.index + 1,
        };

        (next_chain_key, message_key)
    }
}

/// Chain advance determinism: equal chain keys advance equally — the
/// successor chain keys and the derived message keys coincide. The contract
/// of [`ChainKey::derive_next`] pins both outputs to functions of the chain
/// key alone, so two chains holding the same key can never diverge.
pub proof fn lemma_chain_advance_deterministic(c1: ChainKeyView, c2: ChainKeyView)
    requires
        c1.key == c2.key,
        c1.index == c2.index,
    ensures
        chain_next_of(c1.key) == chain_next_of(c2.key),
        message_key_of(c1.key) == message_key_of(c2.key),
{
}

} // verus!
