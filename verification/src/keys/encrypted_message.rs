//! The message envelope: ciphertext plus the metadata that drives the
//! receiver's ratchet, and the two optional fields that only the very first
//! message of a session carries.

use vstd::prelude::*;

verus! {

/// The view of an optional 32-byte field.
pub open spec fn opt_bytes_view(o: Option<[u8; 32]>) -> Option<Seq<u8>> {
    match o {
        Some(a) => Some(a@),
        None => None,
    }
}

/// The mathematical content of an [`EncryptedMessage`].
pub ghost struct EncryptedMessageView {
    pub sender: Seq<char>,
    pub receiver: Seq<char>,
    pub nonce: Seq<u8>,
    pub ciphertext: Seq<u8>,
    pub ratchet_pub: Seq<u8>,
    pub message_index: u32,
    pub opk_used: Option<Seq<u8>>,
    pub ek_used: Option<Seq<u8>>,
}

/// A ratcheted, AEAD-encrypted message exchanged between users: 12-byte
/// nonce, ciphertext with its appended tag, the sender's current ratchet
/// public, the index in the sending chain, and — in the first message of a
/// session only — the one-time pre-key and ephemeral publics used by X3DH.
#[derive(Clone, Debug)]
pub struct EncryptedMessage {
    pub sender: String,
    pub receiver: String,
    pub nonce: [u8; 12],
    pub ciphertext: Vec<u8>,
    pub ratchet_pub: [u8; 32],
    pub message_index: u32,
    pub opk_used: Option<[u8; 32]>,
    pub ek_used: Option<[u8; 32]>,
}

impl View for EncryptedMessage {
    type V = EncryptedMessageView;

    open spec fn view(&self) -> EncryptedMessageView {
        EncryptedMessageView {
            sender: self.sender@,
            receiver: self.receiver@,
            nonce: self.nonce@,
            ciphertext: self.ciphertext@,
            ratchet_pub: self.ratchet_pub@,
            message_index: self.message_index,
            opk_used: opt_bytes_view(self.opk_used),
            ek_used: opt_bytes_view(self.ek_used),
        }
    }
}

} // verus!
