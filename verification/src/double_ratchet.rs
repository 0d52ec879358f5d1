//! The Double Ratchet state machine: root, sending and receiving chains,
//! DH ratchet steps, per-message key derivation, the bounded skipped-key
//! buffer, and the encrypt/decrypt operations over one session.

use vstd::prelude::*;
use vstd::utf8::{decode_utf8, encode_utf8, valid_utf8};

use crate::byteops::bytes32_eq;
use crate::crypto::{aead_open, aead_open_of, aead_seal, aead_seal_of, bytes_to_string,
    hkdf_expand32, random_nonce, x25519_dh, x25519_public_of, x25519_shared_of, MAX_PLAINTEXT_LEN};
use crate::errors::ProtocolError;
use crate::kdf::{chain_next_of, info_ck_send_bytes, info_rk_bytes, message_key_of,
    ratchet_chain_of, ratchet_root_of, initial_recv_chain_of, initial_send_chain_of,
    derive_initial_chain_keys};
use crate::keys::chain_key::ChainKey;
use crate::keys::encrypted_message::{opt_bytes_view, EncryptedMessage, EncryptedMessageView};
use crate::keys::message_key::MessageKey;
use crate::keys::ratchet_key::RatchetKey;
use crate::keys::root_key::RootKey;

verus! {

/// Cap on the total number of buffered skipped message keys.
pub const MAX_SKIPPED_TOTAL: usize = 2000;

/// Cap on the skip distance inside one DH epoch.
pub const MAX_SKIP_PER_EPOCH: u32 = 1000;

/// The mathematical content of one buffered skipped message key.
pub ghost struct SkippedEntryView {
    pub ratchet_pub: Seq<u8>,
    pub index: u32,
    pub key: Seq<u8>,
}

/// One buffered skipped message key, addressed by the DH-epoch ratchet
/// public and the index inside that epoch.
#[derive(Clone, Copy, Debug)]
pub struct SkippedEntry {
    pub ratchet_pub: [u8; 32],
    pub index: u32,
    pub key: MessageKey,
}

impl View for SkippedEntry {
    type V = SkippedEntryView;

    open spec fn view(&self) -> SkippedEntryView {
        SkippedEntryView {
            ratchet_pub: self.ratchet_pub@,
            index: self.index,
            key: self.key@.key,
        }
    }
}

/// The views of a vector of skipped entries.
pub open spec fn entries_view(v: Seq<SkippedEntry>) -> Seq<SkippedEntryView> {
    Seq::new(v.len(), |i: int| v[i]@)
}

/// Whether the entry is addressed by the given epoch public and index.
pub open spec fn entry_matches(e: SkippedEntryView, rp: Seq<u8>, index: u32) -> bool {
    e.ratchet_pub == rp && e.index == index
}

/// Whether the buffer holds a key for the given epoch public and index.
pub open spec fn skipped_has(s: Seq<SkippedEntryView>, rp: Seq<u8>, index: u32) -> bool {
    exists|j: int| 0 <= j < s.len() && entry_matches(#[trigger] s[j], rp, index)
}

/// No two entries of the buffer share an address.
pub open spec fn skipped_unique(s: Seq<SkippedEntryView>) -> bool {
    forall|j: int, k: int|
        0 <= j < k < s.len() ==> !((#[trigger] s[j]).ratchet_pub == (#[trigger] s[k]).ratchet_pub
            && s[j].index == s[k].index)
}

/// Storing one entry: the entry at its address is overwritten when the
/// address is present, appended otherwise.
pub open spec fn skipped_insert(s: Seq<SkippedEntryView>, e: SkippedEntryView) -> Seq<
    SkippedEntryView,
> {
    if skipped_has(s, e.ratchet_pub, e.index) {
        let j = choose|j: int| 0 <= j < s.len() && entry_matches(#[trigger] s[j], e.ratchet_pub, e.index);
        s.update(j, e)
    } else {
        s.push(e)
    }
}

/// Advancing a receiving chain `count` steps from index `from`, storing each
/// passed-over message key under the epoch public `rp`: yields the buffer and
/// the chain key after the advance.
pub open spec fn skip_fill(
    s: Seq<SkippedEntryView>,
    rp: Seq<u8>,
    ck: Seq<u8>,
    from: u32,
    count: nat,
) -> (Seq<SkippedEntryView>, Seq<u8>)
    decreases count,
{
    if count == 0 {
        (s, ck)
    } else {
        let e = SkippedEntryView { ratchet_pub: rp, index: from, key: message_key_of(ck) };
        skip_fill(
            skipped_insert(s, e),
            rp,
            chain_next_of(ck),
            (from + 1) as u32,
            (count - 1) as nat,
        )
    }
}

/// The mathematical content of a [`RatchetState`].
pub ghost struct RatchetModel {
    pub root: Seq<u8>,
    pub send_key: Seq<u8>,
    pub send_index: u32,
    pub recv_key: Seq<u8>,
    pub recv_index: u32,
    pub dhs_priv: Seq<u8>,
    pub dhs_pub: Seq<u8>,
    pub dhr: Option<Seq<u8>>,
    pub last_dhr: Option<Seq<u8>>,
    pub skipped: Seq<SkippedEntryView>,
}

/// Whether the next send performs an outbound DH ratchet step: a new remote
/// ratchet public has been observed since the last send (or nothing was ever
/// sent).
pub open spec fn will_ratchet(m: RatchetModel) -> bool {
    m.last_dhr is None || m.dhr != m.last_dhr
}

/// The message key a send from state `m` seals with, where `new_dhs_priv` is
/// the sender's DH private after the send (fresh exactly when the send
/// ratchets).
pub open spec fn encrypt_mk(m: RatchetModel, new_dhs_priv: Seq<u8>) -> Seq<u8> {
    if will_ratchet(m) {
        message_key_of(ratchet_chain_of(m.root, x25519_shared_of(new_dhs_priv, m.dhr->0)))
    } else {
        message_key_of(m.send_key)
    }
}

/// The invariant of a session state: the skipped-key buffer has no
/// duplicate address and respects the total cap.
pub open spec fn model_wf(m: RatchetModel) -> bool {
    &&& skipped_unique(m.skipped)
    &&& m.skipped.len() <= MAX_SKIPPED_TOTAL
}

/// How one send transforms the session state `m` into `m2` and produces the
/// envelope `e` for the plaintext `pt`: the receiving side and the buffer are
/// untouched; when a new remote ratchet public had been observed, a DH
/// ratchet step first installs a fresh DH pair, root key and sending chain;
/// the sending chain advances once; and the ciphertext is the AEAD seal of
/// the plaintext under the derived message key.
pub open spec fn encrypt_transition(
    m: RatchetModel,
    m2: RatchetModel,
    e: EncryptedMessageView,
    pt: Seq<char>,
) -> bool {
    &&& m2.recv_key == m.recv_key
    &&& m2.recv_index == m.recv_index
    &&& m2.skipped == m.skipped
    &&& m2.dhr == m.dhr
    &&& e.ratchet_pub == m2.dhs_pub
    &&& e.ciphertext == aead_seal_of(encrypt_mk(m, m2.dhs_priv), e.nonce, encode_utf8(pt))
    &&& aead_open_of(encrypt_mk(m, m2.dhs_priv), e.nonce, e.ciphertext) == Some(encode_utf8(pt))
    &&& (will_ratchet(m) ==> {
        &&& m2.last_dhr == m.dhr
        &&& m2.dhs_pub == x25519_public_of(m2.dhs_priv)
        &&& m2.root == ratchet_root_of(m.root, x25519_shared_of(m2.dhs_priv, m.dhr->0))
        &&& m2.send_key == chain_next_of(
            ratchet_chain_of(m.root, x25519_shared_of(m2.dhs_priv, m.dhr->0)),
        )
        &&& m2.send_index == 1
        &&& e.message_index == 0
        &&& forall|s: Seq<u8>|
            m.dhr->0 == #[trigger] x25519_public_of(s) ==> x25519_shared_of(
                m2.dhs_priv,
                m.dhr->0,
            ) == x25519_shared_of(s, m2.dhs_pub)
    })
    &&& (!will_ratchet(m) ==> {
        &&& m2.last_dhr == m.last_dhr
        &&& m2.dhs_priv == m.dhs_priv
        &&& m2.dhs_pub == m.dhs_pub
        &&& m2.root == m.root
        &&& m2.send_key == chain_next_of(m.send_key)
        &&& m2.send_index == m.send_index + 1
        &&& e.message_index == m.send_index
    })
}

/// How one receive transforms the session state `m` into `m2` for the
/// envelope `e`, with result `r`: a buffered skipped key is consumed when the
/// envelope's address is buffered; otherwise the envelope's epoch is
/// installed if new, the receiving chain is advanced to the envelope's index
/// (buffering each passed-over key, within the bounds), and the ciphertext
/// is opened under the derived key. The sending side is never touched.
pub open spec fn decrypt_transition(
    m: RatchetModel,
    m2: RatchetModel,
    e: EncryptedMessageView,
    r: Result<String, ProtocolError>,
) -> bool {
    &&& m2.send_key == m.send_key
    &&& m2.send_index == m.send_index
    &&& m2.dhs_priv == m.dhs_priv
    &&& m2.dhs_pub == m.dhs_pub
    &&& m2.last_dhr == m.last_dhr
    &&& (skipped_has(m.skipped, e.ratchet_pub, e.message_index) ==> {
        &&& m2.root == m.root
        &&& m2.recv_key == m.recv_key
        &&& m2.recv_index == m.recv_index
        &&& m2.dhr == m.dhr
        &&& exists|j: int|
            0 <= j < m.skipped.len() && entry_matches(
                #[trigger] m.skipped[j],
                e.ratchet_pub,
                e.message_index,
            ) && m2.skipped == m.skipped.remove(j) && result_matches_open(
                r,
                open_outcome(m.skipped[j].key, e.nonce, e.ciphertext),
            )
    })
    &&& (!skipped_has(m.skipped, e.ratchet_pub, e.message_index) && e.message_index == u32::MAX
        ==> r == Err::<String, ProtocolError>(ProtocolError::InvalidEnvelope) && m2 == m)
    &&& (!skipped_has(m.skipped, e.ratchet_pub, e.message_index) && e.message_index < u32::MAX
        && dec_too_many(m, e.ratchet_pub, e.message_index) ==> r == Err::<String, ProtocolError>(
        ProtocolError::TooManySkippedMessages,
    ) && m2 == m)
    &&& (!skipped_has(m.skipped, e.ratchet_pub, e.message_index) && e.message_index < u32::MAX
        && !dec_too_many(m, e.ratchet_pub, e.message_index) && dec_index(m, e.ratchet_pub)
        == u32::MAX ==> r == Err::<String, ProtocolError>(ProtocolError::AuthFailure) && m2 == m)
    &&& (!skipped_has(m.skipped, e.ratchet_pub, e.message_index) && e.message_index < u32::MAX
        && !dec_too_many(m, e.ratchet_pub, e.message_index) && dec_index(m, e.ratchet_pub)
        < u32::MAX ==> {
        let rp = e.ratchet_pub;
        let i0 = e.message_index;
        &&& m2.root == dec_root(m, rp)
        &&& m2.dhr == Some(rp)
        &&& m2.skipped == dec_fill(m, rp, i0).0
        &&& m2.recv_key == chain_next_of(dec_fill(m, rp, i0).1)
        &&& m2.recv_index == (if i0 >= dec_index(m, rp) {
            i0 + 1
        } else {
            dec_index(m, rp) + 1
        })
        &&& result_matches_open(r, open_outcome(dec_mk(m, rp, i0), e.nonce, e.ciphertext))
    })
}

/// Per-session state of the Double Ratchet.
#[derive(Clone, Debug)]
pub struct RatchetState {
    root_key: RootKey,
    sending_chain: ChainKey,
    receiving_chain: ChainKey,
    dhs: RatchetKey,
    dhr: Option<[u8; 32]>,
    last_dhr: Option<[u8; 32]>,
    skipped_message_keys: Vec<SkippedEntry>,
}

impl View for RatchetState {
    type V = RatchetModel;

    closed spec fn view(&self) -> RatchetModel {
        RatchetModel {
            root: self.root_key@,
            send_key: self.sending_chain@.key,
            send_index: self.sending_chain@.index,
            recv_key: self.receiving_chain@.key,
            recv_index: self.receiving_chain@.index,
            dhs_priv: self.dhs@.private,
            dhs_pub: self.dhs@.public,
            dhr: opt_bytes_view(self.dhr),
            last_dhr: opt_bytes_view(self.last_dhr),
            skipped: entries_view(self.skipped_message_keys@),
        }
    }
}

impl RatchetState {
    /// The skipped-key buffer has no duplicate address and respects the
    /// total cap.
    pub open spec fn wf(self) -> bool {
        model_wf(self@)
    }

    /// Installs a fresh session: both chains are derived from the root key,
    /// with the initiator's sending chain being the responder's receiving
    /// chain and vice versa; indices start at 0, nothing is buffered, and no
    /// send has happened yet.
    pub fn new(root_key: RootKey, dhs: RatchetKey, dhr: Option<[u8; 32]>, is_initiator: bool) -> (r:
        Self)
        ensures
            r.wf(),
            r@.root == root_key@,
            r@.dhs_priv == dhs@.private,
            r@.dhs_pub == dhs@.public,
            r@.dhr == opt_bytes_view(dhr),
            r@.last_dhr is None,
            r@.skipped.len() == 0,
            r@.send_index == 0,
            r@.recv_index == 0,
            is_initiator ==> r@.send_key == initial_send_chain_of(root_key@) && r@.recv_key
                == initial_recv_chain_of(root_key@),
            !is_initiator ==> r@.send_key == initial_recv_chain_of(root_key@) && r@.recv_key
                == initial_send_chain_of(root_key@),
    {
        let (sending_chain, receiving_chain) = if is_initiator {
            derive_initial_chain_keys(&root_key)
        } else {
            let (recv, send) = derive_initial_chain_keys(&root_key);
            (send, recv)
        };
        let r = Self {
            root_key,
            sending_chain,
            receiving_chain,
            dhs,
            dhr,
            last_dhr: None,
            skipped_message_keys: Vec::new(),
        };
        proof {
            assert(r@.skipped =~= Seq::<SkippedEntryView>::empty());
        }
        r
    }

    /// Encrypts one message. When a new remote ratchet public has been
    /// observed since the last send, an outbound DH ratchet step first
    /// installs a fresh DH pair and a fresh sending chain; the sending chain
    /// then advances once, and the message is sealed under the derived
    /// message key and tagged with the pre-advance index.
    pub fn encrypt(
        &mut self,
        plaintext: &str,
        sender: String,
        receiver: String,
        opk_used: Option<[u8; 32]>,
        ek_used: Option<[u8; 32]>,
    ) -> (r: EncryptedMessage)
        requires
            old(self).wf(),
            old(self)@.dhr is Some,
            !will_ratchet(old(self)@) ==> old(self)@.send_index < u32::MAX,
            encode_utf8(plaintext@).len() <= MAX_PLAINTEXT_LEN,
        ensures
            final(self).wf(),
            encrypt_transition(old(self)@, final(self)@, r@, plaintext@),
            r@.sender == sender@,
            r@.receiver == receiver@,
            r@.opk_used == opt_bytes_view(opk_used),
            r@.ek_used == opt_bytes_view(ek_used),
    {
        let should_ratchet = match (self.last_dhr, self.dhr) {
            (None, _) => true,
            (Some(_), None) => true,
            (Some(prev), Some(cur)) => !bytes32_eq(&cur, &prev),
        };

        if should_ratchet {
            self.last_dhr = self.dhr;
            self.dhs = RatchetKey::new();

            let dhr_pub = self.dhr.unwrap();
            let dh_output = x25519_dh(&self.dhs.get_private(), &dhr_pub);

            let info_root = info_rk_bytes();
            let info_chain = info_ck_send_bytes();
            let rk = hkdf_expand32(
                Some(self.root_key.get_bytes()),
                dh_output.as_slice(),
                info_root.as_slice(),
            );
            let ck_send = hkdf_expand32(
                Some(self.root_key.get_bytes()),
                dh_output.as_slice(),
                info_chain.as_slice(),
            );

            self.root_key = RootKey::new(rk);
            self.sending_chain = ChainKey::new(ck_send, 0);
        }

        let (next_ck, message_key) = self.sending_chain.derive_next();
        self.sending_chain = next_ck;

        let nonce = random_nonce();
        let ciphertext = aead_seal(message_key.get_key(), &nonce, plaintext.as_bytes());

        EncryptedMessage {
            sender,
            receiver,
            nonce,
            ciphertext,
            ratchet_pub: self.dhs.public_key(),
            message_index: message_key.get_index(),
            opk_used,
            ek_used,
        }
    }

    /// How many skipped message keys are currently buffered.
    pub fn skipped_count(&self) -> (r: usize)
        ensures
            r == self@.skipped.len(),
    {
        self.skipped_message_keys.len()
    }

    /// Whether a send can proceed: a remote ratchet public is known, and
    /// either the next send ratchets or the sending chain has index room.
    pub fn ready(&self) -> (r: bool)
        ensures
            r == (self@.dhr is Some && (will_ratchet(self@) || self@.send_index < u32::MAX)),
    {
        let has_dhr = match self.dhr {
            Some(_) => true,
            None => false,
        };
        let ratchets = match (self.last_dhr, self.dhr) {
            (None, _) => true,
            (Some(_), None) => true,
            (Some(prev), Some(cur)) => !bytes32_eq(&cur, &prev),
        };
        has_dhr && (ratchets || self.sending_chain.get_index() < u32::MAX)
    }

    /// Decrypts one envelope. The skipped-key buffer is probed first; then,
    /// when the envelope carries a new remote ratchet public, an inbound DH
    /// ratchet step installs a fresh receiving chain; the chain is advanced
    /// to the envelope's index, buffering each passed-over message key; and
    /// the message is opened under the derived key. Overrunning either
    /// skipped-key bound, an index no sender can produce, or an exhausted
    /// receiving chain is reported before any state changes; a failed
    /// authentication is reported after the ratchet and chain steps have
    /// committed.
    pub fn decrypt(&mut self, msg: &EncryptedMessage) -> (r: Result<String, ProtocolError>)
        requires
            old(self).wf(),
        ensures
            final(self).wf(),
            decrypt_transition(old(self)@, final(self)@, msg@, r),
    {
        let ghost m = old(self)@;
        let ghost rp = msg@.ratchet_pub;
        let ghost i0 = msg@.message_index;

        // 1. probe the skipped-key buffer
        match find_skipped_index(&self.skipped_message_keys, &msg.ratchet_pub, msg.message_index) {
            Some(j) => {
                proof {
                    lemma_remove_preserves_unique(m.skipped, j as int);
                }
                let entry = self.skipped_message_keys.remove(j);
                proof {
                    assert(entries_view(self.skipped_message_keys@) =~= m.skipped.remove(j as int));
                }
                let opened = aead_open(entry.key.get_key(), &msg.nonce, msg.ciphertext.as_slice());
                match opened {
                    Some(bytes) => match bytes_to_string(bytes) {
                        Some(plain) => Ok(plain),
                        None => Err(ProtocolError::AuthFailure),
                    },
                    None => Err(ProtocolError::AuthFailure),
                }
            },
            None => {
                if msg.message_index == u32::MAX {
                    return Err(ProtocolError::InvalidEnvelope);
                }

                // 2. decide whether this envelope opens a new DH epoch
                let ratchets = match self.dhr {
                    None => true,
                    Some(prev) => !bytes32_eq(&prev, &msg.ratchet_pub),
                };

                if ratchets {
                    let dh_output = x25519_dh(&self.dhs.get_private(), &msg.ratchet_pub);
                    let info_root = info_rk_bytes();
                    let info_chain = info_ck_send_bytes();
                    let rk = hkdf_expand32(
                        Some(self.root_key.get_bytes()),
                        dh_output.as_slice(),
                        info_root.as_slice(),
                    );
                    let ck_recv = hkdf_expand32(
                        Some(self.root_key.get_bytes()),
                        dh_output.as_slice(),
                        info_chain.as_slice(),
                    );
                    // 3. check both skip bounds before committing any change
                    let skip: u32 = msg.message_index;
                    if skip > MAX_SKIP_PER_EPOCH {
                        return Err(ProtocolError::TooManySkippedMessages);
                    }
                    if self.skipped_message_keys.len() + (skip as usize) > MAX_SKIPPED_TOTAL {
                        return Err(ProtocolError::TooManySkippedMessages);
                    }
                    self.dhr = Some(msg.ratchet_pub);
                    self.root_key = RootKey::new(rk);
                    self.receiving_chain = ChainKey::new(ck_recv, 0);
                } else {
                    let i1 = self.receiving_chain.get_index();
                    let skip: u32 = if msg.message_index >= i1 {
                        msg.message_index - i1
                    } else {
                        0
                    };
                    if skip > MAX_SKIP_PER_EPOCH {
                        return Err(ProtocolError::TooManySkippedMessages);
                    }
                    if self.skipped_message_keys.len() + (skip as usize) > MAX_SKIPPED_TOTAL {
                        return Err(ProtocolError::TooManySkippedMessages);
                    }
                    if i1 == u32::MAX {
                        // the receiving chain of this epoch is exhausted: no
                        // further message key can be derived from it
                        return Err(ProtocolError::AuthFailure);
                    }
                }

                proof {
                    assert(self@.recv_key == dec_chain(m, rp));
                    assert(self@.recv_index == dec_index(m, rp));
                    assert(self@.skipped == m.skipped);
                    assert(!dec_too_many(m, rp, i0));
                }

                // 4. advance the receiving chain to the envelope's index,
                // buffering each passed-over message key
                while self.receiving_chain.get_index() < msg.message_index
                    invariant
                        msg@.ratchet_pub == rp,
                        msg@.message_index == i0,
                        i0 < u32::MAX,
                        dec_index(m, rp) <= self@.recv_index,
                        self@.recv_index <= i0 || self@.recv_index == dec_index(m, rp),
                        skipped_unique(self@.skipped),
                        self@.skipped.len() + dec_skip_left(self@.recv_index, i0)
                            <= MAX_SKIPPED_TOTAL,
                        dec_fill(m, rp, i0) == skip_fill(
                            self@.skipped,
                            rp,
                            self@.recv_key,
                            self@.recv_index,
                            dec_skip_left(self@.recv_index, i0) as nat,
                        ),
                        self@.root == dec_root(m, rp),
                        self@.dhr == (if dec_ratchets(m, rp) {
                            Some(rp)
                        } else {
                            m.dhr
                        }),
                        self@.send_key == m.send_key,
                        self@.send_index == m.send_index,
                        self@.dhs_priv == m.dhs_priv,
                        self@.dhs_pub == m.dhs_pub,
                        self@.last_dhr == m.last_dhr,
                    decreases i0 - self@.recv_index,
                {
                    let (next_ck, skipped_key) = self.receiving_chain.derive_next();
                    let idx = self.receiving_chain.get_index();
                    proof {
                        assert(skip_fill(
                            self@.skipped,
                            rp,
                            self@.recv_key,
                            idx,
                            dec_skip_left(idx, i0) as nat,
                        ) == skip_fill(
                            skipped_insert(
                                self@.skipped,
                                SkippedEntryView {
                                    ratchet_pub: rp,
                                    index: idx,
                                    key: message_key_of(self@.recv_key),
                                },
                            ),
                            rp,
                            chain_next_of(self@.recv_key),
                            (idx + 1) as u32,
                            dec_skip_left((idx + 1) as u32, i0) as nat,
                        ));
                    }
                    insert_skipped(
                        &mut self.skipped_message_keys,
                        msg.ratchet_pub,
                        idx,
                        skipped_key,
                    );
                    self.receiving_chain = next_ck;
                }

                proof {
                    assert(self@.recv_index == if i0 >= dec_index(m, rp) {
                        i0
                    } else {
                        dec_index(m, rp)
                    });
                    assert(dec_fill(m, rp, i0) == (self@.skipped, self@.recv_key));
                }

                // 5. derive the message key at the envelope's index and open
                let (next_ck, message_key) = self.receiving_chain.derive_next();
                self.receiving_chain = next_ck;

                let opened = aead_open(
                    message_key.get_key(),
                    &msg.nonce,
                    msg.ciphertext.as_slice(),
                );
                match opened {
                    Some(bytes) => match bytes_to_string(bytes) {
                        Some(plain) => Ok(plain),
                        None => Err(ProtocolError::AuthFailure),
                    },
                    None => Err(ProtocolError::AuthFailure),
                }
            },
        }
    }
}

/// Whether processing an envelope of epoch `rp` performs an inbound DH
/// ratchet step: the stored remote ratchet public differs (or was absent).
pub open spec fn dec_ratchets(m: RatchetModel, rp: Seq<u8>) -> bool {
    m.dhr != Some(rp)
}

/// The root key in force after the envelope's epoch is installed.
pub open spec fn dec_root(m: RatchetModel, rp: Seq<u8>) -> Seq<u8> {
    if dec_ratchets(m, rp) {
        ratchet_root_of(m.root, x25519_shared_of(m.dhs_priv, rp))
    } else {
        m.root
    }
}

/// The receiving chain key in force when the envelope's chain is probed.
pub open spec fn dec_chain(m: RatchetModel, rp: Seq<u8>) -> Seq<u8> {
    if dec_ratchets(m, rp) {
        ratchet_chain_of(m.root, x25519_shared_of(m.dhs_priv, rp))
    } else {
        m.recv_key
    }
}

/// The receiving chain index in force when the envelope's chain is probed.
pub open spec fn dec_index(m: RatchetModel, rp: Seq<u8>) -> u32 {
    if dec_ratchets(m, rp) {
        0
    } else {
        m.recv_index
    }
}

/// The number of skips still to perform from chain index `at` to reach the
/// envelope index `target`.
pub open spec fn dec_skip_left(at: u32, target: u32) -> int {
    if target >= at {
        target - at
    } else {
        0
    }
}

/// How many message keys must be skipped to reach the envelope's index.
pub open spec fn dec_skip(m: RatchetModel, rp: Seq<u8>, index: u32) -> int {
    if index >= dec_index(m, rp) {
        index - dec_index(m, rp)
    } else {
        0
    }
}

/// Whether the envelope would overrun the per-epoch skip distance or the
/// total skipped-key cap.
pub open spec fn dec_too_many(m: RatchetModel, rp: Seq<u8>, index: u32) -> bool {
    dec_skip(m, rp, index) > MAX_SKIP_PER_EPOCH || m.skipped.len() + dec_skip(m, rp, index)
        > MAX_SKIPPED_TOTAL
}

/// The buffer and receiving chain key after skipping up to the envelope's
/// index.
pub open spec fn dec_fill(m: RatchetModel, rp: Seq<u8>, index: u32) -> (
    Seq<SkippedEntryView>,
    Seq<u8>,
) {
    skip_fill(m.skipped, rp, dec_chain(m, rp), dec_index(m, rp), dec_skip(m, rp, index) as nat)
}

/// The message key decrypt derives for the envelope when it is not served
/// from the skipped-key buffer.
pub open spec fn dec_mk(m: RatchetModel, rp: Seq<u8>, index: u32) -> Seq<u8> {
    message_key_of(dec_fill(m, rp, index).1)
}

/// The result of opening a ciphertext with a given key and then decoding the
/// plaintext as UTF-8.
pub open spec fn open_outcome(key: Seq<u8>, nonce: Seq<u8>, ct: Seq<u8>) -> Option<Seq<char>> {
    match aead_open_of(key, nonce, ct) {
        Some(b) => if valid_utf8(b) {
            Some(decode_utf8(b))
        } else {
            None
        },
        None => None,
    }
}

/// Relates decrypt's result to the outcome of opening with a given key:
/// success returns exactly the opened plaintext, failure reports an
/// authentication failure.
pub open spec fn result_matches_open(
    r: Result<String, ProtocolError>,
    o: Option<Seq<char>>,
) -> bool {
    match o {
        Some(p) => r matches Ok(s) && s@ == p,
        None => r == Err::<String, ProtocolError>(ProtocolError::AuthFailure),
    }
}

/// Removing an entry keeps the buffer free of duplicate addresses.
proof fn lemma_remove_preserves_unique(s: Seq<SkippedEntryView>, j: int)
    requires
        skipped_unique(s),
        0 <= j < s.len(),
    ensures
        skipped_unique(s.remove(j)),
{
    let t = s.remove(j);
    assert forall|p: int, q: int| 0 <= p < q < t.len() implies !((#[trigger] t[p]).ratchet_pub == (
    #[trigger] t[q]).ratchet_pub && t[p].index == t[q].index) by {
        let p0: int = if p < j {
            p
        } else {
            p + 1
        };
        let q0: int = if q < j {
            q
        } else {
            q + 1
        };
        assert(t[p] == s[p0]);
        assert(t[q] == s[q0]);
        assert(!(s[p0].ratchet_pub == s[q0].ratchet_pub && s[p0].index == s[q0].index));
    }
}

/// Finds the position of the entry addressed by `(rp, index)`, if any.
fn find_skipped_index(entries: &Vec<SkippedEntry>, rp: &[u8; 32], index: u32) -> (r: Option<usize>)
    ensures
        r matches Some(j) ==> 0 <= j < entries@.len() && entry_matches(
            entries_view(entries@)[j as int],
            rp@,
            index,
        ),
        r is Some <==> skipped_has(entries_view(entries@), rp@, index),
{
    let mut i: usize = 0;
    while i < entries.len()
        invariant
            0 <= i <= entries@.len(),
            forall|j: int|
                0 <= j < i ==> !entry_matches(#[trigger] entries_view(entries@)[j], rp@, index),
        decreases entries@.len() - i,
    {
        if entries[i].index == index && bytes32_eq(&entries[i].ratchet_pub, rp) {
            proof {
                assert(entry_matches(entries_view(entries@)[i as int], rp@, index));
            }
            return Some(i);
        }
        i += 1;
    }
    None
}

/// Stores one skipped message key, overwriting the entry at its address if
/// one is already buffered.
fn insert_skipped(entries: &mut Vec<SkippedEntry>, rp: [u8; 32], index: u32, key: MessageKey)
    requires
        skipped_unique(entries_view(old(entries)@)),
    ensures
        entries_view(final(entries)@) == skipped_insert(
            entries_view(old(entries)@),
            SkippedEntryView { ratchet_pub: rp@, index, key: key@.key },
        ),
        skipped_unique(entries_view(final(entries)@)),
        final(entries)@.len() <= old(entries)@.len() + 1,
{
    let ghost s = entries_view(entries@);
    let ghost e = SkippedEntryView { ratchet_pub: rp@, index, key: key@.key };
    let entry = SkippedEntry { ratchet_pub: rp, index, key };
    match find_skipped_index(entries, &rp, index) {
        Some(j) => {
            let _ = entries.remove(j);
            entries.insert(j, entry);
            proof {
                let j2 = choose|k: int|
                    0 <= k < s.len() && entry_matches(#[trigger] s[k], e.ratchet_pub, e.index);
                assert(!(j2 == j as int) ==> (s[j2].ratchet_pub == s[j as int].ratchet_pub && s[
                j2].index == s[j as int].index));
                assert(j2 == j as int);
                assert(entries_view(entries@) =~= s.update(j as int, e));
                assert forall|p: int, q: int|
                    0 <= p < q < entries_view(entries@).len() implies !((#[trigger] entries_view(
                    entries@)[p]).ratchet_pub == (#[trigger] entries_view(entries@)[q]).ratchet_pub
                    && entries_view(entries@)[p].index == entries_view(entries@)[q].index) by {
                    if p != j as int && q != j as int {
                        assert(!(s[p].ratchet_pub == s[q].ratchet_pub && s[p].index == s[q].index));
                    } else if p == j as int {
                        assert(!(s[j2].ratchet_pub == s[q].ratchet_pub && s[j2].index
                            == s[q].index));
                    } else {
                        assert(!(s[p].ratchet_pub == s[j2].ratchet_pub && s[p].index
                            == s[j2].index));
                    }
                }
            }
        },
        None => {
            entries.push(entry);
            proof {
                assert(entries_view(entries@) =~= s.push(e));
                assert forall|p: int, q: int|
                    0 <= p < q < entries_view(entries@).len() implies !((#[trigger] entries_view(
                    entries@)[p]).ratchet_pub == (#[trigger] entries_view(entries@)[q]).ratchet_pub
                    && entries_view(entries@)[p].index == entries_view(entries@)[q].index) by {
                    if q < s.len() {
                        assert(!(s[p].ratchet_pub == s[q].ratchet_pub && s[p].index == s[q].index));
                    } else {
                        assert(entries_view(entries@)[q] == e);
                        assert(!entry_matches(s[p], e.ratchet_pub, e.index));
                    }
                }
            }
        },
    }
}

/// Counterpart states right after both sides installed one freshly agreed
/// session: same root key, the initiator's stored remote ratchet public is
/// the public key of the responder's current DH pair, the initiator has not
/// sent yet and the responder has neither adopted a remote public nor
/// buffered any key.
pub open spec fn fresh_pair(a: RatchetModel, b: RatchetModel) -> bool {
    &&& a.root == b.root
    &&& a.dhr == Some(x25519_public_of(b.dhs_priv))
    &&& a.last_dhr is None
    &&& b.dhr is None
    &&& b.skipped.len() == 0
}

/// Counterpart states in the middle of one sending epoch: the receiver has
/// adopted the sender's current ratchet public, its receiving chain tracks
/// the sender's sending chain exactly, and no buffered key shadows a
/// present or future index of this epoch.
pub open spec fn steady_pair(a: RatchetModel, b: RatchetModel) -> bool {
    &&& a.root == b.root
    &&& a.dhr is Some
    &&& a.last_dhr == a.dhr
    &&& a.dhs_pub == x25519_public_of(a.dhs_priv)
    &&& b.dhr == Some(a.dhs_pub)
    &&& b.recv_key == a.send_key
    &&& b.recv_index == a.send_index
    &&& forall|j: int|
        0 <= j < b.skipped.len() ==> !((#[trigger] b.skipped[j]).ratchet_pub == a.dhs_pub
            && b.skipped[j].index >= a.send_index)
}

/// Installs the two counterpart ratchet states of one agreed session key:
/// the initiator's state (first) is handed the responder's DH public as its
/// remote ratchet public, the responder's state (second) starts with no
/// remote public, and each side's sending chain is the other's receiving
/// chain.
pub fn paired_session_states(session_key: &[u8; 32]) -> (r: (RatchetState, RatchetState))
    ensures
        r.0.wf(),
        r.1.wf(),
        fresh_pair(r.0@, r.1@),
        r.1@.last_dhr is None,
{
    let root_a = crate::kdf::derive_root_key(session_key);
    let root_b = crate::kdf::derive_root_key(session_key);
    let dhs_b = RatchetKey::new();
    let dhs_a = RatchetKey::new();
    let a = RatchetState::new(root_a, dhs_a, Some(dhs_b.public_key()), true);
    let b = RatchetState::new(root_b, dhs_b, None, false);
    (a, b)
}

/// Round trip: for any plaintext and any counterpart pair of sessions —
/// freshly installed, or mid-epoch with the chains in step — receiving what
/// was sent succeeds and returns exactly the plaintext, and leaves the pair
/// mid-epoch with the chains in step again.
pub fn receive_sent(
    a: &mut RatchetState,
    b: &mut RatchetState,
    plaintext: &str,
    sender: String,
    receiver: String,
) -> (r: Result<String, ProtocolError>)
    requires
        old(a).wf(),
        old(b).wf(),
        fresh_pair(old(a)@, old(b)@) || steady_pair(old(a)@, old(b)@),
        steady_pair(old(a)@, old(b)@) ==> old(a)@.send_index < u32::MAX,
        encode_utf8(plaintext@).len() <= MAX_PLAINTEXT_LEN,
    ensures
        r matches Ok(p) && p@ == plaintext@,
        final(a).wf(),
        final(b).wf(),
        steady_pair(final(a)@, final(b)@),
        final(b)@.last_dhr == old(b)@.last_dhr,
{
    broadcast use vstd::utf8::encode_utf8_decode_utf8, vstd::utf8::encode_utf8_valid_utf8;

    let ghost a0 = a@;
    let ghost b0 = b@;
    let e = a.encrypt(plaintext, sender, receiver, None, None);
    let ghost a1 = a@;
    let ghost rp = e@.ratchet_pub;
    let ghost i0 = e@.message_index;
    let ghost mk = encrypt_mk(a0, a1.dhs_priv);

    proof {
        if fresh_pair(a0, b0) {
            // the outbound ratchet step ran against the responder's public:
            // by DH commutativity the responder derives the same chain key
            assert(a0.dhr->0 == x25519_public_of(b0.dhs_priv));
            assert(x25519_shared_of(a1.dhs_priv, a0.dhr->0) == x25519_shared_of(
                b0.dhs_priv,
                a1.dhs_pub,
            ));
            assert(!skipped_has(b0.skipped, rp, i0));
            assert(dec_ratchets(b0, rp));
            assert(dec_chain(b0, rp) == ratchet_chain_of(
                a0.root,
                x25519_shared_of(a1.dhs_priv, a0.dhr->0),
            ));
            assert(dec_index(b0, rp) == 0 && i0 == 0);
            assert(dec_skip(b0, rp, i0) == 0);
            assert(!dec_too_many(b0, rp, i0));
            assert(dec_fill(b0, rp, i0) == (b0.skipped, dec_chain(b0, rp)));
            assert(dec_mk(b0, rp, i0) == mk);
        } else {
            assert(steady_pair(a0, b0));
            assert(!will_ratchet(a0));
            assert(i0 == a0.send_index);
            assert(!skipped_has(b0.skipped, rp, i0)) by {
                if skipped_has(b0.skipped, rp, i0) {
                    let j = choose|j: int|
                        0 <= j < b0.skipped.len() && entry_matches(
                            #[trigger] b0.skipped[j],
                            rp,
                            i0,
                        );
                    assert(!(b0.skipped[j].ratchet_pub == a0.dhs_pub && b0.skipped[j].index
                        >= a0.send_index));
                }
            }
            assert(!dec_ratchets(b0, rp));
            assert(dec_index(b0, rp) == i0);
            assert(dec_skip(b0, rp, i0) == 0);
            assert(!dec_too_many(b0, rp, i0));
            assert(dec_fill(b0, rp, i0) == (b0.skipped, b0.recv_key));
            assert(dec_mk(b0, rp, i0) == mk);
        }
    }

    let out = b.decrypt(&e);

    proof {
        assert(aead_open_of(mk, e@.nonce, e@.ciphertext) == Some(encode_utf8(plaintext@)));
        assert(valid_utf8(encode_utf8(plaintext@)));
        assert(open_outcome(mk, e@.nonce, e@.ciphertext) == Some(decode_utf8(encode_utf8(
            plaintext@,
        ))));
        assert(decode_utf8(encode_utf8(plaintext@)) == plaintext@);
        assert(b@.skipped == b0.skipped);
        if fresh_pair(a0, b0) {
            assert(steady_pair(a1, b@));
        } else {
            assert forall|j: int| 0 <= j < b@.skipped.len() implies !((#[trigger] b@.skipped[
            j]).ratchet_pub == a1.dhs_pub && b@.skipped[j].index >= a1.send_index) by {
                assert(!(b0.skipped[j].ratchet_pub == a0.dhs_pub && b0.skipped[j].index
                    >= a0.send_index));
            }
            assert(steady_pair(a1, b@));
        }
    }
    out
}

/// Skipped-key correctness: two messages sent back to back can be received
/// in the reversed order; both decrypt to exactly the plaintexts that were
/// sent. The later message advances the receiving chain and buffers the
/// passed-over key; the earlier one is then served from the buffer.
pub fn receive_sent_reversed(
    a: &mut RatchetState,
    b: &mut RatchetState,
    first: &str,
    second: &str,
    sender: String,
    receiver: String,
) -> (r: (Result<String, ProtocolError>, Result<String, ProtocolError>))
    requires
        old(a).wf(),
        old(b).wf(),
        fresh_pair(old(a)@, old(b)@) || steady_pair(old(a)@, old(b)@),
        steady_pair(old(a)@, old(b)@) ==> old(a)@.send_index < u32::MAX - 1,
        old(b)@.skipped.len() < MAX_SKIPPED_TOTAL,
        encode_utf8(first@).len() <= MAX_PLAINTEXT_LEN,
        encode_utf8(second@).len() <= MAX_PLAINTEXT_LEN,
    ensures
        r.0 matches Ok(p) && p@ == first@,
        r.1 matches Ok(p) && p@ == second@,
        final(a).wf(),
        final(b).wf(),
{
    broadcast use vstd::utf8::encode_utf8_decode_utf8, vstd::utf8::encode_utf8_valid_utf8;

    let ghost a0 = a@;
    let ghost b0 = b@;
    let e1 = a.encrypt(first, sender.clone(), receiver.clone(), None, None);
    let ghost a1 = a@;
    let ghost mk1 = encrypt_mk(a0, a1.dhs_priv);
    let e2 = a.encrypt(second, sender, receiver, None, None);
    let ghost a2 = a@;
    let ghost mk2 = encrypt_mk(a1, a2.dhs_priv);
    let ghost rp = e1@.ratchet_pub;
    let ghost n = e1@.message_index;
    let ghost ck_base: Seq<u8> = if fresh_pair(a0, b0) {
        ratchet_chain_of(a0.root, x25519_shared_of(a1.dhs_priv, a0.dhr->0))
    } else {
        a0.send_key
    };
    let ghost entry = SkippedEntryView { ratchet_pub: rp, index: n, key: message_key_of(ck_base) };

    proof {
        assert(!will_ratchet(a1));
        assert(e2@.ratchet_pub == rp);
        assert(e2@.message_index == n + 1);
        assert(mk1 == message_key_of(ck_base));
        assert(mk2 == message_key_of(chain_next_of(ck_base)));
        if fresh_pair(a0, b0) {
            assert(a0.dhr->0 == x25519_public_of(b0.dhs_priv));
            assert(x25519_shared_of(a1.dhs_priv, a0.dhr->0) == x25519_shared_of(
                b0.dhs_priv,
                a1.dhs_pub,
            ));
            assert(dec_ratchets(b0, rp));
            assert(dec_chain(b0, rp) == ck_base);
            assert(dec_index(b0, rp) == 0 && n == 0);
        } else {
            assert(!dec_ratchets(b0, rp));
            assert(dec_chain(b0, rp) == ck_base);
            assert(dec_index(b0, rp) == n);
        }
        assert(!skipped_has(b0.skipped, rp, (n + 1) as u32)) by {
            if skipped_has(b0.skipped, rp, (n + 1) as u32) {
                let j = choose|j: int|
                    0 <= j < b0.skipped.len() && entry_matches(
                        #[trigger] b0.skipped[j],
                        rp,
                        (n + 1) as u32,
                    );
                assert(fresh_pair(a0, b0) ==> b0.skipped.len() == 0);
                assert(steady_pair(a0, b0) ==> !(b0.skipped[j].ratchet_pub == a0.dhs_pub
                    && b0.skipped[j].index >= a0.send_index));
            }
        }
        assert(dec_skip(b0, rp, (n + 1) as u32) == 1);
        assert(!dec_too_many(b0, rp, (n + 1) as u32));
        assert(!skipped_has(b0.skipped, rp, n)) by {
            if skipped_has(b0.skipped, rp, n) {
                let j = choose|j: int|
                    0 <= j < b0.skipped.len() && entry_matches(#[trigger] b0.skipped[j], rp, n);
                assert(fresh_pair(a0, b0) ==> b0.skipped.len() == 0);
                assert(steady_pair(a0, b0) ==> !(b0.skipped[j].ratchet_pub == a0.dhs_pub
                    && b0.skipped[j].index >= a0.send_index));
            }
        }
        // unfold the two skip-fill steps: the passed-over key is buffered
        assert(skipped_insert(b0.skipped, entry) == b0.skipped.push(entry));
        assert(dec_fill(b0, rp, (n + 1) as u32) == skip_fill(
            b0.skipped.push(entry),
            rp,
            chain_next_of(ck_base),
            (n + 1) as u32,
            0,
        ));
        assert(dec_fill(b0, rp, (n + 1) as u32) == (
            b0.skipped.push(entry),
            chain_next_of(ck_base),
        ));
        assert(dec_mk(b0, rp, (n + 1) as u32) == mk2);
    }

    let out2 = b.decrypt(&e2);
    let ghost b1 = b@;

    proof {
        assert(open_outcome(mk2, e2@.nonce, e2@.ciphertext) == Some(decode_utf8(encode_utf8(
            second@,
        ))));
        assert(b1.skipped == b0.skipped.push(entry));
        assert(skipped_has(b1.skipped, rp, n)) by {
            assert(entry_matches(b1.skipped[b0.skipped.len() as int], rp, n));
        }
    }

    let out1 = b.decrypt(&e1);

    proof {
        assert(open_outcome(mk1, e1@.nonce, e1@.ciphertext) == Some(decode_utf8(encode_utf8(
            first@,
        ))));
        let j = choose|j: int|
            0 <= j < b1.skipped.len() && entry_matches(#[trigger] b1.skipped[j], rp, n)
                && b@.skipped == b1.skipped.remove(j) && result_matches_open(
                out1,
                open_outcome(b1.skipped[j].key, e1@.nonce, e1@.ciphertext),
            );
        if j < b0.skipped.len() {
            assert(!(b0.skipped[j].ratchet_pub == rp && b0.skipped[j].index == n));
            assert(false);
        }
        assert(j == b0.skipped.len());
        assert(b1.skipped[j].key == mk1);
    }

    (out1, out2)
}

/// Counterpart states when the receiver of the current epoch is about to
/// turn sender: same root key, the turning side's stored remote ratchet
/// public is the public key of the other side's current DH pair, and its
/// next send performs an outbound DH ratchet step.
pub open spec fn reply_pair(b: RatchetModel, a: RatchetModel) -> bool {
    &&& b.root == a.root
    &&& b.dhr == Some(x25519_public_of(a.dhs_priv))
    &&& will_ratchet(b)
}

/// Round trip against the flow: when the receiver of an epoch turns sender,
/// its send performs an outbound DH ratchet step with a fresh DH pair, and
/// the reply decrypts on the other side to exactly the plaintext — except
/// in the negligible event that the freshly drawn ratchet public collides
/// with a public the other side already stores (its current remote public,
/// or the epoch of a buffered skipped key), which no proof over a random
/// draw can exclude. Outside that event the pair is mid-epoch again, with
/// the roles exchanged.
pub fn receive_reply(
    b: &mut RatchetState,
    a: &mut RatchetState,
    plaintext: &str,
    sender: String,
    receiver: String,
) -> (r: Result<String, ProtocolError>)
    requires
        old(b).wf(),
        old(a).wf(),
        reply_pair(old(b)@, old(a)@),
        encode_utf8(plaintext@).len() <= MAX_PLAINTEXT_LEN,
    ensures
        final(b).wf(),
        final(a).wf(),
        (Some(final(b)@.dhs_pub) != old(a)@.dhr && (forall|j: int|
            0 <= j < old(a)@.skipped.len() ==> (#[trigger] old(a)@.skipped[j]).ratchet_pub
                != final(b)@.dhs_pub)) ==> ((r matches Ok(p) && p@ == plaintext@) && steady_pair(
            final(b)@,
            final(a)@,
        )),
{
    broadcast use vstd::utf8::encode_utf8_decode_utf8, vstd::utf8::encode_utf8_valid_utf8;

    let ghost b0 = b@;
    let ghost a0 = a@;
    let e = b.encrypt(plaintext, sender, receiver, None, None);
    let ghost b1 = b@;
    let ghost rp = e@.ratchet_pub;
    let ghost mk = encrypt_mk(b0, b1.dhs_priv);

    proof {
        assert(b0.dhr->0 == x25519_public_of(a0.dhs_priv));
        assert(x25519_shared_of(b1.dhs_priv, b0.dhr->0) == x25519_shared_of(
            a0.dhs_priv,
            b1.dhs_pub,
        ));
        assert(e@.message_index == 0);
        assert(rp == b1.dhs_pub);
    }

    let out = a.decrypt(&e);

    proof {
        if Some(b1.dhs_pub) != a0.dhr && (forall|j: int|
            0 <= j < a0.skipped.len() ==> (#[trigger] a0.skipped[j]).ratchet_pub != b1.dhs_pub) {
            assert(!skipped_has(a0.skipped, rp, 0)) by {
                if skipped_has(a0.skipped, rp, 0) {
                    let j = choose|j: int|
                        0 <= j < a0.skipped.len() && entry_matches(#[trigger] a0.skipped[j], rp, 0);
                    assert(a0.skipped[j].ratchet_pub != b1.dhs_pub);
                }
            }
            assert(dec_ratchets(a0, rp));
            assert(dec_chain(a0, rp) == ratchet_chain_of(
                b0.root,
                x25519_shared_of(b1.dhs_priv, b0.dhr->0),
            ));
            assert(dec_index(a0, rp) == 0);
            assert(dec_skip(a0, rp, 0) == 0);
            assert(!dec_too_many(a0, rp, 0));
            assert(dec_fill(a0, rp, 0) == (a0.skipped, dec_chain(a0, rp)));
            assert(dec_mk(a0, rp, 0) == mk);
            assert(open_outcome(mk, e@.nonce, e@.ciphertext) == Some(decode_utf8(encode_utf8(
                plaintext@,
            ))));
            assert(a@.skipped == a0.skipped);
            assert forall|j: int| 0 <= j < a@.skipped.len() implies !((#[trigger] a@.skipped[
            j]).ratchet_pub == b1.dhs_pub && a@.skipped[j].index >= b1.send_index) by {
                assert(a0.skipped[j].ratchet_pub != b1.dhs_pub);
            }
            assert(steady_pair(b1, a@));
        }
    }
    out
}

/// One complete round trip over a session pair installed from a freshly
/// agreed session key: what was sent is received back unchanged.
pub fn session_round_trip(
    session_key: &[u8; 32],
    plaintext: &str,
    sender: String,
    receiver: String,
) -> (r: Result<String, ProtocolError>)
    requires
        encode_utf8(plaintext@).len() <= MAX_PLAINTEXT_LEN,
    ensures
        r matches Ok(p) && p@ == plaintext@,
{
    let (mut a, mut b) = paired_session_states(session_key);
    receive_sent(&mut a, &mut b, plaintext, sender, receiver)
}

/// A full conversational exchange over a session pair installed from a
/// freshly agreed session key: the first message travels one way, the reply
/// — crossing a DH ratchet step — travels the other. The first plaintext is
/// always recovered exactly. What the reply decrypts to is stated by
/// [`receive_reply`]: it is recovered exactly whenever its fresh ratchet
/// public does not collide with key material the other side already stores,
/// an event of negligible probability that no proof over a random draw can
/// exclude, and which no caller-visible condition here can express.
pub fn session_exchange(
    session_key: &[u8; 32],
    forward: &str,
    reply: &str,
    sender: String,
    receiver: String,
) -> (r: (Result<String, ProtocolError>, Result<String, ProtocolError>))
    requires
        encode_utf8(forward@).len() <= MAX_PLAINTEXT_LEN,
        encode_utf8(reply@).len() <= MAX_PLAINTEXT_LEN,
    ensures
        r.0 matches Ok(p) && p@ == forward@,
{
    let (mut a, mut b) = paired_session_states(session_key);
    let out1 = receive_sent(&mut a, &mut b, forward, sender.clone(), receiver.clone());
    let out2 = receive_reply(&mut b, &mut a, reply, receiver, sender);
    (out1, out2)
}

/// Two messages sent over a freshly installed session pair and received in
/// the reversed order: both plaintexts are recovered exactly.
pub fn session_round_trip_reversed(
    session_key: &[u8; 32],
    first: &str,
    second: &str,
    sender: String,
    receiver: String,
) -> (r: (Result<String, ProtocolError>, Result<String, ProtocolError>))
    requires
        encode_utf8(first@).len() <= MAX_PLAINTEXT_LEN,
        encode_utf8(second@).len() <= MAX_PLAINTEXT_LEN,
    ensures
        r.0 matches Ok(p) && p@ == first@,
        r.1 matches Ok(p) && p@ == second@,
{
    let (mut a, mut b) = paired_session_states(session_key);
    receive_sent_reversed(&mut a, &mut b, first, second, sender, receiver)
}

} // verus!
