//! Users: long-term key material, the published pre-key bundle, and the
//! per-peer session directory that materialises a Double Ratchet session on
//! first send or first receive and never evicts it.

use vstd::prelude::*;
use vstd::utf8::{decode_utf8, encode_utf8};

use crate::crypto::{aead_open_of, ed25519_public_of, ed25519_verifies, ed25519_verify,
    fresh_uuid, x25519_public_of, x25519_shared_of, MAX_PLAINTEXT_LEN};
use crate::double_ratchet::{dec_chain, dec_fill, dec_index, dec_mk, dec_ratchets, dec_too_many,
    decrypt_transition, encrypt_mk, encrypt_transition, model_wf, open_outcome,
    result_matches_open, skipped_has, will_ratchet, RatchetModel, RatchetState};
use crate::errors::ProtocolError;
use crate::kdf::{derive_root_key, initial_recv_chain_of, initial_send_chain_of, root_key_of,
    session_key_of};
use crate::keys::encrypted_message::EncryptedMessage;
use crate::keys::ephemeral_key::EphemeralKey;
use crate::keys::identity::{IdentityKey, IdentityKeyView};
use crate::keys::one_time_prekey::{otpk_wf, OneTimePreKey, OneTimePreKeyGroup,
    OneTimePreKeyGroupPublic, OneTimePreKeyPublic, OneTimePreKeyPublicView, OneTimePreKeyView};
use crate::keys::ratchet_key::RatchetKey;
use crate::keys::signed_prekey::{SignedPreKey, SignedPreKeyView};
use crate::x3dh::{create_session_key, opk_public_view, receive_session_key, x3dh_agreement,
    x3dh_ikm_responder, x3dh_session_key};

verus! {

/// How many one-time pre-keys a fresh user publishes.
pub const ONE_TIME_PREKEY_COUNT: usize = 100;

/// The mathematical content of a [`UserPublicInfo`].
pub ghost struct UserPublicInfoView {
    pub id: u128,
    pub name: Seq<char>,
    pub ik: Seq<u8>,
    pub ik_sign: Seq<u8>,
    pub spk: Seq<u8>,
    pub spk_signature: Seq<u8>,
    pub opk: Seq<OneTimePreKeyPublicView>,
}

/// The public information of a user needed to establish an X3DH session
/// with them: identifier, name, X25519 identity public, Ed25519 identity
/// verifying key, signed pre-key public with its signature, and the
/// published one-time pre-key group.
#[derive(Clone, Debug)]
pub struct UserPublicInfo {
    pub id: u128,
    pub name: String,
    pub ik: [u8; 32],
    pub ik_sign: [u8; 32],
    pub spk: [u8; 32],
    pub spk_signature: Vec<u8>,
    pub opk: OneTimePreKeyGroupPublic,
}

impl View for UserPublicInfo {
    type V = UserPublicInfoView;

    open spec fn view(&self) -> UserPublicInfoView {
        UserPublicInfoView {
            id: self.id,
            name: self.name@,
            ik: self.ik@,
            ik_sign: self.ik_sign@,
            spk: self.spk@,
            spk_signature: self.spk_signature@,
            opk: self.opk@,
        }
    }
}

/// The model of a session directory: peer identifier and session state.
pub open spec fn dir_of(v: Seq<(u128, RatchetState)>) -> Seq<(u128, RatchetModel)> {
    Seq::new(v.len(), |i: int| (v[i].0, v[i].1@))
}

/// Whether the directory holds a session for the peer.
pub open spec fn dir_has(s: Seq<(u128, RatchetModel)>, peer: u128) -> bool {
    exists|i: int| 0 <= i < s.len() && (#[trigger] s[i]).0 == peer
}

/// No two directory entries share a peer identifier.
pub open spec fn dir_ids_unique(s: Seq<(u128, RatchetModel)>) -> bool {
    forall|i: int, j: int| 0 <= i < j < s.len() ==> (#[trigger] s[i]).0 != (#[trigger] s[j]).0
}

/// The session model the directory holds for the peer.
pub open spec fn dir_model(s: Seq<(u128, RatchetModel)>, peer: u128) -> RatchetModel {
    s[choose|i: int| 0 <= i < s.len() && (#[trigger] s[i]).0 == peer].1
}

/// Replacing the session at position `i` (moving it to the back) preserves
/// the directory's keys and the other peers' sessions.
proof fn lemma_dir_update(s0: Seq<(u128, RatchetModel)>, i: int, m2: RatchetModel)
    requires
        dir_ids_unique(s0),
        0 <= i < s0.len(),
    ensures
        ({
            let s1 = s0.remove(i).push((s0[i].0, m2));
            &&& dir_ids_unique(s1)
            &&& forall|p: u128| #[trigger] dir_has(s1, p) <==> dir_has(s0, p)
            &&& dir_model(s1, s0[i].0) == m2
            &&& forall|p: u128|
                p != s0[i].0 && dir_has(s0, p) ==> #[trigger] dir_model(s1, p) == dir_model(s0, p)
        }),
{
    let s1 = s0.remove(i).push((s0[i].0, m2));
    assert forall|k: int| 0 <= k < s1.len() implies (#[trigger] s1[k]).0 == (if k < i {
        s0[k].0
    } else if k < s0.len() - 1 {
        s0[k + 1].0
    } else {
        s0[i].0
    }) by {}
    assert forall|p: int, q: int| 0 <= p < q < s1.len() implies (#[trigger] s1[p]).0 != (
    #[trigger] s1[q]).0 by {
        let p0: int = if p < i {
            p
        } else if p < s0.len() - 1 {
            p + 1
        } else {
            i
        };
        let q0: int = if q < i {
            q
        } else if q < s0.len() - 1 {
            q + 1
        } else {
            i
        };
        assert(s1[p].0 == s0[p0].0);
        assert(s1[q].0 == s0[q0].0);
        assert(p0 != q0);
    }
    assert forall|p: u128| #[trigger] dir_has(s1, p) implies dir_has(s0, p) by {
        let k = choose|k: int| 0 <= k < s1.len() && (#[trigger] s1[k]).0 == p;
        if k < i {
            assert(s0[k].0 == p);
        } else if k < s0.len() - 1 {
            assert(s0[k + 1].0 == p);
        } else {
            assert(s0[i].0 == p);
        }
    }
    assert forall|p: u128| dir_has(s0, p) implies #[trigger] dir_has(s1, p) by {
        let k = choose|k: int| 0 <= k < s0.len() && (#[trigger] s0[k]).0 == p;
        if k < i {
            assert(s1[k].0 == p);
        } else if k == i {
            assert(s1[s1.len() - 1].0 == p);
        } else {
            assert(s1[k - 1].0 == p);
        }
    }
    assert(s1[s1.len() - 1].0 == s0[i].0);
    let w = choose|k: int| 0 <= k < s1.len() && (#[trigger] s1[k]).0 == s0[i].0;
    if w < s1.len() - 1 {
        assert(s1[w].0 != s1[s1.len() - 1].0);
        assert(false);
    }
    assert(dir_model(s1, s0[i].0) == m2);
    assert forall|p: u128| p != s0[i].0 && dir_has(s0, p) implies #[trigger] dir_model(s1, p)
        == dir_model(s0, p) by {
        assert(dir_has(s1, p));
        let k0 = choose|k: int| 0 <= k < s0.len() && (#[trigger] s0[k]).0 == p;
        let k1 = choose|k: int| 0 <= k < s1.len() && (#[trigger] s1[k]).0 == p;
        assert(0 <= k0 < s0.len() && s0[k0].0 == p);
        assert(0 <= k1 < s1.len() && s1[k1].0 == p);
        assert(k0 != i);
        if k1 < i {
            assert(s1[k1] == s0.remove(i)[k1]);
            assert(s0.remove(i)[k1] == s0[k1]);
            if k1 != k0 {
                assert(s0[k1].0 == p && s0[k0].0 == p);
                assert(false);
            }
        } else if k1 < s0.len() - 1 {
            assert(s1[k1] == s0.remove(i)[k1]);
            assert(s0.remove(i)[k1] == s0[k1 + 1]);
            if k1 + 1 != k0 {
                assert(s0[k1 + 1].0 == p && s0[k0].0 == p);
                assert(false);
            }
        } else {
            assert(s1[k1].0 == s0[i].0);
            assert(false);
        }
    }
}

/// Appending a session for a peer with no prior entry preserves the
/// directory's keys and the other peers' sessions.
proof fn lemma_dir_push(s0: Seq<(u128, RatchetModel)>, id: u128, m: RatchetModel)
    requires
        dir_ids_unique(s0),
        !dir_has(s0, id),
    ensures
        ({
            let s1 = s0.push((id, m));
            &&& dir_ids_unique(s1)
            &&& dir_has(s1, id)
            &&& dir_model(s1, id) == m
            &&& forall|p: u128| #[trigger] dir_has(s1, p) <==> (dir_has(s0, p) || p == id)
            &&& forall|p: u128|
                p != id && dir_has(s0, p) ==> #[trigger] dir_model(s1, p) == dir_model(s0, p)
        }),
{
    let s1 = s0.push((id, m));
    assert forall|p: int, q: int| 0 <= p < q < s1.len() implies (#[trigger] s1[p]).0 != (
    #[trigger] s1[q]).0 by {
        if q < s0.len() {
            assert(s1[p] == s0[p] && s1[q] == s0[q]);
        } else {
            assert(s1[q].0 == id);
            assert(s1[p] == s0[p]);
            assert(s0[p].0 == id ==> dir_has(s0, id));
        }
    }
    assert(s1[s1.len() - 1].0 == id);
    assert(dir_has(s1, id));
    let w = choose|k: int| 0 <= k < s1.len() && (#[trigger] s1[k]).0 == id;
    if w < s0.len() {
        assert(s0[w].0 == id);
        assert(false);
    }
    assert(dir_model(s1, id) == m);
    assert forall|p: u128| #[trigger] dir_has(s1, p) implies (dir_has(s0, p) || p == id) by {
        let k = choose|k: int| 0 <= k < s1.len() && (#[trigger] s1[k]).0 == p;
        if k < s0.len() {
            assert(s0[k].0 == p);
        }
    }
    assert forall|p: u128| dir_has(s0, p) implies #[trigger] dir_has(s1, p) by {
        let k = choose|k: int| 0 <= k < s0.len() && (#[trigger] s0[k]).0 == p;
        assert(s1[k].0 == p);
    }
    assert forall|p: u128| p != id && dir_has(s0, p) implies #[trigger] dir_model(s1, p)
        == dir_model(s0, p) by {
        assert(dir_has(s1, p));
        let k0 = choose|k: int| 0 <= k < s0.len() && (#[trigger] s0[k]).0 == p;
        let k1 = choose|k: int| 0 <= k < s1.len() && (#[trigger] s1[k]).0 == p;
        assert(0 <= k0 < s0.len() && s0[k0].0 == p);
        assert(0 <= k1 < s1.len() && s1[k1].0 == p);
        if k1 < s0.len() {
            assert(s1[k1] == s0[k1]);
            if k1 != k0 {
                assert(s0[k1].0 == p && s0[k0].0 == p);
                assert(false);
            }
        } else {
            assert(s1[k1].0 == id);
            assert(false);
        }
    }
}

/// Finds the directory position of the session for the peer, if any.
fn find_session_index(sessions: &Vec<(u128, RatchetState)>, peer: u128) -> (r: Option<usize>)
    ensures
        r matches Some(i) ==> 0 <= i < sessions@.len() && dir_of(sessions@)[i as int].0 == peer,
        r is Some <==> dir_has(dir_of(sessions@), peer),
{
    let mut i: usize = 0;
    while i < sessions.len()
        invariant
            0 <= i <= sessions@.len(),
            forall|j: int| 0 <= j < i ==> (#[trigger] dir_of(sessions@)[j]).0 != peer,
        decreases sessions@.len() - i,
    {
        if sessions[i].0 == peer {
            proof {
                assert(dir_of(sessions@)[i as int].0 == peer);
            }
            return Some(i);
        }
        i += 1;
    }
    None
}

/// The sender's ephemeral public recorded in an envelope, with the all-zero
/// point standing in when the field is absent.
pub open spec fn ek_used_view(o: Option<Seq<u8>>) -> Seq<u8> {
    match o {
        Some(e) => e,
        None => Seq::new(32, |i: int| 0u8),
    }
}

/// Whether the pool holds a one-time pre-key with the given public.
pub open spec fn opk_in_pool(pool: Seq<OneTimePreKeyView>, public: Seq<u8>) -> bool {
    exists|j: int| 0 <= j < pool.len() && (#[trigger] pool[j]).public == public
}

/// The session state an initiator installs right after X3DH: root and both
/// chains derived from the session key, the responder's signed pre-key
/// public adopted as the remote ratchet public, and nothing sent yet.
pub open spec fn initial_initiator_model(
    session_key: Seq<u8>,
    dhs_priv: Seq<u8>,
    dhs_pub: Seq<u8>,
    remote_spk: Seq<u8>,
) -> RatchetModel {
    RatchetModel {
        root: root_key_of(session_key),
        send_key: initial_send_chain_of(root_key_of(session_key)),
        send_index: 0,
        recv_key: initial_recv_chain_of(root_key_of(session_key)),
        recv_index: 0,
        dhs_priv,
        dhs_pub,
        dhr: Some(remote_spk),
        last_dhr: None,
        skipped: Seq::empty(),
    }
}

/// The session state a responder installs right after X3DH: chains swapped
/// relative to the initiator, its own signed pre-key pair as the current DH
/// pair, and no remote ratchet public yet.
pub open spec fn initial_responder_model(
    session_key: Seq<u8>,
    spk_priv: Seq<u8>,
    spk_pub: Seq<u8>,
) -> RatchetModel {
    RatchetModel {
        root: root_key_of(session_key),
        send_key: initial_recv_chain_of(root_key_of(session_key)),
        send_index: 0,
        recv_key: initial_send_chain_of(root_key_of(session_key)),
        recv_index: 0,
        dhs_priv: spk_priv,
        dhs_pub: spk_pub,
        dhr: None,
        last_dhr: None,
        skipped: Seq::empty(),
    }
}

/// A user: identity, signed pre-key, one-time pre-key pool, and the
/// directory of Double Ratchet sessions keyed by peer identifier.
#[derive(Clone, Debug)]
pub struct User {
    pub id: u128,
    pub name: String,
    ik: IdentityKey,
    spk: SignedPreKey,
    opk: OneTimePreKeyGroup,
    sessions: Vec<(u128, RatchetState)>,
}

impl User {
    /// The user's identifier.
    pub closed spec fn spec_id(self) -> u128 {
        self.id
    }

    /// The user's name.
    pub closed spec fn spec_name(self) -> Seq<char> {
        self.name@
    }

    /// The identity key material.
    pub closed spec fn spec_ik(self) -> IdentityKeyView {
        self.ik@
    }

    /// The signed pre-key material.
    pub closed spec fn spec_spk(self) -> SignedPreKeyView {
        self.spk@
    }

    /// The one-time pre-key pool.
    pub closed spec fn spec_opk(self) -> Seq<OneTimePreKeyView> {
        self.opk@
    }

    /// The session directory.
    pub closed spec fn spec_sessions(self) -> Seq<(u128, RatchetModel)> {
        dir_of(self.sessions@)
    }

    /// Structural invariant of the directory: peer identifiers are unique
    /// and every session state is well formed.
    pub open spec fn sessions_wf(self) -> bool {
        &&& dir_ids_unique(self.spec_sessions())
        &&& forall|i: int|
            0 <= i < self.spec_sessions().len() ==> model_wf(
                (#[trigger] self.spec_sessions()[i]).1,
            )
    }

    /// Every key pair of the user is well formed: each public component is
    /// derived from its private counterpart.
    pub open spec fn keys_wf(self) -> bool {
        &&& self.spec_ik().dh_public == x25519_public_of(self.spec_ik().dh_private)
        &&& self.spec_ik().sign_public == ed25519_public_of(self.spec_ik().sign_private)
        &&& self.spec_spk().public == x25519_public_of(self.spec_spk().private)
        &&& forall|i: int| 0 <= i < self.spec_opk().len() ==> otpk_wf(#[trigger] self.spec_opk()[i])
    }

    /// Whether a session for the peer exists.
    pub open spec fn has_session(self, peer: u128) -> bool {
        dir_has(self.spec_sessions(), peer)
    }

    /// The session state held for the peer.
    pub open spec fn session_model(self, peer: u128) -> RatchetModel {
        dir_model(self.spec_sessions(), peer)
    }

    /// The signed pre-key's signature verifies under the identity's own
    /// verifying key: what any peer checks before accepting the bundle.
    pub open spec fn bundle_signed(self) -> bool {
        ed25519_verifies(self.spec_ik().sign_public, self.spec_spk().public, self.spec_spk().signature)
    }

    /// Whether a send to the peer can proceed: an existing session must hold
    /// a remote ratchet public and have index room in its sending chain.
    pub open spec fn ready_to_send(self, peer: u128) -> bool {
        self.has_session(peer) ==> {
            let m = self.session_model(peer);
            m.dhr is Some && (will_ratchet(m) || m.send_index < u32::MAX)
        }
    }

    /// Creates a user with a fresh identity, a signed pre-key whose
    /// signature verifies under the identity's verifying key, a pool of
    /// fresh one-time pre-keys, and an empty session directory.
    pub fn new(name: String) -> (r: Self)
        ensures
            r.sessions_wf(),
            r.keys_wf(),
            r.spec_name() == name@,
            r.spec_sessions().len() == 0,
            r.spec_opk().len() == ONE_TIME_PREKEY_COUNT,
            r.bundle_signed(),
    {
        let ik = IdentityKey::new();
        let spk = SignedPreKey::new(ik.signing_key());
        let opk = OneTimePreKeyGroup::new(ONE_TIME_PREKEY_COUNT);
        let r = Self { id: fresh_uuid(), name, ik, spk, opk, sessions: Vec::new() };
        proof {
            assert(r.spec_sessions() =~= Seq::<(u128, RatchetModel)>::empty());
        }
        r
    }

    /// The public-facing key material and metadata another user needs to
    /// establish a session with this one.
    pub fn public_info(&self) -> (r: UserPublicInfo)
        ensures
            r@.id == self.spec_id(),
            r@.name == self.spec_name(),
            r@.ik == self.spec_ik().dh_public,
            r@.ik_sign == self.spec_ik().sign_public,
            r@.spk == self.spec_spk().public,
            r@.spk_signature == self.spec_spk().signature,
            r@.opk.len() == self.spec_opk().len(),
            forall|i: int|
                0 <= i < self.spec_opk().len() ==> (#[trigger] r@.opk[i]).id
                    == self.spec_opk()[i].id && r@.opk[i].public == self.spec_opk()[i].public,
    {
        UserPublicInfo {
            id: self.id,
            name: self.name.clone(),
            ik: self.ik.dh_public_key(),
            ik_sign: self.ik.sign_public_key(),
            spk: self.spk.public_key(),
            spk_signature: vstd::slice::slice_to_vec(self.spk.signature_bytes().as_slice()),
            opk: self.opk.public_group(),
        }
    }

    /// Whether a send to the peer can proceed (see
    /// [`Self::ready_to_send`]): callers outside verified code should test
    /// this before calling [`Self::send_message`].
    pub fn can_send_to(&self, peer: u128) -> (r: bool)
        requires
            self.sessions_wf(),
        ensures
            r == self.ready_to_send(peer),
    {
        let ghost dir0 = self.spec_sessions();
        match find_session_index(&self.sessions, peer) {
            Some(i) => {
                proof {
                    let w = choose|k: int| 0 <= k < dir0.len() && (#[trigger] dir0[k]).0 == peer;
                    if w != i as int {
                        assert(dir0[w].0 == peer && dir0[i as int].0 == peer);
                        assert(false);
                    }
                }
                self.sessions[i].1.ready()
            },
            None => true,
        }
    }

    /// Sends a message to the peer described by `to`. When no session for
    /// the peer exists, the signed pre-key's signature is first verified
    /// under the advertised identity key — failing that, nothing is done and
    /// `InvalidPreKeyBundle` is reported before any DH is performed — and a
    /// new initiator-side session is established through X3DH, consuming one
    /// of the peer's published one-time pre-keys when one is available; the
    /// envelope of this first message records the ephemeral and one-time
    /// publics used. The message itself is then encrypted by the session's
    /// Double Ratchet.
    pub fn send_message(&mut self, to: &UserPublicInfo, plaintext: &str) -> (r: Result<
        EncryptedMessage,
        ProtocolError,
    >)
        requires
            old(self).sessions_wf(),
            old(self).ready_to_send(to.id),
            encode_utf8(plaintext@).len() <= MAX_PLAINTEXT_LEN,
        ensures
            final(self).sessions_wf(),
            final(self).spec_id() == old(self).spec_id(),
            final(self).spec_name() == old(self).spec_name(),
            final(self).spec_ik() == old(self).spec_ik(),
            final(self).spec_spk() == old(self).spec_spk(),
            final(self).spec_opk() == old(self).spec_opk(),
            old(self).keys_wf() ==> final(self).keys_wf(),
            forall|p: u128|
                #[trigger] final(self).has_session(p) <==> (old(self).has_session(p) || (p == to.id
                    && r is Ok)),
            forall|p: u128|
                p != to.id && old(self).has_session(p) ==> #[trigger] final(self).session_model(p)
                    == old(self).session_model(p),
            old(self).has_session(to.id) ==> r is Ok,
            !old(self).has_session(to.id) ==> ((r is Err) <==> !ed25519_verifies(
                to@.ik_sign,
                to@.spk,
                to@.spk_signature,
            )),
            r is Err ==> r == Err::<EncryptedMessage, ProtocolError>(
                ProtocolError::InvalidPreKeyBundle,
            ) && final(self).spec_sessions() == old(self).spec_sessions(),
            old(self).has_session(to.id) ==> (r matches Ok(e) && encrypt_transition(
                old(self).session_model(to.id),
                final(self).session_model(to.id),
                e@,
                plaintext@,
            ) && e@.opk_used is None && e@.ek_used is None && e@.sender == old(self).spec_name()
                && e@.receiver == to@.name),
            !old(self).has_session(to.id) && r is Ok ==> (r matches Ok(e) && {
                &&& e@.opk_used == (if to@.opk.len() > 0 {
                    Some(to@.opk[0].public)
                } else {
                    None
                })
                &&& e@.sender == old(self).spec_name()
                &&& e@.receiver == to@.name
                &&& exists|ek_priv: Seq<u8>, d_priv: Seq<u8>, d_pub: Seq<u8>|
                    #![auto]
                    e@.ek_used == Some(x25519_public_of(ek_priv)) && encrypt_transition(
                        initial_initiator_model(
                            x3dh_session_key(
                                old(self).spec_ik().dh_private,
                                ek_priv,
                                to@.spk,
                                to@.ik,
                                e@.opk_used,
                            ),
                            d_priv,
                            d_pub,
                            to@.spk,
                        ),
                        final(self).session_model(to.id),
                        e@,
                        plaintext@,
                    )
            }),
    {
        let ghost dir0 = self.spec_sessions();
        match find_session_index(&self.sessions, to.id) {
            Some(i) => {
                let (pid, mut state) = self.sessions.remove(i);
                proof {
                    assert(dir0[i as int] == (pid, state@));
                    let w = choose|k: int|
                        0 <= k < dir0.len() && (#[trigger] dir0[k]).0 == to.id;
                    if w != i as int {
                        assert(dir0[w].0 == to.id && dir0[i as int].0 == to.id);
                        assert(false);
                    }
                    assert(old(self).session_model(to.id) == state@);
                    assert(model_wf(state@));
                }
                let e = state.encrypt(plaintext, self.name.clone(), to.name.clone(), None, None);
                self.sessions.push((pid, state));
                proof {
                    lemma_dir_update(dir0, i as int, state@);
                    assert(self.spec_sessions() =~= dir0.remove(i as int).push((pid, state@)));
                }
                Ok(e)
            },
            None => {
                // the signed pre-key must verify under the advertised
                // identity key before any DH is performed
                if !ed25519_verify(&to.ik_sign, to.spk.as_slice(), to.spk_signature.as_slice()) {
                    return Err(ProtocolError::InvalidPreKeyBundle);
                }
                let ek = EphemeralKey::new();
                let opk = to.opk.use_key();
                let used_opk: Option<[u8; 32]> = match &opk {
                    Some(k) => Some(k.public),
                    None => None,
                };
                let used_ek: Option<[u8; 32]> = Some(ek.public_key());
                let opk_ref: Option<&OneTimePreKeyPublic> = match &opk {
                    Some(k) => Some(k),
                    None => None,
                };
                let session = create_session_key(
                    self.name.clone(),
                    to.name.clone(),
                    &self.ik,
                    &ek,
                    to.spk,
                    to.ik,
                    opk_ref,
                );
                let rk = derive_root_key(session.get_bytes());
                let dhs = RatchetKey::new();
                let mut state = RatchetState::new(rk, dhs, Some(to.spk), true);
                proof {
                    assert(state@.skipped =~= Seq::<
                        crate::double_ratchet::SkippedEntryView,
                    >::empty());
                    assert(state@ == initial_initiator_model(
                        x3dh_session_key(
                            self.spec_ik().dh_private,
                            ek@.private,
                            to@.spk,
                            to@.ik,
                            opk_public_view(opk_ref),
                        ),
                        dhs@.private,
                        dhs@.public,
                        to@.spk,
                    ));
                }
                let e = state.encrypt(
                    plaintext,
                    self.name.clone(),
                    to.name.clone(),
                    used_opk,
                    used_ek,
                );
                let ghost m0 = initial_initiator_model(
                    x3dh_session_key(
                        self.spec_ik().dh_private,
                        ek@.private,
                        to@.spk,
                        to@.ik,
                        e@.opk_used,
                    ),
                    dhs@.private,
                    dhs@.public,
                    to@.spk,
                );
                self.sessions.push((to.id, state));
                proof {
                    lemma_dir_push(dir0, to.id, state@);
                    assert(self.spec_sessions() =~= dir0.push((to.id, state@)));
                    assert(e@.opk_used == opk_public_view(opk_ref));
                    assert(e@.ek_used == Some(x25519_public_of(ek@.private)));
                }
                Ok(e)
            },
        }
    }

    /// Receives and decrypts a message from the peer described by `from`.
    /// When no session for the peer exists, a responder-side session is
    /// reconstructed through X3DH: the local one-time pre-key referenced by
    /// the envelope is looked up and consumed — an unknown reference
    /// surfaces `UnknownOneTimePreKey` and creates nothing — the envelope's
    /// ephemeral public enters the DH computation, and the local signed
    /// pre-key pair is installed as the session's first DH pair. The
    /// envelope is then decrypted by the session's Double Ratchet; a
    /// decryption failure does not roll the new session back.
    pub fn receive_message(&mut self, from: &UserPublicInfo, msg: &EncryptedMessage) -> (r: Result<
        String,
        ProtocolError,
    >)
        requires
            old(self).sessions_wf(),
        ensures
            final(self).sessions_wf(),
            final(self).spec_id() == old(self).spec_id(),
            final(self).spec_name() == old(self).spec_name(),
            final(self).spec_ik() == old(self).spec_ik(),
            final(self).spec_spk() == old(self).spec_spk(),
            old(self).keys_wf() ==> final(self).keys_wf(),
            forall|p: u128|
                p != from.id && old(self).has_session(p) ==> #[trigger] final(self).session_model(
                    p,
                ) == old(self).session_model(p),
            forall|p: u128|
                #[trigger] final(self).has_session(p) <==> (old(self).has_session(p) || (p
                    == from.id && !(r == Err::<String, ProtocolError>(
                    ProtocolError::UnknownOneTimePreKey,
                )))),
            old(self).has_session(from.id) ==> final(self).spec_opk() == old(self).spec_opk()
                && decrypt_transition(
                old(self).session_model(from.id),
                final(self).session_model(from.id),
                msg@,
                r,
            ),
            !old(self).has_session(from.id) && (msg@.opk_used matches Some(pk) && !opk_in_pool(
                old(self).spec_opk(),
                pk,
            )) ==> r == Err::<String, ProtocolError>(ProtocolError::UnknownOneTimePreKey)
                && final(self).spec_opk() == old(self).spec_opk() && final(self).spec_sessions()
                == old(self).spec_sessions(),
            !old(self).has_session(from.id) && (msg@.opk_used matches Some(pk) && opk_in_pool(
                old(self).spec_opk(),
                pk,
            )) ==> exists|j: int|
                #![auto]
                0 <= j < old(self).spec_opk().len() && old(self).spec_opk()[j].public
                    == msg@.opk_used->0 && final(self).spec_opk() == old(self).spec_opk().remove(j)
                    && decrypt_transition(
                    initial_responder_model(
                        session_key_of(
                            x3dh_ikm_responder(
                                old(self).spec_ik().dh_private,
                                old(self).spec_spk().private,
                                Some(old(self).spec_opk()[j].private),
                                from@.ik,
                                ek_used_view(msg@.ek_used),
                            ),
                        ),
                        old(self).spec_spk().private,
                        old(self).spec_spk().public,
                    ),
                    final(self).session_model(from.id),
                    msg@,
                    r,
                ) && x3dh_agreement(
                    old(self).spec_ik().dh_private,
                    old(self).spec_spk().private,
                    Some(old(self).spec_opk()[j].private),
                    from@.ik,
                    ek_used_view(msg@.ek_used),
                ),
            !old(self).has_session(from.id) && msg@.opk_used is None ==> final(self).spec_opk()
                == old(self).spec_opk() && decrypt_transition(
                initial_responder_model(
                    session_key_of(
                        x3dh_ikm_responder(
                            old(self).spec_ik().dh_private,
                            old(self).spec_spk().private,
                            None,
                            from@.ik,
                            ek_used_view(msg@.ek_used),
                        ),
                    ),
                    old(self).spec_spk().private,
                    old(self).spec_spk().public,
                ),
                final(self).session_model(from.id),
                msg@,
                r,
            ) && x3dh_agreement(
                old(self).spec_ik().dh_private,
                old(self).spec_spk().private,
                None,
                from@.ik,
                ek_used_view(msg@.ek_used),
            ),
    {
        let ghost dir0 = self.spec_sessions();
        match find_session_index(&self.sessions, from.id) {
            Some(i) => {
                let (pid, mut state) = self.sessions.remove(i);
                proof {
                    assert(dir0[i as int] == (pid, state@));
                    let w = choose|k: int|
                        0 <= k < dir0.len() && (#[trigger] dir0[k]).0 == from.id;
                    if w != i as int {
                        assert(dir0[w].0 == from.id && dir0[i as int].0 == from.id);
                        assert(false);
                    }
                    assert(old(self).session_model(from.id) == state@);
                    assert(model_wf(state@));
                }
                let out = state.decrypt(msg);
                self.sessions.push((pid, state));
                proof {
                    lemma_dir_update(dir0, i as int, state@);
                    assert(self.spec_sessions() =~= dir0.remove(i as int).push((pid, state@)));
                }
                out
            },
            None => {
                let ghost opk0 = self.spec_opk();
                let opk_taken: Option<OneTimePreKey> = match msg.opk_used {
                    Some(p) => match self.opk.take_by_public_key(p) {
                        Some(k) => Some(k),
                        None => {
                            return Err(ProtocolError::UnknownOneTimePreKey);
                        },
                    },
                    None => None,
                };
                let ek_pub: [u8; 32] = match msg.ek_used {
                    Some(e) => e,
                    None => [0u8; 32],
                };
                proof {
                    broadcast use vstd::array::group_array_axioms;

                    assert(ek_pub@ =~= ek_used_view(msg@.ek_used));
                }
                let opk_ref: Option<&OneTimePreKey> = match &opk_taken {
                    Some(k) => Some(k),
                    None => None,
                };
                let session = receive_session_key(
                    self.name.clone(),
                    from.name.clone(),
                    &self.ik,
                    &self.spk,
                    opk_ref,
                    from.ik,
                    ek_pub,
                );
                let rk = derive_root_key(session.get_bytes());
                let dhs = RatchetKey::from_keys(self.spk.get_private(), self.spk.public_key());
                let mut state = RatchetState::new(rk, dhs, None, false);
                proof {
                    assert(state@.skipped =~= Seq::<
                        crate::double_ratchet::SkippedEntryView,
                    >::empty());
                }
                let out = state.decrypt(msg);
                self.sessions.push((from.id, state));
                proof {
                    lemma_dir_push(dir0, from.id, state@);
                    assert(self.spec_sessions() =~= dir0.push((from.id, state@)));
                }
                out
            },
        }
    }
}

/// First-contact round trip: a sender with no session for the receiver
/// sends one message built from the receiver's published bundle; the
/// receiver, holding the matching private key material and no session for
/// the sender, recovers exactly the plaintext. This composes the initial
/// key agreement of X3DH with the first DH ratchet step across the whole
/// user-level API, for every pair of well-formed users and every plaintext.
pub fn establish_and_deliver(sender: &mut User, receiver: &mut User, plaintext: &str) -> (r: Result<
    String,
    ProtocolError,
>)
    requires
        old(sender).sessions_wf(),
        old(sender).keys_wf(),
        old(receiver).sessions_wf(),
        old(receiver).keys_wf(),
        old(receiver).bundle_signed(),
        !old(sender).has_session(old(receiver).spec_id()),
        !old(receiver).has_session(old(sender).spec_id()),
        encode_utf8(plaintext@).len() <= MAX_PLAINTEXT_LEN,
    ensures
        r matches Ok(p) && p@ == plaintext@,
{
    broadcast use vstd::utf8::encode_utf8_decode_utf8, vstd::utf8::encode_utf8_valid_utf8;

    let to = receiver.public_info();
    let from = sender.public_info();
    let ghost s0 = *sender;
    let ghost v0 = *receiver;
    let sent = sender.send_message(&to, plaintext);
    match sent {
        Ok(e) => {
            proof {
                assert(!s0.has_session(to.id));
                let (ek_priv, d_priv, d_pub) = choose|x: Seq<u8>, y: Seq<u8>, z: Seq<u8>|
                    #![auto]
                    e@.ek_used == Some(x25519_public_of(x)) && encrypt_transition(
                        initial_initiator_model(
                            x3dh_session_key(
                                s0.spec_ik().dh_private,
                                x,
                                to@.spk,
                                to@.ik,
                                e@.opk_used,
                            ),
                            y,
                            z,
                            to@.spk,
                        ),
                        sender.session_model(to.id),
                        e@,
                        plaintext@,
                    );
                assert(e@.ek_used == Some(x25519_public_of(ek_priv)));
                assert(ek_used_view(e@.ek_used) == x25519_public_of(ek_priv));
                if to@.opk.len() > 0 {
                    assert(e@.opk_used == Some(to@.opk[0].public));
                    assert(to@.opk[0].public == v0.spec_opk()[0].public);
                    assert(opk_in_pool(v0.spec_opk(), e@.opk_used->0));
                }
            }
            let out = receiver.receive_message(&from, &e);
            proof {
                let ghost m1 = sender.session_model(to.id);
                let ghost m2 = receiver.session_model(from.id);
                let (ek_priv, d_priv, d_pub) = choose|x: Seq<u8>, y: Seq<u8>, z: Seq<u8>|
                    #![auto]
                    e@.ek_used == Some(x25519_public_of(x)) && encrypt_transition(
                        initial_initiator_model(
                            x3dh_session_key(
                                s0.spec_ik().dh_private,
                                x,
                                to@.spk,
                                to@.ik,
                                e@.opk_used,
                            ),
                            y,
                            z,
                            to@.spk,
                        ),
                        m1,
                        e@,
                        plaintext@,
                    );
                let sk_i = x3dh_session_key(
                    s0.spec_ik().dh_private,
                    ek_priv,
                    to@.spk,
                    to@.ik,
                    e@.opk_used,
                );
                let m0i = initial_initiator_model(sk_i, d_priv, d_pub, to@.spk);
                assert(encrypt_transition(m0i, m1, e@, plaintext@));
                assert(will_ratchet(m0i));
                assert(e@.message_index == 0);
                assert(e@.ratchet_pub == m1.dhs_pub);

                // identify the responder-side session key with the
                // initiator's through the X3DH agreement
                let spk_priv = v0.spec_spk().private;
                let ik_priv = v0.spec_ik().dh_private;
                assert(from@.ik == x25519_public_of(s0.spec_ik().dh_private));
                assert(to@.spk == x25519_public_of(spk_priv));
                assert(to@.ik == x25519_public_of(ik_priv));
                let opk_used: Option<Seq<u8>> = if to@.opk.len() > 0 {
                    let j = choose|j: int|
                        #![auto]
                        0 <= j < v0.spec_opk().len() && v0.spec_opk()[j].public == e@.opk_used->0
                            && receiver.spec_opk() == v0.spec_opk().remove(j)
                            && decrypt_transition(
                            initial_responder_model(
                                session_key_of(
                                    x3dh_ikm_responder(
                                        ik_priv,
                                        spk_priv,
                                        Some(v0.spec_opk()[j].private),
                                        from@.ik,
                                        ek_used_view(e@.ek_used),
                                    ),
                                ),
                                spk_priv,
                                v0.spec_spk().public,
                            ),
                            m2,
                            e@,
                            out,
                        ) && x3dh_agreement(
                            ik_priv,
                            spk_priv,
                            Some(v0.spec_opk()[j].private),
                            from@.ik,
                            ek_used_view(e@.ek_used),
                        );
                    assert(otpk_wf(v0.spec_opk()[j]));
                    assert(x25519_public_of(v0.spec_opk()[j].private) == e@.opk_used->0);
                    Some(v0.spec_opk()[j].private)
                } else {
                    assert(e@.opk_used is None);
                    None
                };
                let sk_r = session_key_of(
                    x3dh_ikm_responder(
                        ik_priv,
                        spk_priv,
                        opk_used,
                        from@.ik,
                        ek_used_view(e@.ek_used),
                    ),
                );
                let m0r = initial_responder_model(sk_r, spk_priv, v0.spec_spk().public);
                assert(decrypt_transition(m0r, m2, e@, out));
                assert(x3dh_agreement(ik_priv, spk_priv, opk_used, from@.ik, ek_used_view(e@.ek_used)));
                assert(sk_r == x3dh_session_key(
                    s0.spec_ik().dh_private,
                    ek_priv,
                    x25519_public_of(spk_priv),
                    x25519_public_of(ik_priv),
                    crate::x3dh::opt_map_public(opk_used),
                ));
                assert(crate::x3dh::opt_map_public(opk_used) == e@.opk_used);
                assert(sk_r == sk_i);

                // the receiver's inbound ratchet derives the sender's key
                let rp = e@.ratchet_pub;
                assert(!skipped_has(m0r.skipped, rp, 0));
                assert(dec_ratchets(m0r, rp));
                assert(!dec_too_many(m0r, rp, 0));
                assert(dec_index(m0r, rp) == 0);
                assert(dec_fill(m0r, rp, 0) == (m0r.skipped, dec_chain(m0r, rp)));
                assert(x25519_shared_of(m1.dhs_priv, to@.spk) == x25519_shared_of(
                    spk_priv,
                    m1.dhs_pub,
                ));
                assert(dec_mk(m0r, rp, 0) == encrypt_mk(m0i, m1.dhs_priv));
                assert(aead_open_of(encrypt_mk(m0i, m1.dhs_priv), e@.nonce, e@.ciphertext)
                    == Some(encode_utf8(plaintext@)));
                assert(open_outcome(dec_mk(m0r, rp, 0), e@.nonce, e@.ciphertext) == Some(
                    decode_utf8(encode_utf8(plaintext@)),
                ));
                assert(result_matches_open(out, open_outcome(dec_mk(m0r, rp, 0), e@.nonce, e@.ciphertext)));
            }
            out
        },
        Err(err) => {
            proof {
                assert(false);
            }
            Err(err)
        },
    }
}

/// One first contact between two freshly created users: the plaintext comes
/// back exactly.
pub fn fresh_contact_round_trip(name_a: String, name_b: String, plaintext: &str) -> (r: Result<
    String,
    ProtocolError,
>)
    requires
        encode_utf8(plaintext@).len() <= MAX_PLAINTEXT_LEN,
    ensures
        r matches Ok(p) && p@ == plaintext@,
{
    let mut a = User::new(name_a);
    let mut b = User::new(name_b);
    establish_and_deliver(&mut a, &mut b, plaintext)
}


} // verus!
