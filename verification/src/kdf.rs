//! Verified key-derivation helpers: the protocol's fixed ASCII info strings
//! and the HKDF/HMAC derivations built from them. The strings must match
//! bit-exact between implementations.

use vstd::prelude::*;

use crate::crypto::{hkdf_expand_of, hkdf_expand32, hmac_of};
use crate::keys::chain_key::ChainKey;
use crate::keys::root_key::RootKey;

verus! {

/// HKDF info for the X3DH session key: the bytes of `"x3dh-session"`.
pub open spec fn info_x3dh_session() -> Seq<u8> {
    seq![120, 51, 100, 104, 45, 115, 101, 115, 115, 105, 111, 110]
}

pub(crate) fn info_x3dh_session_bytes() -> (r: Vec<u8>)
    ensures
        r@ == info_x3dh_session(),
{
    let mut v: Vec<u8> = Vec::new();
    v.push(120);
    v.push(51);
    v.push(100);
    v.push(104);
    v.push(45);
    v.push(115);
    v.push(101);
    v.push(115);
    v.push(115);
    v.push(105);
    v.push(111);
    v.push(110);
    proof {
        assert(v@ =~= info_x3dh_session());
    }
    v
}

/// HKDF info for the initial root key: the bytes of `"double-ratchet-root"`.
pub open spec fn info_root() -> Seq<u8> {
    seq![100, 111, 117, 98, 108, 101, 45, 114, 97, 116, 99, 104, 101, 116, 45, 114, 111, 111, 116]
}

pub(crate) fn info_root_bytes() -> (r: Vec<u8>)
    ensures
        r@ == info_root(),
{
    let mut v: Vec<u8> = Vec::new();
    v.push(100);
    v.push(111);
    v.push(117);
    v.push(98);
    v.push(108);
    v.push(101);
    v.push(45);
    v.push(114);
    v.push(97);
    v.push(116);
    v.push(99);
    v.push(104);
    v.push(101);
    v.push(116);
    v.push(45);
    v.push(114);
    v.push(111);
    v.push(111);
    v.push(116);
    proof {
        assert(v@ =~= info_root());
    }
    v
}

/// HKDF info for the root key of a DH ratchet step: the bytes of `"double-ratchet-rk"`.
pub open spec fn info_rk() -> Seq<u8> {
    seq![100, 111, 117, 98, 108, 101, 45, 114, 97, 116, 99, 104, 101, 116, 45, 114, 107]
}

pub(crate) fn info_rk_bytes() -> (r: Vec<u8>)
    ensures
        r@ == info_rk(),
{
    let mut v: Vec<u8> = Vec::new();
    v.push(100);
    v.push(111);
    v.push(117);
    v.push(98);
    v.push(108);
    v.push(101);
    v.push(45);
    v.push(114);
    v.push(97);
    v.push(116);
    v.push(99);
    v.push(104);
    v.push(101);
    v.push(116);
    v.push(45);
    v.push(114);
    v.push(107);
    proof {
        assert(v@ =~= info_rk());
    }
    v
}

/// HKDF info for the sending chain (also for every DH-ratchet chain installation): the bytes of `"ratchet-ck-send"`.
pub open spec fn info_ck_send() -> Seq<u8> {
    seq![114, 97, 116, 99, 104, 101, 116, 45, 99, 107, 45, 115, 101, 110, 100]
}

pub(crate) fn info_ck_send_bytes() -> (r: Vec<u8>)
    ensures
        r@ == info_ck_send(),
{
    let mut v: Vec<u8> = Vec::new();
    v.push(114);
    v.push(97);
    v.push(116);
    v.push(99);
    v.push(104);
    v.push(101);
    v.push(116);
    v.push(45);
    v.push(99);
    v.push(107);
    v.push(45);
    v.push(115);
    v.push(101);
    v.push(110);
    v.push(100);
    proof {
        assert(v@ =~= info_ck_send());
    }
    v
}

/// HKDF info for the initial receiving chain: the bytes of `"ratchet-ck-recv"`.
pub open spec fn info_ck_recv() -> Seq<u8> {
    seq![114, 97, 116, 99, 104, 101, 116, 45, 99, 107, 45, 114, 101, 99, 118]
}

pub(crate) fn info_ck_recv_bytes() -> (r: Vec<u8>)
    ensures
        r@ == info_ck_recv(),
{
    let mut v: Vec<u8> = Vec::new();
    v.push(114);
    v.push(97);
    v.push(116);
    v.push(99);
    v.push(104);
    v.push(101);
    v.push(116);
    v.push(45);
    v.push(99);
    v.push(107);
    v.push(45);
    v.push(114);
    v.push(101);
    v.push(99);
    v.push(118);
    proof {
        assert(v@ =~= info_ck_recv());
    }
    v
}

/// HMAC context for deriving a message key from a chain key: the bytes of `"msg_key"`.
pub open spec fn ctx_msg_key() -> Seq<u8> {
    seq![109, 115, 103, 95, 107, 101, 121]
}

pub(crate) fn ctx_msg_key_bytes() -> (r: Vec<u8>)
    ensures
        r@ == ctx_msg_key(),
{
    let mut v: Vec<u8> = Vec::new();
    v.push(109);
    v.push(115);
    v.push(103);
    v.push(95);
    v.push(107);
    v.push(101);
    v.push(121);
    proof {
        assert(v@ =~= ctx_msg_key());
    }
    v
}

/// HMAC context for advancing a chain key: the bytes of `"ck"`.
pub open spec fn ctx_ck() -> Seq<u8> {
    seq![99, 107]
}

pub(crate) fn ctx_ck_bytes() -> (r: Vec<u8>)
    ensures
        r@ == ctx_ck(),
{
    let mut v: Vec<u8> = Vec::new();
    v.push(99);
    v.push(107);
    proof {
        assert(v@ =~= ctx_ck());
    }
    v
}

/// The 32-byte X3DH session key derived from the concatenated DH outputs.
pub open spec fn session_key_of(ikm: Seq<u8>) -> Seq<u8> {
    hkdf_expand_of(None, ikm, info_x3dh_session())
}

/// The initial root key derived from a session key.
pub open spec fn root_key_of(session_key: Seq<u8>) -> Seq<u8> {
    hkdf_expand_of(None, session_key, info_root())
}

/// The initial sending-direction chain key derived from a root key.
pub open spec fn initial_send_chain_of(root: Seq<u8>) -> Seq<u8> {
    hkdf_expand_of(None, root, info_ck_send())
}

/// The initial receiving-direction chain key derived from a root key.
pub open spec fn initial_recv_chain_of(root: Seq<u8>) -> Seq<u8> {
    hkdf_expand_of(None, root, info_ck_recv())
}

/// The root key installed by a DH ratchet step: HKDF with the old root key as
/// salt and the fresh DH output as input key material.
pub open spec fn ratchet_root_of(root: Seq<u8>, dh_out: Seq<u8>) -> Seq<u8> {
    hkdf_expand_of(Some(root), dh_out, info_rk())
}

/// The chain key installed by a DH ratchet step, for either direction.
pub open spec fn ratchet_chain_of(root: Seq<u8>, dh_out: Seq<u8>) -> Seq<u8> {
    hkdf_expand_of(Some(root), dh_out, info_ck_send())
}

/// The successor of a chain key in the symmetric ratchet.
pub open spec fn chain_next_of(ck: Seq<u8>) -> Seq<u8> {
    hmac_of(ck, ctx_ck())
}

/// The message key derived from a chain key in the symmetric ratchet.
pub open spec fn message_key_of(ck: Seq<u8>) -> Seq<u8> {
    hmac_of(ck, ctx_msg_key())
}

/// Derives the 32-byte session key from concatenated DH results (X3DH).
pub(crate) fn derive_session_key(dh_results: &[u8]) -> (r: [u8; 32])
    ensures
        r@ == session_key_of(dh_results@),
{
    let info = info_x3dh_session_bytes();
    hkdf_expand32(None, dh_results, info.as_slice())
}

/// Derives the initial root key of a session from its session key.
pub(crate) fn derive_root_key(session_key: &[u8; 32]) -> (r: RootKey)
    ensures
        r@ == root_key_of(session_key@),
{
    let info = info_root_bytes();
    RootKey::new(hkdf_expand32(None, session_key, info.as_slice()))
}

/// Derives the initial send and receive chain keys from a root key, both at
/// index 0.
pub(crate) fn derive_initial_chain_keys(root_key: &RootKey) -> (r: (ChainKey, ChainKey))
    ensures
        r.0@.key == initial_send_chain_of(root_key@),
        r.0@.index == 0,
        r.1@.key == initial_recv_chain_of(root_key@),
        r.1@.index == 0,
{
    let info_s = info_ck_send_bytes();
    let info_r = info_ck_recv_bytes();
    let cks = hkdf_expand32(None, root_key.get_bytes(), info_s.as_slice());
    let ckr = hkdf_expand32(None, root_key.get_bytes(), info_r.as_slice());
    (ChainKey::new(cks, 0), ChainKey::new(ckr, 0))
}

} // verus!
