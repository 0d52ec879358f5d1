//! The X3DH engine: computes the 3- or 4-way Diffie-Hellman combination and
//! the initial session key, from either the initiator's or the responder's
//! side. On matched inputs the two sides derive bit-identical session keys;
//! that agreement is stated as the final `ensures` of [`receive_session_key`].

use vstd::prelude::*;

use crate::byteops::append_bytes32;
use crate::crypto::{x25519_dh, x25519_public_of, x25519_shared_of};
use crate::kdf::{derive_session_key, session_key_of};
use crate::keys::ephemeral_key::EphemeralKey;
use crate::keys::identity::IdentityKey;
use crate::keys::one_time_prekey::{OneTimePreKey, OneTimePreKeyPublic};
use crate::keys::session_key::SessionKey;
use crate::keys::signed_prekey::SignedPreKey;

verus! {

/// The concatenated DH outputs `DH1 ∥ DH2 ∥ DH3 [∥ DH4]` of the handshake,
/// written from the initiator's side:
/// DH1 = DH(IK_init, SPK_resp), DH2 = DH(EK_init, IK_resp),
/// DH3 = DH(EK_init, SPK_resp), DH4 = DH(EK_init, OPK_resp) when a one-time
/// pre-key was chosen.
pub open spec fn x3dh_ikm(
    ik_init: Seq<u8>,
    ek_init: Seq<u8>,
    spk_resp: Seq<u8>,
    ik_resp: Seq<u8>,
    opk_resp: Option<Seq<u8>>,
) -> Seq<u8> {
    let base = x25519_shared_of(ik_init, spk_resp) + x25519_shared_of(ek_init, ik_resp)
        + x25519_shared_of(ek_init, spk_resp);
    match opk_resp {
        Some(opk) => base + x25519_shared_of(ek_init, opk),
        None => base,
    }
}

/// The session key derived from the initiator-side DH concatenation.
pub open spec fn x3dh_session_key(
    ik_init: Seq<u8>,
    ek_init: Seq<u8>,
    spk_resp: Seq<u8>,
    ik_resp: Seq<u8>,
    opk_resp: Option<Seq<u8>>,
) -> Seq<u8> {
    session_key_of(x3dh_ikm(ik_init, ek_init, spk_resp, ik_resp, opk_resp))
}

/// The same concatenation written from the responder's side, over the
/// responder's private scalars and the initiator's public keys.
pub open spec fn x3dh_ikm_responder(
    ik_resp: Seq<u8>,
    spk_resp: Seq<u8>,
    opk_resp: Option<Seq<u8>>,
    ik_init_pub: Seq<u8>,
    ek_init_pub: Seq<u8>,
) -> Seq<u8> {
    let base = x25519_shared_of(spk_resp, ik_init_pub) + x25519_shared_of(ik_resp, ek_init_pub)
        + x25519_shared_of(spk_resp, ek_init_pub);
    match opk_resp {
        Some(opk) => base + x25519_shared_of(opk, ek_init_pub),
        None => base,
    }
}

/// The public keys of an optional set of private scalars.
pub open spec fn opt_map_public(o: Option<Seq<u8>>) -> Option<Seq<u8>> {
    match o {
        Some(p) => Some(x25519_public_of(p)),
        None => None,
    }
}

/// The initial key agreement, stated over the responder's private scalars:
/// whenever the initiator's publics are the public keys of scalars `a`
/// (identity) and `e` (ephemeral), the responder's session key equals the
/// key the initiator derives from the responder's derived publics — the two
/// sides agree bit-identically on matched inputs.
pub open spec fn x3dh_agreement(
    ik_resp: Seq<u8>,
    spk_resp: Seq<u8>,
    opk_resp: Option<Seq<u8>>,
    ik_init_pub: Seq<u8>,
    ek_init_pub: Seq<u8>,
) -> bool {
    forall|a: Seq<u8>, e: Seq<u8>|
        ik_init_pub == #[trigger] x25519_public_of(a) && ek_init_pub == #[trigger] x25519_public_of(
            e,
        ) ==> session_key_of(x3dh_ikm_responder(ik_resp, spk_resp, opk_resp, ik_init_pub, ek_init_pub))
            == x3dh_session_key(
            a,
            e,
            x25519_public_of(spk_resp),
            x25519_public_of(ik_resp),
            opt_map_public(opk_resp),
        )
}

/// The view of the optional one-time pre-key public chosen by the initiator.
pub open spec fn opk_public_view(o: Option<&OneTimePreKeyPublic>) -> Option<Seq<u8>> {
    match o {
        Some(k) => Some(k@.public),
        None => None,
    }
}

/// The publics of the responder's optional one-time pre-key pair.
pub open spec fn opk_derived_public_view(o: Option<&OneTimePreKey>) -> Option<Seq<u8>> {
    match o {
        Some(k) => Some(x25519_public_of(k@.private)),
        None => None,
    }
}

/// The privates of the responder's optional one-time pre-key pair.
pub open spec fn opk_private_view(o: Option<&OneTimePreKey>) -> Option<Seq<u8>> {
    match o {
        Some(k) => Some(k@.private),
        None => None,
    }
}

/// Creates the session key on the initiator's (sender's) side, from the
/// initiator's identity and ephemeral keys and the responder's published
/// signed pre-key, identity key and optional one-time pre-key.
pub fn create_session_key(
    sender_name: String,
    receiver_name: String,
    ik_initiator: &IdentityKey,
    ek_initiator: &EphemeralKey,
    spk_receiver: [u8; 32],
    ik_receiver: [u8; 32],
    opk_receiver: Option<&OneTimePreKeyPublic>,
) -> (r: SessionKey)
    ensures
        r@.bytes == x3dh_session_key(
            ik_initiator@.dh_private,
            ek_initiator@.private,
            spk_receiver@,
            ik_receiver@,
            opk_public_view(opk_receiver),
        ),
        r@.sender == sender_name@,
        r@.receiver == receiver_name@,
{
    let dh1 = x25519_dh(&ik_initiator.get_private(), &spk_receiver);
    let dh2 = x25519_dh(&ek_initiator.get_private(), &ik_receiver);
    let dh3 = x25519_dh(&ek_initiator.get_private(), &spk_receiver);

    let mut ikm: Vec<u8> = Vec::new();
    append_bytes32(&mut ikm, &dh1);
    append_bytes32(&mut ikm, &dh2);
    append_bytes32(&mut ikm, &dh3);

    match opk_receiver {
        Some(opk) => {
            let dh4 = x25519_dh(&ek_initiator.get_private(), &opk.public);
            append_bytes32(&mut ikm, &dh4);
            proof {
                assert(ikm@ =~= dh1@ + dh2@ + dh3@ + dh4@);
            }
        },
        None => {
            proof {
                assert(ikm@ =~= dh1@ + dh2@ + dh3@);
            }
        },
    }

    let sk_bytes = derive_session_key(ikm.as_slice());
    SessionKey::new(sk_bytes, sender_name, receiver_name)
}

/// Derives the session key on the responder's (receiver's) side, from the
/// responder's private key material and the initiator's identity and
/// ephemeral publics. The DH ordering mirrors the initiator's exactly.
///
/// The last `ensures` is the initial key agreement, [`x3dh_agreement`]:
/// on matched inputs both sides derive bit-identical session keys.
pub fn receive_session_key(
    receiver_name: String,
    sender_name: String,
    receiver_ik: &IdentityKey,
    receiver_spk: &SignedPreKey,
    receiver_opk: Option<&OneTimePreKey>,
    sender_ik_public: [u8; 32],
    sender_ek_public: [u8; 32],
) -> (r: SessionKey)
    ensures
        r@.bytes == session_key_of(
            x3dh_ikm_responder(
                receiver_ik@.dh_private,
                receiver_spk@.private,
                opk_private_view(receiver_opk),
                sender_ik_public@,
                sender_ek_public@,
            ),
        ),
        r@.sender == sender_name@,
        r@.receiver == receiver_name@,
        x3dh_agreement(
            receiver_ik@.dh_private,
            receiver_spk@.private,
            opk_private_view(receiver_opk),
            sender_ik_public@,
            sender_ek_public@,
        ),
{
    let dh1 = x25519_dh(&receiver_spk.get_private(), &sender_ik_public);
    let dh2 = x25519_dh(&receiver_ik.get_private(), &sender_ek_public);
    let dh3 = x25519_dh(&receiver_spk.get_private(), &sender_ek_public);

    let mut ikm: Vec<u8> = Vec::new();
    append_bytes32(&mut ikm, &dh1);
    append_bytes32(&mut ikm, &dh2);
    append_bytes32(&mut ikm, &dh3);

    match receiver_opk {
        Some(opk) => {
            let dh4 = x25519_dh(&opk.get_private(), &sender_ek_public);
            append_bytes32(&mut ikm, &dh4);
            proof {
                assert(ikm@ =~= dh1@ + dh2@ + dh3@ + dh4@);
            }
        },
        None => {
            proof {
                assert(ikm@ =~= dh1@ + dh2@ + dh3@);
            }
        },
    }

    proof {
        assert forall|a: Seq<u8>, e: Seq<u8>|
            sender_ik_public@ == #[trigger] x25519_public_of(a) && sender_ek_public@
                == #[trigger] x25519_public_of(e) implies ikm@ == x3dh_ikm(
            a,
            e,
            x25519_public_of(receiver_spk@.private),
            x25519_public_of(receiver_ik@.dh_private),
            opk_derived_public_view(receiver_opk),
        ) by {
            assert(ikm@ =~= x3dh_ikm(
                a,
                e,
                x25519_public_of(receiver_spk@.private),
                x25519_public_of(receiver_ik@.dh_private),
                opk_derived_public_view(receiver_opk),
            ));
        }
    }

    let sk_bytes = derive_session_key(ikm.as_slice());
    SessionKey::new(sk_bytes, sender_name, receiver_name)
}

} // verus!
