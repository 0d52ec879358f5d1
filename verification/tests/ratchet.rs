//! Tests at the level of the ratchet state machine, the X3DH engine and the
//! typed key material.

use signal_protocol_poc::double_ratchet::{paired_session_states, session_exchange,
    session_round_trip, session_round_trip_reversed};
use signal_protocol_poc::keys::chain_key::ChainKey;
use signal_protocol_poc::keys::ephemeral_key::EphemeralKey;
use signal_protocol_poc::keys::identity::IdentityKey;
use signal_protocol_poc::keys::message_key::MessageKey;
use signal_protocol_poc::keys::one_time_prekey::{OneTimePreKey, OneTimePreKeyGroup};
use signal_protocol_poc::keys::root_key::RootKey;
use signal_protocol_poc::keys::session_key::SessionKey;
use signal_protocol_poc::keys::signed_prekey::SignedPreKey;
use signal_protocol_poc::x3dh::{create_session_key, receive_session_key};

#[test]
fn x3dh_agreement_with_one_time_prekey() {
    let alice_ik = IdentityKey::new();
    let alice_ek = EphemeralKey::new();
    let bob_ik = IdentityKey::new();
    let bob_spk = SignedPreKey::new(bob_ik.signing_key());
    let bob_group = OneTimePreKeyGroup::new(1);
    let bob_opk_public = bob_group.public_group().keys[0];
    let bob_opk = bob_group.get_by_public_key(bob_opk_public.public).unwrap();

    let initiator_key = create_session_key(
        "Alice".to_string(),
        "Bob".to_string(),
        &alice_ik,
        &alice_ek,
        bob_spk.public,
        bob_ik.dh_public,
        Some(&bob_opk_public),
    );
    let responder_key = receive_session_key(
        "Bob".to_string(),
        "Alice".to_string(),
        &bob_ik,
        &bob_spk,
        Some(&bob_opk),
        alice_ik.dh_public,
        alice_ek.public,
    );

    assert_eq!(initiator_key.get_bytes(), responder_key.get_bytes());
}

#[test]
fn x3dh_agreement_without_one_time_prekey() {
    let alice_ik = IdentityKey::new();
    let alice_ek = EphemeralKey::new();
    let bob_ik = IdentityKey::new();
    let bob_spk = SignedPreKey::new(bob_ik.signing_key());

    let initiator_key = create_session_key(
        "Alice".to_string(),
        "Bob".to_string(),
        &alice_ik,
        &alice_ek,
        bob_spk.public,
        bob_ik.dh_public,
        None,
    );
    let responder_key = receive_session_key(
        "Bob".to_string(),
        "Alice".to_string(),
        &bob_ik,
        &bob_spk,
        None,
        alice_ik.dh_public,
        alice_ek.public,
    );

    assert_eq!(initiator_key.get_bytes(), responder_key.get_bytes());
}

#[test]
fn x3dh_mismatched_inputs_disagree() {
    let alice_ik = IdentityKey::new();
    let alice_ek = EphemeralKey::new();
    let other_ek = EphemeralKey::new();
    let bob_ik = IdentityKey::new();
    let bob_spk = SignedPreKey::new(bob_ik.signing_key());

    let initiator_key = create_session_key(
        "Alice".to_string(),
        "Bob".to_string(),
        &alice_ik,
        &alice_ek,
        bob_spk.public,
        bob_ik.dh_public,
        None,
    );
    let responder_key = receive_session_key(
        "Bob".to_string(),
        "Alice".to_string(),
        &bob_ik,
        &bob_spk,
        None,
        alice_ik.dh_public,
        other_ek.public,
    );

    assert_ne!(initiator_key.get_bytes(), responder_key.get_bytes());
}

#[test]
fn chain_advance_is_deterministic() {
    let c1 = ChainKey::new([3u8; 32], 5);
    let c2 = ChainKey::new([3u8; 32], 5);

    let (next1, mk1) = c1.derive_next();
    let (next2, mk2) = c2.derive_next();

    assert_eq!(mk1.get_key(), mk2.get_key());
    assert_eq!(mk1.get_index(), 5);
    assert_eq!(mk2.get_index(), 5);
    assert_eq!(next1.get_index(), 6);
    assert_eq!(next2.get_index(), 6);

    let (_, mk1b) = next1.derive_next();
    let (_, mk2b) = next2.derive_next();
    assert_eq!(mk1b.get_key(), mk2b.get_key());

    // the chain really advances: successive message keys differ
    assert_ne!(mk1.get_key(), mk1b.get_key());
}

#[test]
fn verified_round_trip_over_fresh_pair() {
    let out = session_round_trip(&[7u8; 32], "hello ratchet", "A".to_string(), "B".to_string());
    assert_eq!(out.unwrap(), "hello ratchet");
}

#[test]
fn verified_round_trip_reversed_order() {
    let (first, second) = session_round_trip_reversed(
        &[9u8; 32],
        "first message",
        "second message",
        "A".to_string(),
        "B".to_string(),
    );
    assert_eq!(first.unwrap(), "first message");
    assert_eq!(second.unwrap(), "second message");
}

#[test]
fn skipped_keys_buffered_and_consumed() {
    let (mut a, mut b) = paired_session_states(&[4u8; 32]);

    let e1 = a.encrypt("m1", "A".to_string(), "B".to_string(), None, None);
    let e2 = a.encrypt("m2", "A".to_string(), "B".to_string(), None, None);
    let e3 = a.encrypt("m3", "A".to_string(), "B".to_string(), None, None);

    assert_eq!(b.decrypt(&e3).unwrap(), "m3");
    assert_eq!(b.skipped_count(), 2);
    assert_eq!(b.decrypt(&e1).unwrap(), "m1");
    assert_eq!(b.skipped_count(), 1);
    assert_eq!(b.decrypt(&e2).unwrap(), "m2");
    assert_eq!(b.skipped_count(), 0);
}

#[test]
fn skipped_key_is_single_use() {
    let (mut a, mut b) = paired_session_states(&[5u8; 32]);

    let e1 = a.encrypt("m1", "A".to_string(), "B".to_string(), None, None);
    let e2 = a.encrypt("m2", "A".to_string(), "B".to_string(), None, None);

    assert_eq!(b.decrypt(&e2).unwrap(), "m2");
    assert_eq!(b.decrypt(&e1).unwrap(), "m1");
    // the key was removed on use: replaying the envelope fails
    assert!(b.decrypt(&e1).is_err());
}

#[test]
fn message_key_accessors() {
    let mk = MessageKey::new([1u8; 32], 7);
    assert_eq!(mk.get_key(), &[1u8; 32]);
    assert_eq!(mk.get_index(), 7);
}

#[test]
fn root_and_session_key_accessors() {
    let rk = RootKey::new([2u8; 32]);
    assert_eq!(rk.get_bytes(), &[2u8; 32]);

    let sk = SessionKey::new([3u8; 32], "A".to_string(), "B".to_string());
    assert_eq!(sk.get_bytes(), &[3u8; 32]);
    assert_eq!(sk.sender, "A");
    assert_eq!(sk.receiver, "B");
}

#[test]
fn prekey_pool_lookup_and_snapshot() {
    let group = OneTimePreKeyGroup::new(3);
    assert_eq!(group.len(), 3);

    let snapshot = group.public_group();
    assert_eq!(snapshot.keys.len(), 3);

    let found = group.get_by_public_key(snapshot.keys[1].public).unwrap();
    assert_eq!(found.public, snapshot.keys[1].public);
    assert_eq!(found.id, snapshot.keys[1].id);

    assert!(group.get_by_public_key([0u8; 32]).is_none());
}

#[test]
fn public_prekey_selection_is_idempotent() {
    let group = OneTimePreKeyGroup::new(2);
    let snapshot = group.public_group();

    let first = snapshot.use_key().unwrap();
    let again = snapshot.use_key().unwrap();
    assert_eq!(first.public, again.public);
    assert_eq!(first.id, again.id);
    assert_eq!(first.public, snapshot.keys[0].public);
}

#[test]
fn fresh_key_pairs_are_distinct() {
    let k1 = OneTimePreKey::new();
    let k2 = OneTimePreKey::new();
    assert_ne!(k1.public, k2.public);
    assert_ne!(k1.get_private(), k2.get_private());

    let e1 = EphemeralKey::new();
    let e2 = EphemeralKey::new();
    assert_ne!(e1.public, e2.public);
}

#[test]
fn sending_chain_key_changes_after_ratchet() {
    // freshness across a DH ratchet step, observed through the envelopes: the
    // same plaintext sealed before and after the step yields unrelated
    // ciphertexts, and the ratchet public rotates
    let (mut a, mut b) = paired_session_states(&[6u8; 32]);
    let e1 = a.encrypt("same text", "A".to_string(), "B".to_string(), None, None);
    assert_eq!(b.decrypt(&e1).unwrap(), "same text");
    let reply = b.encrypt("reply", "B".to_string(), "A".to_string(), None, None);
    assert_eq!(a.decrypt(&reply).unwrap(), "reply");
    let e2 = a.encrypt("same text", "A".to_string(), "B".to_string(), None, None);

    assert_ne!(e1.ratchet_pub, e2.ratchet_pub);
    assert_ne!(e1.ciphertext, e2.ciphertext);
    assert_eq!(b.decrypt(&e2).unwrap(), "same text");
}

#[test]
fn verified_exchange_with_reply() {
    let (forward, reply) = session_exchange(
        &[11u8; 32],
        "over",
        "and back",
        "A".to_string(),
        "B".to_string(),
    );
    assert_eq!(forward.unwrap(), "over");
    assert_eq!(reply.unwrap(), "and back");
}
