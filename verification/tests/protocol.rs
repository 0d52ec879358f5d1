//! End-to-end tests of the user-level protocol: session establishment,
//! round trips, tampering, and one-time pre-key consumption.

use signal_protocol_poc::errors::ProtocolError;
use signal_protocol_poc::user::User;

#[test]
fn round_trip_both_directions() {
    let mut alice = User::new("Alice".to_string());
    let mut bob = User::new("Bob".to_string());

    let msg = alice.send_message(&bob.public_info(), "hello").unwrap();
    assert_eq!(msg.sender, "Alice");
    assert_eq!(msg.receiver, "Bob");
    let plain = bob.receive_message(&alice.public_info(), &msg).unwrap();
    assert_eq!(plain, "hello");

    let reply = bob.send_message(&alice.public_info(), "hi").unwrap();
    let plain2 = alice.receive_message(&bob.public_info(), &reply).unwrap();
    assert_eq!(plain2, "hi");
}

#[test]
fn first_envelope_carries_handshake_fields() {
    let mut alice = User::new("Alice".to_string());
    let mut bob = User::new("Bob".to_string());

    let first = alice.send_message(&bob.public_info(), "one").unwrap();
    assert!(first.ek_used.is_some());
    assert!(first.opk_used.is_some());

    let second = alice.send_message(&bob.public_info(), "two").unwrap();
    assert!(second.ek_used.is_none());
    assert!(second.opk_used.is_none());

    assert_eq!(bob.receive_message(&alice.public_info(), &first).unwrap(), "one");
    assert_eq!(bob.receive_message(&alice.public_info(), &second).unwrap(), "two");
}

#[test]
fn outbound_ratchet_rotates_dh_public() {
    let mut alice = User::new("Alice".to_string());
    let mut bob = User::new("Bob".to_string());

    let m1 = alice.send_message(&bob.public_info(), "m1").unwrap();
    assert_eq!(bob.receive_message(&alice.public_info(), &m1).unwrap(), "m1");
    let m2 = bob.send_message(&alice.public_info(), "m2").unwrap();
    assert_eq!(alice.receive_message(&bob.public_info(), &m2).unwrap(), "m2");
    let m3 = alice.send_message(&bob.public_info(), "m3").unwrap();

    // after receiving m2 a fresh outbound DH ratchet step must have replaced
    // Alice's ratchet key pair
    assert_ne!(m3.ratchet_pub, m1.ratchet_pub);
}

#[test]
fn ciphertext_is_plaintext_plus_tag() {
    let mut alice = User::new("Alice".to_string());
    let bob = User::new("Bob".to_string());

    let msg = alice.send_message(&bob.public_info(), "hello").unwrap();
    assert_eq!(msg.ciphertext.len(), "hello".len() + 16);
}

#[test]
fn tampered_ciphertext_bits_fail_authentication() {
    let mut alice = User::new("Alice".to_string());
    let bob = User::new("Bob".to_string());
    let alice_info = alice.public_info();

    let msg = alice.send_message(&bob.public_info(), "attack at dawn").unwrap();

    for byte in 0..msg.ciphertext.len() {
        for bit in 0..8 {
            let mut tampered = msg.clone();
            tampered.ciphertext[byte] ^= 1u8 << bit;
            let mut receiver = bob.clone();
            let out = receiver.receive_message(&alice_info, &tampered);
            assert_eq!(out, Err(ProtocolError::AuthFailure));
        }
    }
}

#[test]
fn tampered_nonce_bits_fail_authentication() {
    let mut alice = User::new("Alice".to_string());
    let bob = User::new("Bob".to_string());
    let alice_info = alice.public_info();

    let msg = alice.send_message(&bob.public_info(), "attack at dawn").unwrap();

    for byte in 0..12 {
        for bit in 0..8 {
            let mut tampered = msg.clone();
            tampered.nonce[byte] ^= 1u8 << bit;
            let mut receiver = bob.clone();
            let out = receiver.receive_message(&alice_info, &tampered);
            assert_eq!(out, Err(ProtocolError::AuthFailure));
        }
    }
}

#[test]
fn tampered_ratchet_pub_never_yields_wrong_plaintext() {
    let mut alice = User::new("Alice".to_string());
    let bob = User::new("Bob".to_string());
    let alice_info = alice.public_info();

    let msg = alice.send_message(&bob.public_info(), "attack at dawn").unwrap();

    for byte in 0..32 {
        let mut tampered = msg.clone();
        tampered.ratchet_pub[byte] ^= 1;
        let mut receiver = bob.clone();
        // a spurious ratchet step derives an unrelated key, so the
        // authentication must fail; a wrong plaintext must never come back
        let out = receiver.receive_message(&alice_info, &tampered);
        assert!(out.is_err());
    }
}

#[test]
fn tampered_message_index_fails() {
    let mut alice = User::new("Alice".to_string());
    let bob = User::new("Bob".to_string());
    let alice_info = alice.public_info();

    let msg = alice.send_message(&bob.public_info(), "attack at dawn").unwrap();

    let mut plus_one = msg.clone();
    plus_one.message_index += 1;
    let mut receiver = bob.clone();
    assert_eq!(receiver.receive_message(&alice_info, &plus_one), Err(ProtocolError::AuthFailure));

    let mut far_ahead = msg.clone();
    far_ahead.message_index = 1500;
    let mut receiver = bob.clone();
    assert_eq!(
        receiver.receive_message(&alice_info, &far_ahead),
        Err(ProtocolError::TooManySkippedMessages)
    );

    let mut max_index = msg.clone();
    max_index.message_index = u32::MAX;
    let mut receiver = bob.clone();
    assert_eq!(
        receiver.receive_message(&alice_info, &max_index),
        Err(ProtocolError::InvalidEnvelope)
    );
}

#[test]
fn corrupted_message_does_not_poison_session() {
    let mut alice = User::new("Alice".to_string());
    let mut bob = User::new("Bob".to_string());
    let alice_info = alice.public_info();

    let msg = alice.send_message(&bob.public_info(), "first").unwrap();
    let mut corrupted = msg.clone();
    corrupted.ciphertext[0] ^= 0x40;
    assert_eq!(bob.receive_message(&alice_info, &corrupted), Err(ProtocolError::AuthFailure));

    // a fresh, correct message from Alice still decrypts
    let next = alice.send_message(&bob.public_info(), "second").unwrap();
    assert_eq!(bob.receive_message(&alice_info, &next).unwrap(), "second");
}

#[test]
fn unknown_one_time_prekey_is_rejected_without_session() {
    let mut alice = User::new("Alice".to_string());
    let mut bob = User::new("Bob".to_string());
    let alice_info = alice.public_info();

    let msg = alice.send_message(&bob.public_info(), "hello").unwrap();
    let mut foreign = msg.clone();
    foreign.opk_used = Some([0xAA; 32]);
    assert_eq!(
        bob.receive_message(&alice_info, &foreign),
        Err(ProtocolError::UnknownOneTimePreKey)
    );

    // no session was created: the untampered first message still decrypts
    assert_eq!(bob.receive_message(&alice_info, &msg).unwrap(), "hello");
}

#[test]
fn one_time_prekey_consumed_exactly_once() {
    let mut alice = User::new("Alice".to_string());
    let mut bob = User::new("Bob".to_string());
    let stale_bob_info = bob.public_info();
    assert_eq!(stale_bob_info.opk.keys.len(), 100);

    let msg = alice.send_message(&stale_bob_info, "hello").unwrap();
    assert_eq!(msg.opk_used, Some(stale_bob_info.opk.keys[0].public));
    assert_eq!(bob.receive_message(&alice.public_info(), &msg).unwrap(), "hello");

    // the pre-key was removed from Bob's pool on consumption
    assert_eq!(bob.public_info().opk.keys.len(), 99);

    // a second handshake referencing the consumed pre-key is rejected
    let mut carol = User::new("Carol".to_string());
    let msg2 = carol.send_message(&stale_bob_info, "hi there").unwrap();
    assert_eq!(msg2.opk_used, Some(stale_bob_info.opk.keys[0].public));
    assert_eq!(
        bob.receive_message(&carol.public_info(), &msg2),
        Err(ProtocolError::UnknownOneTimePreKey)
    );
}

#[test]
fn invalid_prekey_bundle_is_rejected_before_any_dh() {
    let mut alice = User::new("Alice".to_string());
    let bob = User::new("Bob".to_string());

    let mut forged = bob.public_info();
    forged.spk_signature[0] ^= 1;
    assert_eq!(
        alice.send_message(&forged, "hello").unwrap_err(),
        ProtocolError::InvalidPreKeyBundle
    );

    // with the genuine bundle the send goes through
    assert!(alice.send_message(&bob.public_info(), "hello").is_ok());
}

#[test]
fn signature_under_foreign_identity_is_rejected() {
    let mut alice = User::new("Alice".to_string());
    let bob = User::new("Bob".to_string());
    let carol = User::new("Carol".to_string());

    // Bob's bundle advertising Carol's identity verifying key: the signed
    // pre-key no longer verifies under the claimed identity
    let mut forged = bob.public_info();
    forged.ik_sign = carol.public_info().ik_sign;
    assert_eq!(
        alice.send_message(&forged, "hello").unwrap_err(),
        ProtocolError::InvalidPreKeyBundle
    );
}

#[test]
fn three_users_interleaved() {
    let mut alice = User::new("Alice".to_string());
    let mut bob = User::new("Bob".to_string());
    let mut carol = User::new("Carol".to_string());

    let m1 = alice.send_message(&bob.public_info(), "a to b").unwrap();
    let m2 = carol.send_message(&alice.public_info(), "c to a").unwrap();
    let m3 = bob.send_message(&carol.public_info(), "b to c").unwrap();

    assert_eq!(carol.receive_message(&bob.public_info(), &m3).unwrap(), "b to c");
    assert_eq!(alice.receive_message(&carol.public_info(), &m2).unwrap(), "c to a");
    assert_eq!(bob.receive_message(&alice.public_info(), &m1).unwrap(), "a to b");

    let m4 = bob.send_message(&alice.public_info(), "b to a").unwrap();
    assert_eq!(alice.receive_message(&bob.public_info(), &m4).unwrap(), "b to a");
}

#[test]
fn can_send_readiness() {
    let mut alice = User::new("Alice".to_string());
    let mut bob = User::new("Bob".to_string());

    // without a session a send is always possible
    assert!(alice.can_send_to(bob.id));
    let msg = alice.send_message(&bob.public_info(), "hello").unwrap();
    assert!(alice.can_send_to(bob.id));

    // after receiving, the responder can reply
    bob.receive_message(&alice.public_info(), &msg).unwrap();
    assert!(bob.can_send_to(alice.id));
}

#[test]
fn out_of_order_delivery_between_users() {
    let mut alice = User::new("Alice".to_string());
    let mut bob = User::new("Bob".to_string());
    let alice_info = alice.public_info();
    let bob_info = bob.public_info();

    // the session-creating first message must arrive first: only it carries
    // the handshake fields the responder needs
    let hello = alice.send_message(&bob_info, "hello").unwrap();
    assert_eq!(bob.receive_message(&alice_info, &hello).unwrap(), "hello");

    let m1 = alice.send_message(&bob_info, "m1").unwrap();
    let m2 = alice.send_message(&bob_info, "m2").unwrap();
    let m3 = alice.send_message(&bob_info, "m3").unwrap();

    assert_eq!(bob.receive_message(&alice_info, &m3).unwrap(), "m3");
    assert_eq!(bob.receive_message(&alice_info, &m1).unwrap(), "m1");
    assert_eq!(bob.receive_message(&alice_info, &m2).unwrap(), "m2");
}

#[test]
fn verified_first_contact_round_trip() {
    let out = signal_protocol_poc::user::fresh_contact_round_trip(
        "Alice".to_string(),
        "Bob".to_string(),
        "first contact",
    );
    assert_eq!(out.unwrap(), "first contact");
}
