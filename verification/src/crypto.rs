//! Primitive adapter: thin semantic wrappers around X25519 Diffie-Hellman,
//! Ed25519 signing, HKDF-SHA256 expansion, HMAC-SHA256 and ChaCha20-Poly1305.
//!
//! Each primitive's output is modelled by an uninterpreted spec function of
//! its inputs; the wrappers are the only trusted items of the crate, and the
//! rest of the library is verified against the contracts stated here.

use chacha20poly1305::aead::Aead;
use chacha20poly1305::aead::KeyInit;
use ed25519_dalek::Signer;
use ed25519_dalek::Verifier;
use hkdf::hmac::Mac;
use rand_core::RngCore;
use vstd::prelude::*;

verus! {

/// Greatest plaintext length the AEAD wrapper accepts; far below the
/// ChaCha20-Poly1305 limit of roughly 2^38 bytes, so sealing cannot fail.
pub const MAX_PLAINTEXT_LEN: usize = 0x1000_0000;

/// The X25519 public key derived from a private scalar (scalar-by-basepoint
/// multiplication, with the clamping that x25519 applies to every scalar).
pub uninterp spec fn x25519_public_of(scalar: Seq<u8>) -> Seq<u8>;

/// The X25519 shared secret: the (clamped) scalar multiplied into the point.
pub uninterp spec fn x25519_shared_of(scalar: Seq<u8>, point: Seq<u8>) -> Seq<u8>;

/// The Ed25519 verifying key derived from a 32-byte seed.
pub uninterp spec fn ed25519_public_of(seed: Seq<u8>) -> Seq<u8>;

/// The Ed25519 signature of `msg` under the key expanded from `seed`
/// (RFC 8032 signing is deterministic).
pub uninterp spec fn ed25519_sign_of(seed: Seq<u8>, msg: Seq<u8>) -> Seq<u8>;

/// Whether `sig` is a valid Ed25519 signature of `msg` under the public key
/// `pk` (false as well when `pk` or `sig` does not parse).
pub uninterp spec fn ed25519_verifies(pk: Seq<u8>, msg: Seq<u8>, sig: Seq<u8>) -> bool;

/// The 32-byte HKDF-SHA256 output for the given salt, input key material and
/// info string.
pub uninterp spec fn hkdf_expand_of(salt: Option<Seq<u8>>, ikm: Seq<u8>, info: Seq<u8>) -> Seq<u8>;

/// The HMAC-SHA256 tag of `msg` under `key`.
pub uninterp spec fn hmac_of(key: Seq<u8>, msg: Seq<u8>) -> Seq<u8>;

/// The ChaCha20-Poly1305 ciphertext (tag appended) of `pt` under `key` and
/// `nonce`, with empty associated data.
pub uninterp spec fn aead_seal_of(key: Seq<u8>, nonce: Seq<u8>, pt: Seq<u8>) -> Seq<u8>;

/// The result of opening `ct` under `key` and `nonce`: the plaintext when the
/// tag verifies, `None` otherwise.
pub uninterp spec fn aead_open_of(key: Seq<u8>, nonce: Seq<u8>, ct: Seq<u8>) -> Option<Seq<u8>>;

/// Relies on x25519_dalek::StaticSecret::random_from_rng and
/// x25519_dalek::PublicKey::from: a fresh random scalar together with its
/// public key. Nothing is promised of the scalar itself (it is random); the
/// public component is a function of it.
#[verifier::external_body]
pub(crate) fn x25519_keypair() -> (r: ([u8; 32], [u8; 32]))
    ensures
        r.1@ == x25519_public_of(r.0@),
{
    let secret = x25519_dalek::StaticSecret::random_from_rng(&mut rand_core::OsRng);
    let public = x25519_dalek::PublicKey::from(&secret);
    (secret.to_bytes(), *public.as_bytes())
}

/// Relies on x25519_dalek::StaticSecret::diffie_hellman: the shared secret is
/// a function of the scalar and the point, and the exchange commutes — when
/// the peer's point is the public key of some scalar `s`, the peer computing
/// with `s` against our public key obtains the same 32 bytes (RFC 7748).
#[verifier::external_body]
pub(crate) fn x25519_dh(scalar: &[u8; 32], point: &[u8; 32]) -> (r: [u8; 32])
    ensures
        r@ == x25519_shared_of(scalar@, point@),
        forall|s: Seq<u8>|
            point@ == #[trigger] x25519_public_of(s) ==> r@ == x25519_shared_of(
                s,
                x25519_public_of(scalar@),
            ),
{
    let sk = x25519_dalek::StaticSecret::from(*scalar);
    let pk = x25519_dalek::PublicKey::from(*point);
    *sk.diffie_hellman(&pk).as_bytes()
}

/// Relies on rand_core::OsRng::fill_bytes and
/// ed25519_dalek::SigningKey::from_bytes / verifying_key: a fresh random seed
/// together with its Ed25519 verifying key.
#[verifier::external_body]
pub(crate) fn ed25519_keypair() -> (r: ([u8; 32], [u8; 32]))
    ensures
        r.1@ == ed25519_public_of(r.0@),
{
    let mut seed = [0u8; 32];
    rand_core::OsRng.fill_bytes(&mut seed);
    let sk = ed25519_dalek::SigningKey::from_bytes(&seed);
    (seed, sk.verifying_key().to_bytes())
}

/// Relies on ed25519_dalek::SigningKey::sign: RFC 8032 signing is
/// deterministic in the seed and the message, and the produced signature
/// verifies under the seed's verifying key.
#[verifier::external_body]
pub(crate) fn ed25519_sign(seed: &[u8; 32], msg: &[u8]) -> (r: [u8; 64])
    ensures
        r@ == ed25519_sign_of(seed@, msg@),
        ed25519_verifies(ed25519_public_of(seed@), msg@, r@),
{
    let sk = ed25519_dalek::SigningKey::from_bytes(seed);
    sk.sign(msg).to_bytes()
}

/// Relies on ed25519_dalek::VerifyingKey::verify (and the parsers
/// VerifyingKey::from_bytes and Signature::from_slice): verification is a
/// deterministic predicate of the key, message and signature bytes.
#[verifier::external_body]
pub(crate) fn ed25519_verify(pk: &[u8; 32], msg: &[u8], sig: &[u8]) -> (r: bool)
    ensures
        r == ed25519_verifies(pk@, msg@, sig@),
{
    match (
        ed25519_dalek::VerifyingKey::from_bytes(pk),
        ed25519_dalek::Signature::from_slice(sig),
    ) {
        (Ok(vk), Ok(s)) => vk.verify(msg, &s).is_ok(),
        _ => false,
    }
}

/// Relies on hkdf::Hkdf::<Sha256>::new and expand: the 32-byte output is a
/// function of the salt, the input key material and the info string; a
/// 32-byte output never exceeds the HKDF length limit, so expand succeeds.
#[verifier::external_body]
pub(crate) fn hkdf_expand32(salt: Option<&[u8; 32]>, ikm: &[u8], info: &[u8]) -> (r: [u8; 32])
    ensures
        salt matches Some(s) ==> r@ == hkdf_expand_of(Some(s@), ikm@, info@),
        salt is None ==> r@ == hkdf_expand_of(None, ikm@, info@),
{
    let hk = hkdf::Hkdf::<sha2::Sha256>::new(salt.map(|s| &s[..]), ikm);
    let mut okm = [0u8; 32];
    hk.expand(info, &mut okm).unwrap();
    okm
}

/// Relies on hkdf::hmac::Hmac::<Sha256> (new_from_slice, update, finalize):
/// the tag is a function of the key and the message; HMAC accepts a 32-byte
/// key, so construction cannot fail.
#[verifier::external_body]
pub(crate) fn hmac_sha256(key: &[u8; 32], msg: &[u8]) -> (r: [u8; 32])
    ensures
        r@ == hmac_of(key@, msg@),
{
    let mut mac = <hkdf::hmac::Hmac<sha2::Sha256> as hkdf::hmac::Mac>::new_from_slice(key).unwrap();
    mac.update(msg);
    mac.finalize().into_bytes().into()
}

/// Relies on chacha20poly1305::ChaCha20Poly1305::encrypt with empty
/// associated data: the ciphertext is a function of key, nonce and plaintext,
/// is 16 bytes (one Poly1305 tag) longer than the plaintext, and decrypting
/// it with the same key and nonce returns the plaintext (RFC 8439).
#[verifier::external_body]
pub(crate) fn aead_seal(key: &[u8; 32], nonce: &[u8; 12], pt: &[u8]) -> (r: Vec<u8>)
    requires
        pt@.len() <= MAX_PLAINTEXT_LEN,
    ensures
        r@ == aead_seal_of(key@, nonce@, pt@),
        r@.len() == pt@.len() + 16,
        aead_open_of(key@, nonce@, r@) == Some(pt@),
{
    let cipher = chacha20poly1305::ChaCha20Poly1305::new(key.into());
    cipher.encrypt(chacha20poly1305::Nonce::from_slice(nonce), pt).unwrap()
}

/// Relies on chacha20poly1305::ChaCha20Poly1305::decrypt with empty
/// associated data: opening is a deterministic function of key, nonce and
/// ciphertext, and returns `None` exactly when the tag does not verify.
#[verifier::external_body]
pub(crate) fn aead_open(key: &[u8; 32], nonce: &[u8; 12], ct: &[u8]) -> (r: Option<Vec<u8>>)
    ensures
        r is Some <==> aead_open_of(key@, nonce@, ct@) is Some,
        r matches Some(p) ==> aead_open_of(key@, nonce@, ct@) == Some(p@),
{
    let cipher = chacha20poly1305::ChaCha20Poly1305::new(key.into());
    cipher.decrypt(chacha20poly1305::Nonce::from_slice(nonce), ct).ok()
}

/// Relies on rand_core::OsRng::fill_bytes: a fresh 12-byte nonce, drawn from
/// the platform's cryptographic RNG on every encryption. Nothing is promised
/// of its value.
#[verifier::external_body]
pub(crate) fn random_nonce() -> (r: [u8; 12]) {
    let mut nonce = [0u8; 12];
    rand_core::OsRng.fill_bytes(&mut nonce);
    nonce
}

/// Relies on uuid::Uuid::new_v4: a fresh random identifier, returned as its
/// 128-bit value. Nothing is promised of it.
#[verifier::external_body]
pub(crate) fn fresh_uuid() -> (r: u128) {
    uuid::Uuid::new_v4().as_u128()
}

/// Relies on chrono::Utc::now: the current time as Unix seconds. Nothing is
/// promised of it.
#[verifier::external_body]
pub(crate) fn unix_time_now() -> (r: i64) {
    chrono::Utc::now().timestamp()
}

/// Relies on alloc's String::from_utf8: succeeds exactly on valid UTF-8 and
/// returns the decoded characters.
#[verifier::external_body]
pub(crate) fn bytes_to_string(v: Vec<u8>) -> (r: Option<String>)
    ensures
        r is Some <==> vstd::utf8::valid_utf8(v@),
        r matches Some(s) ==> s@ == vstd::utf8::decode_utf8(v@),
{
    String::from_utf8(v).ok()
}

} // verus!
