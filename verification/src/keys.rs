//! Typed key-material objects. Each key kind is a distinct nominal type, not
//! a raw byte array, so that one kind cannot be handed where another was
//! required. Private scalars are reachable only through a method named as
//! exposing sensitive material.

pub mod chain_key;
pub mod encrypted_message;
pub mod ephemeral_key;
pub mod identity;
pub mod message_key;
pub mod one_time_prekey;
pub mod ratchet_key;
pub mod root_key;
pub mod session_key;
pub mod signed_prekey;
