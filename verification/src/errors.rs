//! Error kinds surfaced by the protocol core. Every error is reported to the
//! caller of `send_message` / `receive_message`; nothing is retried silently.

use vstd::prelude::*;

verus! {

/// Failure modes of the protocol core.
#[derive(Clone, Copy, Debug, PartialEq, Eq, Structural)]
pub enum ProtocolError {
    /// The signed pre-key's signature does not verify under the advertised
    /// identity key; no DH is performed.
    InvalidPreKeyBundle,
    /// The envelope references a one-time pre-key public that is not in the
    /// local pool (already consumed, or foreign).
    UnknownOneTimePreKey,
    /// The AEAD tag did not verify: the ciphertext is garbage or the session
    /// state is desynchronised.
    AuthFailure,
    /// The skipped-key buffer bound or the per-epoch skip distance bound
    /// would be exceeded.
    TooManySkippedMessages,
    /// A field of the envelope is out of the range any sender can produce.
    InvalidEnvelope,
}

} // verus!
