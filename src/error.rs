//! The outcomes, other than success, that the channel reports.
use vstd::prelude::*;

verus! {

/// Why an operation on a session did not succeed.
#[derive(Debug, Clone, Copy, PartialEq, Eq, Structural)]
pub enum SessionError {
    /// The peer's public key encoding is not a valid curve point.
    InvalidPeerKey,
    /// Key agreement has not completed on this session yet.
    SessionNotReady,
    /// Key agreement has already completed on this session.
    AlreadyInitialized,
    /// The input is shorter than a tag.
    MalformedCiphertext,
    /// The recomputed tag differs from the one carried by the input.
    MacMismatch,
}

} // verus!
