//! Error taxonomy for the session manager. Every fallible operation returns
//! one of these kinds; no operation panics or aborts the process.

use vstd::prelude::*;

verus! {

/// The kind of failure a session operation can report.
#[derive(Clone, Copy, Debug, PartialEq, Eq, Structural)]
pub enum ErrorKind {
    /// The wire bytes could not be decoded at all.
    DecodeFailure,
    /// The wire object decoded, but is not the type the operation expects.
    UnexpectedMessageType,
    /// A well-formed object failed protocol-level validation.
    ValidationFailure,
    /// The underlying crypto engine failed (key generation, signing,
    /// encryption).
    CryptoFailure,
    /// A commit could not be constructed or merged.
    CommitFailure,
    /// A group could not be joined from a welcome or group-info object.
    JoinFailure,
    /// An inbound message could not be processed or its staged commit could
    /// not be merged.
    ProcessingFailure,
    /// A lookup by identifier or key found nothing in the store.
    NotFound,
    /// The operation was attempted against a session whose state does not
    /// admit it (a departed session, or an exhausted epoch counter).
    StateConflict,
}

impl ErrorKind {
    /// A short diagnostic name for the kind, for callers that log failures.
    pub fn name(&self) -> (r: String)
        ensures
            r@.len() > 0,
    {
        proof {
            reveal_strlit("decode failure");
            reveal_strlit("unexpected message type");
            reveal_strlit("validation failure");
            reveal_strlit("crypto failure");
            reveal_strlit("commit failure");
            reveal_strlit("join failure");
            reveal_strlit("processing failure");
            reveal_strlit("not found");
            reveal_strlit("state conflict");
        }
        match self {
            ErrorKind::DecodeFailure => String::from_str("decode failure"),
            ErrorKind::UnexpectedMessageType => String::from_str("unexpected message type"),
            ErrorKind::ValidationFailure => String::from_str("validation failure"),
            ErrorKind::CryptoFailure => String::from_str("crypto failure"),
            ErrorKind::CommitFailure => String::from_str("commit failure"),
            ErrorKind::JoinFailure => String::from_str("join failure"),
            ErrorKind::ProcessingFailure => String::from_str("processing failure"),
            ErrorKind::NotFound => String::from_str("not found"),
            ErrorKind::StateConflict => String::from_str("state conflict"),
        }
    }
}

} // verus!
