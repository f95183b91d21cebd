//! The error taxonomy.  All three engine-independent failures propagate to
//! the immediate caller uninterpreted: this layer performs no retry and no
//! partial-failure recovery.

use vstd::prelude::*;

verus! {

/// Why a socket or stream operation failed.
#[derive(Debug, Clone, PartialEq, Eq)]
pub enum Error {
    /// An operation received an address variant it cannot handle; always a
    /// caller/protocol-logic error, never retried internally.
    ErrAddrType,
    /// The producer side of an event bridge or the underlying channel has
    /// been torn down.
    ErrChannelClosed,
    /// An operation was invoked in a signaling state that does not admit it
    /// (for example a second `start` on the same socket).
    ErrInvalidState,
    /// A failure reported by the underlying engine, carried as its message.
    WebrtcError(String),
}

/// The short description `Error::message` returns for each variant.
pub open spec fn spec_message(e: Error) -> Seq<char> {
    match e {
        Error::ErrAddrType => "address kind mismatch"@,
        Error::ErrChannelClosed => "channel closed"@,
        Error::ErrInvalidState => "invalid signaling state"@,
        Error::WebrtcError(_) => "engine error"@,
    }
}

impl Error {
    /// A short description of the error, for callers that log or wrap it.
    pub fn message(&self) -> (m: &'static str)
        ensures
            m@ == spec_message(*self),
    {
        match self {
            Error::ErrAddrType => "address kind mismatch",
            Error::ErrChannelClosed => "channel closed",
            Error::ErrInvalidState => "invalid signaling state",
            Error::WebrtcError(_) => "engine error",
        }
    }
}

} // verus!
