//! What can go wrong in a poll cycle or while an item is delivered.

use vstd::prelude::*;

verus! {

/// How a request failed before any response arrived.
#[derive(Debug, Clone, Copy, PartialEq, Eq, Structural)]
pub enum TransportKind {
    ConnectionReset,
    Timeout,
    Other,
}

/// A failure of the pipeline.
#[derive(Debug, Clone, Copy, PartialEq, Eq, Structural)]
pub enum PollError {
    /// The request did not complete.
    Transport(TransportKind),
    /// A body could not be decoded.
    Parse,
    /// The server answered with a status the pipeline has no meaning for.
    UnrecognizedStatus(u16),
    /// A blocking storage operation could not be dispatched.
    Scheduling,
    /// The store of recorded review requests failed.
    Storage,
}

impl PollError {
    /// Transport failures and unrecognized statuses are worth another
    /// attempt; a body that does not decode will not decode next time either.
    pub open spec fn retryable(self) -> bool {
        self is Transport || self is UnrecognizedStatus
    }

    /// Whether a failed cycle should be attempted again.
    pub fn is_retryable(&self) -> (r: bool)
        ensures
            r == self.retryable(),
    {
        match self {
            PollError::Transport(_) => true,
            PollError::UnrecognizedStatus(_) => true,
            PollError::Parse => false,
            PollError::Scheduling => false,
            PollError::Storage => false,
        }
    }

    /// Whether the failure is a connection that closed before the response
    /// was complete, which is routine and logged quietly.
    pub fn is_http_incomplete(&self) -> (r: bool)
        ensures
            r == (*self == PollError::Transport(TransportKind::ConnectionReset)),
    {
        match self {
            PollError::Transport(TransportKind::ConnectionReset) => true,
            _ => false,
        }
    }
}

} // verus!
