//! The one error type the engine surfaces to its callers.
//!
//! `NotFound` is a client-facing lookup failure; `InvalidTurnType` marks a
//! programmer-invariant violation; `TransportError` and `DecodeError` describe
//! one failed upstream attempt and are recovered by the retry loop; only
//! `ExhaustedRetries` escapes that loop.

use vstd::prelude::*;

verus! {

/// Error taxonomy of the conversation engine.
#[derive(Clone, Copy, Debug, PartialEq, Eq, Structural)]
pub enum AppError {
    /// The session id names no live session.
    NotFound,
    /// A caller-submitted turn was not tagged as a user turn.
    InvalidTurnType,
    /// One completion attempt failed to reach the upstream endpoint.
    TransportError,
    /// One completion attempt returned a payload that is not a usable reply.
    DecodeError,
    /// Every attempt in the retry budget failed.
    ExhaustedRetries,
}

impl AppError {
    /// True for the two per-attempt upstream failures that the retry loop
    /// treats as recoverable; false for the terminal errors.
    pub fn is_recoverable(&self) -> (r: bool)
        ensures
            r == (*self is TransportError || *self is DecodeError),
    {
        match self {
            AppError::TransportError => true,
            AppError::DecodeError => true,
            _ => false,
        }
    }
}

} // verus!
