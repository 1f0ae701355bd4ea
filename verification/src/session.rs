//! Session lifecycle decisions.
//!
//! A session either opened its own connection — in which case a background
//! worker keeps the transport alive and must be aborted exactly once when
//! the session is released — or borrows a connection supplied by the
//! caller, whose lifetime is none of this crate's business. The decision of
//! what release must do lives here; carrying the abort out is the owner
//! loop's job.

use vstd::prelude::*;

verus! {

/// How a session came to hold its connection.
#[derive(Debug, Clone, Copy, PartialEq, Eq, Structural)]
pub enum SessionOrigin {
    /// The session opened the connection itself and runs a background
    /// worker to keep the transport alive.
    Created,
    /// The connection was supplied by the caller, who manages its
    /// lifetime.
    Borrowed,
}

/// What release of a session must do with its background worker.
#[derive(Debug, Clone, Copy, PartialEq, Eq, Structural)]
pub enum ReleaseAction {
    /// Abort the worker at once; best effort, no waiting for a graceful
    /// shutdown.
    AbortWorker,
    /// Touch nothing: the caller owns the connection.
    LeaveToOwner,
}

/// Releasing a created session always aborts its worker; releasing a
/// borrowed one never cancels the caller's connection.
pub fn release_action(origin: SessionOrigin) -> (r: ReleaseAction)
    ensures
        r == (if origin is Created {
            ReleaseAction::AbortWorker
        } else {
            ReleaseAction::LeaveToOwner
        }),
{
    match origin {
        SessionOrigin::Created => ReleaseAction::AbortWorker,
        SessionOrigin::Borrowed => ReleaseAction::LeaveToOwner,
    }
}

} // verus!
