//! The failures this crate can surface to the caller.

use vstd::prelude::*;

verus! {

/// What can go wrong over one interaction with the agent.
///
/// Tool-level trouble is not here: a failing or unknown tool is reflected
/// back to the agent as a structured reply and the conversation goes on.
/// `Tool` is raised only when a failure happens outside an active dispatch,
/// such as registering two tools under one name.
#[derive(Debug, PartialEq)]
pub enum Error {
    /// The underlying transport or the handshake failed.
    Connection(String),
    /// The terminal payload did not match the expected output shape.
    Deserialization(String),
    /// The interaction ended without the agent ever sending a terminal result.
    NoResult,
    /// A tool-related failure outside an active dispatch.
    Tool(String),
    /// The connection closed before the handshake handoff completed.
    ConnectionClosed,
}

} // verus!
