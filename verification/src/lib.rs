//! Delegate bounded sub-tasks to a language-model agent while keeping control
//! in deterministic code: compose a prompt from ordered segments, expose
//! native tools the agent may call mid-reasoning, and receive a structured
//! result validated against an expected shape.
//!
//! The wire transport itself is an outside collaborator; this crate holds the
//! conversation logic, one concern per module:
//!
//! - [`json`]: the untyped structured values that cross the wire, and the
//!   shapes they are checked against;
//! - [`tools`]: the registry of named tools the agent may invoke;
//! - [`prompt`]: the builder that assembles ordered segments and the tool
//!   manifest into one outbound request;
//! - [`dispatch`]: the conversation state machine, driven by incoming
//!   events and tool outcomes until a terminal result or a failure;
//! - [`decode`]: the terminal payload held against the expected shape;
//! - [`session`]: what releasing a session must do with its connection;
//! - [`error`]: the failures surfaced to the caller.
//!
//! The host around this crate opens connections, awaits events, runs the
//! native callables and performs the replies; every decision it carries out
//! is made — and proved — here.

pub mod decode;
pub mod dispatch;
pub mod error;
pub mod json;
pub mod prompt;
pub mod session;
pub mod tools;
