//! Core of a one-shot control-plane client: it forwards a command (a sequence
//! of string arguments) to a compositor-side command service over a display
//! protocol connection and reports the single resulting success or failure.
//!
//! This crate holds the verified logic: command-line flag interpretation, the
//! global-registry lookup with exact version binding, the construction of the
//! outgoing request sequence, the interpretation of the single response event,
//! and the session state machine that ties the steps together.  The transport
//! itself (socket connection, message serialization, blocking roundtrips) is
//! an unverified collaborator that drives the state machine from outside.

pub mod args;
pub mod protocol;
pub mod registry;
pub mod report;
pub mod session;
pub mod text;
