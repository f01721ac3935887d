//! Core logic of a single-purpose SSH gateway: every connection is forced
//! into one preconfigured interactive program attached to a pseudo-terminal,
//! and every other SSH capability (command execution, subsystems, any kind of
//! forwarding) is explicitly denied.
//!
//! The crate holds the decision logic only. The SSH protocol engine, the
//! operating-system PTY, and all network and process I/O live outside; they
//! drive the state machines defined here with plain events and carry out the
//! actions these return.

pub mod config;
pub mod dims;
pub mod forward;
pub mod laws;
pub mod policy;
pub mod protocol;
pub mod server;
pub mod session;
pub mod supervisor;
