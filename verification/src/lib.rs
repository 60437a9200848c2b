//! Verified core of a command-line client that drives a running text editor
//! over its RPC control socket.
//!
//! The crate verifies the protocol logic only: classifying incoming
//! notifications ([`router`]), queueing domain events between the dispatch
//! loop and the foreground thread ([`bridge`]), building the remote command
//! text ([`commands`]), and the orchestration state machine that decides,
//! step by step, which remote operation to perform next ([`driver`]).
//! The actual socket transport, argument parsing and logging live outside
//! the verified library.

pub mod bridge;
pub mod commands;
pub mod driver;
pub mod router;
