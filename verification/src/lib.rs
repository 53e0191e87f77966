//! Core engine of a terminal chat client for a locally reachable
//! language-model server.
//!
//! The crate holds the conversation data model with streaming-append
//! semantics, the input-mode state machine and action dispatch, the
//! decoder for the newline-delimited chunk protocol of the server's
//! streaming responses, and the event application of the orchestrator.
//! Terminal rendering, HTTP transport and file persistence live outside
//! this crate and talk to it through plain values.

pub mod actions;
pub mod config;
pub mod export;
pub mod externs;
pub mod orchestrator;
pub mod protocol;
pub mod session;
pub mod state;
pub mod text;
