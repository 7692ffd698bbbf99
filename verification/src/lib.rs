//! Git repository access over SSH: the verified core.
//!
//! The library holds the protocol and policy logic of a small Git-over-SSH
//! server: the authentication gate, the exec-command router, the repository
//! path resolver, and the pkt-line relay state machine that tracks Git's
//! length-prefixed framing while bytes are forwarded to the client.
//! Transport, subprocess and environment I/O live outside the library and
//! hand it plain values.

pub mod auth;
pub mod command;
pub mod config;
pub mod handler;
pub mod pktline;
pub mod relay;
pub mod report;
pub mod resolve;
pub mod text;
