//! Client-side logic for asking a motion-tracking server to recalibrate.
//!
//! The library covers the pure core of a small command-line trigger:
//! encoding a reset command into the server's binary RPC envelope,
//! the decisions of the response-drain loop, the asset-path resolution
//! for the optional audio cue, and the orchestration of one command
//! invocation under an explicit failure policy.  All I/O (the WebSocket
//! session, audio playback, argument parsing) lives outside, in a thin
//! driver that performs the actions this library decides on.

pub mod cue;
pub mod drain;
pub mod kind;
pub mod orchestrator;
pub mod wire;
