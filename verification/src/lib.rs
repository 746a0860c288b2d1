//! Lifecycle state machine for a local peer in a gossip network.
//!
//! The library decides, from a stream of externally observed events, which
//! lifecycle status the local peer is in and which commands the surrounding
//! runtime must execute next. It performs no I/O of its own: events come in,
//! a status update happens, and an ordered list of commands comes out.

pub mod laws;
pub mod run_state;
pub mod time;
