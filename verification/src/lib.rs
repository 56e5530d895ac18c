//! Server side of HTTP/1.1 over Iroh connections: the rules that decide which
//! connections and request streams are served, and how serving ends.
//!
//! Everything here is a decision on plain values. The sockets, timers and tasks
//! that feed the decisions stay with the caller, which holds the shared state
//! behind a lock and performs the actions that come back.

pub mod accept;
pub mod barrier;
pub mod base32;
pub mod bindings;
pub mod calls;
pub mod connection;
pub mod drain;
pub mod error;
pub mod identity;
pub mod laws;
pub mod lifecycle;
pub mod options;
pub mod server;
pub mod state;
pub mod text;
pub mod time;
