//! Single-peer WebSocket relay: verified lifecycle and concurrency core.
//!
//! The relay listens on a TCP port, accepts exactly one peer connection at a
//! time, forwards inbound frames to the host, and lets the host push binary
//! frames to the connected peer. This crate holds the decision logic of that
//! server — lifecycle transitions, the single-peer policy, frame-size
//! enforcement, bind retry, and the transport encoding — as verified
//! functions. An embedding runtime performs the socket and task work that the
//! decisions call for.

use vstd::prelude::*;

pub mod acceptor;
pub mod bind;
pub mod endpoint;
pub mod reader;
pub mod server;
pub mod transport;

verus! {

/// Maximum inbound frame size in bytes; larger frames are dropped.
pub const MAX_MESSAGE_SIZE: usize = 65536;

/// Whether the text `s` begins with `prefix`.
pub open spec fn starts_with(s: Seq<char>, prefix: Seq<char>) -> bool {
    s.len() >= prefix.len() && s.subrange(0, prefix.len() as int) == prefix
}

} // verus!
