//! Acceptor decisions: the single-peer policy at the listening socket.
//!
//! The acceptor task waits on two event sources at once — incoming TCP
//! connections and the shutdown signal — and consults these decisions for
//! each event. A connection that arrives while a peer is already active is
//! accepted at the transport level and immediately discarded, protecting the
//! single-peer rule without touching the existing connection.

use vstd::prelude::*;
use crate::server::WsServerState;
use crate::server::peer_accepted;

verus! {

/// One event observed by the acceptor task's select loop.
#[derive(Clone, Copy, Debug, PartialEq, Eq, Structural)]
pub enum AcceptorEvent {
    /// A TCP connection attempt arrived.
    Incoming,
    /// The WebSocket upgrade handshake on the new connection succeeded.
    HandshakeOk,
    /// The WebSocket upgrade handshake failed.
    HandshakeFailed,
    /// The shutdown signal was received.
    Shutdown,
    /// The listener itself failed (not a single connection attempt).
    AcceptError,
}

/// What the acceptor task must do next.
#[derive(Clone, Copy, Debug, PartialEq, Eq, Structural)]
pub enum AcceptorDecision {
    /// Discard the just-accepted stream without a handshake; keep looping.
    RejectConnection,
    /// Attempt the WebSocket upgrade handshake on the new stream.
    AttemptHandshake,
    /// Store the write half in the connection slot, notify the host that a
    /// connection was established, and spawn a reader task with the read half.
    PeerAccepted,
    /// Keep looping; the event is absorbed.
    Continue,
    /// Leave the loop; dropping the listener releases the port.
    Exit,
}

impl WsServerState {
    /// Decides the acceptor's reaction to one event. While a peer is active,
    /// any further connection attempt is rejected at the transport level and
    /// the state — including the existing connection — is left untouched.
    /// Only a successful handshake changes the state: it marks the peer
    /// present and the connection slot occupied.
    pub fn acceptor_event(&mut self, ev: AcceptorEvent) -> (d: AcceptorDecision)
        requires
            ev is HandshakeOk ==> !old(self).has_peer && old(self).task_running,
        ensures
            ev is Incoming && old(self).has_peer ==> d is RejectConnection,
            ev is Incoming && !old(self).has_peer ==> d is AttemptHandshake,
            ev is HandshakeOk ==> d is PeerAccepted && *final(self) == peer_accepted(
                *old(self),
            ),
            ev is HandshakeFailed ==> d is Continue,
            ev is Shutdown ==> d is Exit,
            ev is AcceptError ==> d is Exit,
            !(ev is HandshakeOk) ==> *final(self) == *old(self),
            old(self).wf() ==> final(self).wf(),
    {
        match ev {
            AcceptorEvent::Incoming => {
                if self.has_peer {
                    AcceptorDecision::RejectConnection
                } else {
                    AcceptorDecision::AttemptHandshake
                }
            },
            AcceptorEvent::HandshakeOk => {
                self.has_peer = true;
                self.slot_occupied = true;
                AcceptorDecision::PeerAccepted
            },
            AcceptorEvent::HandshakeFailed => AcceptorDecision::Continue,
            AcceptorEvent::Shutdown => AcceptorDecision::Exit,
            AcceptorEvent::AcceptError => AcceptorDecision::Exit,
        }
    }
}

} // verus!
