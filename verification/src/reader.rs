//! Reader decisions: one task per connection, consuming inbound frames.
//!
//! The reader consumes the peer's frames in order until the connection
//! closes. Binary and text frames within the size limit are forwarded to the
//! host, transport-encoded; oversized frames are silently dropped without
//! ending the connection; a close frame or a read error terminates the loop.
//! Termination runs a single cleanup that clears the peer state and notifies
//! the host exactly once that the connection closed.

use vstd::prelude::*;
use crate::MAX_MESSAGE_SIZE;
use crate::server::Action;
use crate::server::WsServerState;
use crate::server::peer_closed;
use crate::transport::b64_of;
use crate::transport::encode_payload;

verus! {

/// The message event handed to the host for one forwarded frame.
#[derive(Clone, Debug)]
pub struct WsMessagePayload {
    /// The frame's bytes in the transport-safe text encoding.
    pub data: String,
}

/// One observation of the reader task: a frame, a failure, or the stream end.
#[derive(Clone, Debug)]
pub enum ReaderEvent {
    /// A binary frame carrying these bytes.
    BinaryFrame(Vec<u8>),
    /// A text frame; the payload is its UTF-8 bytes.
    TextFrame(Vec<u8>),
    /// A close frame from the peer.
    CloseFrame,
    /// Any other frame kind (control traffic such as ping or pong).
    OtherFrame,
    /// Reading the next frame failed.
    ReadError,
    /// The frame stream ended.
    StreamEnd,
}

/// What the reader task must do with one observation.
#[derive(Clone, Debug)]
pub enum ReaderStep {
    /// Hand this message event to the host; keep reading.
    Forward(WsMessagePayload),
    /// Drop the oversized frame silently; keep reading.
    DropOversized,
    /// Leave the loop and run the connection cleanup.
    Terminate,
    /// Absorb the frame; keep reading.
    Ignore,
}

/// Decides the reader's reaction to one observation. A binary or text frame
/// within the size limit is forwarded with its payload transport-encoded,
/// byte-exactly; an oversized frame is dropped and the connection stays
/// open; close and errors terminate; anything else is ignored.
pub fn reader_step(ev: ReaderEvent) -> (s: ReaderStep)
    ensures
        ev matches ReaderEvent::BinaryFrame(d) ==> (if d@.len() <= MAX_MESSAGE_SIZE {
            s matches ReaderStep::Forward(p) && p.data@ == b64_of(d@)
        } else {
            s is DropOversized
        }),
        ev matches ReaderEvent::TextFrame(d) ==> (if d@.len() <= MAX_MESSAGE_SIZE {
            s matches ReaderStep::Forward(p) && p.data@ == b64_of(d@)
        } else {
            s is DropOversized
        }),
        ev is CloseFrame || ev is ReadError || ev is StreamEnd ==> s is Terminate,
        ev is OtherFrame ==> s is Ignore,
{
    match ev {
        ReaderEvent::BinaryFrame(data) => {
            if data.len() > MAX_MESSAGE_SIZE {
                ReaderStep::DropOversized
            } else {
                ReaderStep::Forward(WsMessagePayload { data: encode_payload(&data) })
            }
        },
        ReaderEvent::TextFrame(data) => {
            if data.len() > MAX_MESSAGE_SIZE {
                ReaderStep::DropOversized
            } else {
                ReaderStep::Forward(WsMessagePayload { data: encode_payload(&data) })
            }
        },
        ReaderEvent::CloseFrame => ReaderStep::Terminate,
        ReaderEvent::ReadError => ReaderStep::Terminate,
        ReaderEvent::StreamEnd => ReaderStep::Terminate,
        ReaderEvent::OtherFrame => ReaderStep::Ignore,
    }
}

impl WsServerState {
    /// The reader's single cleanup, run exactly once when its loop ends for
    /// any reason: the peer is gone, the connection slot is cleared, and the
    /// host is notified of the close exactly once. The server itself keeps
    /// running; this is the only path besides retirement that empties the
    /// connection slot.
    pub fn reader_finished(&mut self) -> (acts: Vec<Action>)
        ensures
            *final(self) == peer_closed(*old(self)),
            acts@ == seq![Action::EmitClose],
            old(self).wf() ==> final(self).wf(),
    {
        self.has_peer = false;
        self.slot_occupied = false;
        let mut acts: Vec<Action> = Vec::new();
        acts.push(Action::EmitClose);
        proof {
            assert(acts@ =~= seq![Action::EmitClose]);
        }
        acts
    }
}

} // verus!
