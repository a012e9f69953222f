//! Lifecycle coordination for the single-peer relay server.
//!
//! `WsServerState` models the logical state of the server instance: whether a
//! shutdown sender is armed, whether the connection slot holds a peer's write
//! half, whether the acceptor task's handle is stored, and whether a peer is
//! currently connected. The embedding runtime owns the actual sockets, tasks
//! and channels; it drives them exactly as the transitions here decide, and
//! serializes `start`/`stop` under one operation lock so that no two
//! lifecycle transitions interleave.

use vstd::prelude::*;
use vstd::string::StringExecFns;
use crate::endpoint::endpoint_chars;
use crate::endpoint::endpoint_string;
use crate::endpoint::get_local_ip;

verus! {

/// One effect the embedding runtime must perform, in the order returned.
#[derive(Clone, Copy, Debug, PartialEq, Eq, Structural)]
pub enum Action {
    /// Send on the shutdown channel and discard the sender.
    SignalShutdown,
    /// Close the stored write half and clear the connection slot.
    CloseWriteHalf,
    /// Await the acceptor task's completion and clear its handle.
    JoinTask,
    /// Notify the host that the peer connection closed.
    EmitClose,
}

/// Logical state of the relay server instance.
#[derive(Clone, Copy, Debug, PartialEq, Eq, Structural)]
pub struct WsServerState {
    /// A shutdown sender is stored for the running acceptor task.
    pub shutdown_armed: bool,
    /// The connection slot holds the connected peer's write half.
    pub slot_occupied: bool,
    /// The acceptor task's handle is stored, to be joined on stop.
    pub task_running: bool,
    /// A peer connection is currently alive.
    pub has_peer: bool,
}

/// The state with no running server and no peer.
pub open spec fn stopped_state() -> WsServerState {
    WsServerState {
        shutdown_armed: false,
        slot_occupied: false,
        task_running: false,
        has_peer: false,
    }
}

/// The state right after a successful start: acceptor running, no peer yet.
pub open spec fn running_state() -> WsServerState {
    WsServerState {
        shutdown_armed: true,
        slot_occupied: false,
        task_running: true,
        has_peer: false,
    }
}

/// The state after a successful handshake: the peer is present and its write
/// half sits in the connection slot.
pub open spec fn peer_accepted(s: WsServerState) -> WsServerState {
    WsServerState { slot_occupied: true, has_peer: true, ..s }
}

/// The state after the reader observed close or error: the peer is gone and
/// the connection slot is empty, while the server itself keeps running.
pub open spec fn peer_closed(s: WsServerState) -> WsServerState {
    WsServerState { slot_occupied: false, has_peer: false, ..s }
}

/// The retirement effects owed for a given state: signal the acceptor first
/// (so it can observe the signal even while blocked in accept), then close
/// the write half, then join the task so no orphan survives the call.
pub open spec fn retire_actions(s: WsServerState) -> Seq<Action> {
    (if s.shutdown_armed {
        seq![Action::SignalShutdown]
    } else {
        Seq::<Action>::empty()
    }) + (if s.slot_occupied {
        seq![Action::CloseWriteHalf]
    } else {
        Seq::<Action>::empty()
    }) + (if s.task_running {
        seq![Action::JoinTask]
    } else {
        Seq::<Action>::empty()
    })
}

impl WsServerState {
    /// Internal consistency: a stored write half implies a live peer, a live
    /// peer implies a stored acceptor handle, and the shutdown sender is
    /// stored exactly while the acceptor handle is.
    pub open spec fn wf(self) -> bool {
        &&& self.slot_occupied ==> self.has_peer
        &&& self.has_peer ==> self.task_running
        &&& self.shutdown_armed == self.task_running
    }

    /// No server is running and no peer is connected.
    pub open spec fn stopped(self) -> bool {
        self == stopped_state()
    }

    /// A fresh instance: stopped, nothing armed, no peer.
    pub fn new() -> (s: Self)
        ensures
            s == stopped_state(),
    {
        let s = WsServerState {
            shutdown_armed: false,
            slot_occupied: false,
            task_running: false,
            has_peer: false,
        };
        proof {
            assert(s == stopped_state());
        }
        s
    }

    /// Retires the current instance: returns the effects owed, in order, and
    /// moves to the stopped state. A no-op (empty effect list) when nothing
    /// is running — absence of a server is a valid terminal state, never an
    /// error. Used by `stop` and as the mandatory pre-step of every start.
    pub fn stop(&mut self) -> (acts: Vec<Action>)
        ensures
            *final(self) == stopped_state(),
            *final(self) == apply_op(*old(self), LifecycleOp::Stop),
            acts@ == retire_actions(*old(self)),
            old(self).stopped() ==> acts@.len() == 0 && *final(self) == *old(self),
    {
        let mut acts: Vec<Action> = Vec::new();
        if self.shutdown_armed {
            acts.push(Action::SignalShutdown);
        }
        if self.slot_occupied {
            acts.push(Action::CloseWriteHalf);
        }
        if self.task_running {
            acts.push(Action::JoinTask);
        }
        self.shutdown_armed = false;
        self.slot_occupied = false;
        self.task_running = false;
        self.has_peer = false;
        proof {
            assert(acts@ =~= retire_actions(*old(self)));
        }
        acts
    }

    /// Completes a start once listener acquisition has run: on a successful
    /// bind (`bind_outcome` carries the locally bound port), resolves the
    /// machine's local address, arms the shutdown sender and records the
    /// spawned acceptor task, and returns the `host:port` endpoint to
    /// advertise. Any failure leaves the server fully stopped. Must follow a
    /// retirement (`stop`), so a new start always replaces the previous
    /// instance before its listener is bound.
    pub fn start(&mut self, bind_outcome: Result<u16, String>) -> (r: Result<String, String>)
        requires
            old(self).stopped(),
        ensures
            final(self).wf(),
            bind_outcome is Err ==> r is Err && r->Err_0 == bind_outcome->Err_0,
            r is Ok ==> bind_outcome is Ok && *final(self) == running_state(),
            r is Ok ==> (exists|ip: Seq<char>|
                ip.len() > 0 && r->Ok_0@ == endpoint_chars(ip, bind_outcome->Ok_0)),
            r is Err ==> *final(self) == stopped_state(),
            r is Ok ==> *final(self) == apply_op(*old(self), LifecycleOp::Start(true)),
            r is Err ==> *final(self) == apply_op(*old(self), LifecycleOp::Start(false)),
            bind_outcome is Ok && r is Err ==> crate::starts_with(
                r->Err_0@,
                "failed to get local ip: "@,
            ),
    {
        match bind_outcome {
            Err(e) => Err(e),
            Ok(local_port) => {
                match get_local_ip() {
                    Err(e) => Err(e),
                    Ok(ip) => {
                        let bound = endpoint_string(ip.as_str(), local_port);
                        self.shutdown_armed = true;
                        self.task_running = true;
                        proof {
                            assert(ip@.len() > 0 && bound@ == endpoint_chars(ip@, local_port));
                        }
                        Ok(bound)
                    },
                }
            },
        }
    }

    /// Decides a send: when the connection slot is occupied, hands back the
    /// exact bytes to transmit as one binary frame through the stored write
    /// half; otherwise reports the expected "no peer connected" condition.
    /// Independent of lifecycle transitions: reads only the connection slot
    /// and never alters any state.
    pub fn send(&self, data: &Vec<u8>) -> (r: Result<Vec<u8>, String>)
        ensures
            r is Ok <==> self.slot_occupied,
            r is Ok ==> r->Ok_0@ == data@,
            r is Err ==> r->Err_0@ == "no peer connected"@,
    {
        if self.slot_occupied {
            Ok(vstd::slice::slice_to_vec(data.as_slice()))
        } else {
            Err(String::from_str("no peer connected"))
        }
    }
}

/// One serialized lifecycle operation, as ordered by the operation lock.
/// `Start(true)` is a start whose listener and address acquisition succeed;
/// `Start(false)` one where either fails.
#[derive(Clone, Copy, Debug, PartialEq, Eq, Structural)]
pub enum LifecycleOp {
    Start(bool),
    Stop,
}

/// The state a lifecycle operation leaves behind. Every operation first
/// retires the previous instance, so the result never depends on the state
/// it acted on.
pub open spec fn apply_op(s: WsServerState, op: LifecycleOp) -> WsServerState {
    match op {
        LifecycleOp::Stop => stopped_state(),
        LifecycleOp::Start(acquired) => if acquired {
            running_state()
        } else {
            stopped_state()
        },
    }
}

/// The state after a sequence of serialized lifecycle operations.
pub open spec fn apply_ops(s: WsServerState, ops: Seq<LifecycleOp>) -> WsServerState
    decreases ops.len(),
{
    if ops.len() == 0 {
        s
    } else {
        apply_ops(apply_op(s, ops[0]), ops.subrange(1, ops.len() as int))
    }
}

/// Any serialized sequence of `start`/`stop` operations converges: the state
/// it leaves depends only on the operations in their lock order, never on the
/// state it began from. In particular the last operation alone decides.
pub proof fn lemma_lifecycle_convergence(
    s1: WsServerState,
    s2: WsServerState,
    ops: Seq<LifecycleOp>,
)
    requires
        ops.len() > 0,
    ensures
        apply_ops(s1, ops) == apply_ops(s2, ops),
    decreases ops.len(),
{
    assert(apply_op(s1, ops[0]) == apply_op(s2, ops[0]));
    if ops.len() > 1 {
        lemma_lifecycle_convergence(
            apply_op(s1, ops[0]),
            apply_op(s2, ops[0]),
            ops.subrange(1, ops.len() as int),
        );
    }
}

/// Every serialized sequence of lifecycle operations preserves the state
/// invariant; with the single task handle and single connection slot of the
/// model, no two acceptor tasks are ever alive at once.
pub proof fn lemma_lifecycle_wf(s: WsServerState, ops: Seq<LifecycleOp>)
    requires
        s.wf(),
    ensures
        apply_ops(s, ops).wf(),
    decreases ops.len(),
{
    if ops.len() > 0 {
        lemma_lifecycle_wf(apply_op(s, ops[0]), ops.subrange(1, ops.len() as int));
    }
}

/// Two immediate successful starts both succeed and leave exactly the fresh
/// running state — one live acceptor — whatever went before: each start fully
/// retires the previous instance before binding anew.
pub proof fn lemma_restart(s: WsServerState)
    ensures
        apply_op(apply_op(s, LifecycleOp::Start(true)), LifecycleOp::Start(true))
            == running_state(),
        running_state().task_running,
{
}

/// Once the connected peer has disconnected, the connection slot is empty,
/// so a subsequent `send` reports "no peer connected" — whatever the rest of
/// the state was.
pub proof fn lemma_disconnect_blocks_send(s: WsServerState)
    ensures
        !peer_closed(s).slot_occupied,
{
}

/// Stopping an already-stopped server is a no-op: it owes no effect and
/// leaves the state exactly as it was.
pub proof fn lemma_stop_idempotent()
    ensures
        apply_op(stopped_state(), LifecycleOp::Stop) == stopped_state(),
        retire_actions(stopped_state()).len() == 0,
{
}

} // verus!
