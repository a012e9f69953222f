use ws_relay::server::Action;
use ws_relay::server::WsServerState;

fn running() -> WsServerState {
    WsServerState {
        shutdown_armed: true,
        slot_occupied: false,
        task_running: true,
        has_peer: false,
    }
}

fn connected() -> WsServerState {
    WsServerState {
        shutdown_armed: true,
        slot_occupied: true,
        task_running: true,
        has_peer: true,
    }
}

#[test]
fn new_state_is_stopped() {
    let s = WsServerState::new();
    assert!(!s.shutdown_armed);
    assert!(!s.slot_occupied);
    assert!(!s.task_running);
    assert!(!s.has_peer);
}

#[test]
fn stop_on_stopped_server_has_no_effect() {
    let mut s = WsServerState::new();
    let acts = s.stop();
    assert!(acts.is_empty());
    assert_eq!(s, WsServerState::new());
    let acts_again = s.stop();
    assert!(acts_again.is_empty());
}

#[test]
fn stop_on_running_server_signals_then_joins() {
    let mut s = running();
    let acts = s.stop();
    assert_eq!(acts, vec![Action::SignalShutdown, Action::JoinTask]);
    assert_eq!(s, WsServerState::new());
}

#[test]
fn stop_with_connected_peer_signals_closes_then_joins() {
    let mut s = connected();
    let acts = s.stop();
    assert_eq!(
        acts,
        vec![Action::SignalShutdown, Action::CloseWriteHalf, Action::JoinTask]
    );
    assert_eq!(s, WsServerState::new());
}

#[test]
fn start_after_stop_arms_and_reports_endpoint() {
    let mut s = WsServerState::new();
    let r = s.start(Ok(8080));
    match r {
        Ok(endpoint) => {
            assert!(endpoint.ends_with(":8080"));
            let host = &endpoint[..endpoint.len() - ":8080".len()];
            assert!(!host.is_empty());
            assert!(s.shutdown_armed);
            assert!(s.task_running);
            assert!(!s.slot_occupied);
            assert!(!s.has_peer);
        }
        Err(e) => {
            // The machine's local address could not be resolved; the server
            // must then be left fully stopped.
            assert!(!e.is_empty());
            assert_eq!(s, WsServerState::new());
        }
    }
}

#[test]
fn start_twice_in_a_row_leaves_one_running_instance() {
    let mut s = WsServerState::new();
    let first = s.start(Ok(9001));
    if first.is_err() {
        // No resolvable local address on this machine; nothing more to observe.
        return;
    }
    // A second start on the same port first retires the previous instance...
    let acts = s.stop();
    assert_eq!(acts, vec![Action::SignalShutdown, Action::JoinTask]);
    // ...and only then binds and arms the replacement.
    let second = s.start(Ok(9001));
    assert!(second.is_ok());
    assert!(s.shutdown_armed && s.task_running);
    assert!(!s.slot_occupied && !s.has_peer);
}

#[test]
fn failed_bind_surfaces_last_error_and_leaves_stopped_state() {
    let mut s = WsServerState::new();
    let r = s.start(Err(String::from("failed to bind: address in use")));
    assert_eq!(r, Err(String::from("failed to bind: address in use")));
    assert_eq!(s, WsServerState::new());
}

#[test]
fn send_with_no_peer_reports_no_peer_connected() {
    let s = WsServerState::new();
    let r = s.send(&vec![1u8, 2, 3]);
    assert_eq!(r, Err(String::from("no peer connected")));
    // The running-but-unconnected server reports the same condition.
    let r2 = running().send(&vec![9u8]);
    assert_eq!(r2, Err(String::from("no peer connected")));
}

#[test]
fn send_with_peer_transmits_exact_bytes() {
    let s = connected();
    let payload = vec![0u8, 255, 7, 42];
    let r = s.send(&payload);
    assert_eq!(r, Ok(payload));
}
