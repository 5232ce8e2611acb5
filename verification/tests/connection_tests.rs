use iroh_bridge::connection::{handle_connection, ConnAction, ConnEvent, ConnPhase};
use iroh_bridge::errors::BridgeError;
use iroh_bridge::handshake::handshake_bytes;
use iroh_bridge::supervisor::{accept_step, AcceptAction, AcceptEvent, LoopState};

#[test]
fn tunnel_connection_happy_path() {
    let (p, a) = handle_connection(ConnPhase::Establishing, ConnEvent::Established(true));
    assert!(matches!(p, ConnPhase::OpeningStream));
    assert_eq!(a, ConnAction::OpenStream);

    let (p, a) = handle_connection(p, ConnEvent::StreamOpened(true));
    assert!(matches!(p, ConnPhase::ReadingHandshake));
    assert_eq!(a, ConnAction::ReadHandshake);

    let (p, a) = handle_connection(p, ConnEvent::HandshakeRead(Some(handshake_bytes())));
    assert!(matches!(p, ConnPhase::Dialing));
    assert_eq!(a, ConnAction::ConnectLocal);

    let (p, a) = handle_connection(p, ConnEvent::LocalConnected(true));
    assert!(matches!(p, ConnPhase::Forwarding));
    assert_eq!(a, ConnAction::StartForward);

    let (p, a) = handle_connection(p, ConnEvent::ForwardDone(None));
    assert!(matches!(p, ConnPhase::Closed(None)));
    assert_eq!(a, ConnAction::Abandon);
}

#[test]
fn wrong_preamble_never_dials_local_target() {
    let (p, _) = handle_connection(ConnPhase::Establishing, ConnEvent::Established(true));
    let (p, _) = handle_connection(p, ConnEvent::StreamOpened(true));
    let (p, a) = handle_connection(p, ConnEvent::HandshakeRead(Some(b"howdy".to_vec())));
    assert!(matches!(
        p,
        ConnPhase::Closed(Some(BridgeError::HandshakeRejected))
    ));
    assert_eq!(a, ConnAction::Abandon);

    // The connection is over: even a claimed local connect changes nothing.
    let (p, a) = handle_connection(p, ConnEvent::LocalConnected(true));
    assert!(matches!(
        p,
        ConnPhase::Closed(Some(BridgeError::HandshakeRejected))
    ));
    assert_eq!(a, ConnAction::Ignore);
}

#[test]
fn short_preamble_read_abandons_connection() {
    let (p, a) = handle_connection(ConnPhase::ReadingHandshake, ConnEvent::HandshakeRead(None));
    assert!(matches!(
        p,
        ConnPhase::Closed(Some(BridgeError::HandshakeRejected))
    ));
    assert_eq!(a, ConnAction::Abandon);
}

#[test]
fn establishment_failure_closes_connection() {
    let (p, a) = handle_connection(ConnPhase::Establishing, ConnEvent::Established(false));
    assert!(matches!(p, ConnPhase::Closed(Some(BridgeError::IoFailure(_)))));
    assert_eq!(a, ConnAction::Abandon);
}

#[test]
fn stream_open_failure_closes_connection() {
    let (p, a) = handle_connection(ConnPhase::OpeningStream, ConnEvent::StreamOpened(false));
    assert!(matches!(p, ConnPhase::Closed(Some(BridgeError::IoFailure(_)))));
    assert_eq!(a, ConnAction::Abandon);
}

#[test]
fn unreachable_local_target_closes_connection() {
    let (p, a) = handle_connection(ConnPhase::Dialing, ConnEvent::LocalConnected(false));
    assert!(matches!(p, ConnPhase::Closed(Some(BridgeError::ConnectFailure))));
    assert_eq!(a, ConnAction::Abandon);
}

#[test]
fn forward_error_is_kept_for_logging_only() {
    let (p, a) = handle_connection(
        ConnPhase::Forwarding,
        ConnEvent::ForwardDone(Some(BridgeError::Cancelled)),
    );
    assert!(matches!(p, ConnPhase::Closed(Some(BridgeError::Cancelled))));
    assert_eq!(a, ConnAction::Abandon);
}

#[test]
fn one_connection_failure_leaves_another_unaffected() {
    // Two connections arrive; the loop spawns a handler for each.
    let (s, a) = accept_step(LoopState::Running, AcceptEvent::Incoming);
    assert_eq!(a, AcceptAction::SpawnHandler);
    let (s, a) = accept_step(s, AcceptEvent::Incoming);
    assert_eq!(a, AcceptAction::SpawnHandler);

    // Connection one sends an invalid preamble and is rejected.
    let (p1, _) = handle_connection(ConnPhase::Establishing, ConnEvent::Established(true));
    let (p1, _) = handle_connection(p1, ConnEvent::StreamOpened(true));
    let (p1, a1) = handle_connection(p1, ConnEvent::HandshakeRead(Some(b"nope!".to_vec())));
    assert!(matches!(
        p1,
        ConnPhase::Closed(Some(BridgeError::HandshakeRejected))
    ));
    assert_eq!(a1, ConnAction::Abandon);

    // Connection two, with the valid preamble, completes normally.
    let (p2, _) = handle_connection(ConnPhase::Establishing, ConnEvent::Established(true));
    let (p2, _) = handle_connection(p2, ConnEvent::StreamOpened(true));
    let (p2, a2) = handle_connection(p2, ConnEvent::HandshakeRead(Some(handshake_bytes())));
    assert_eq!(a2, ConnAction::ConnectLocal);
    let (p2, _) = handle_connection(p2, ConnEvent::LocalConnected(true));
    let (p2, _) = handle_connection(p2, ConnEvent::ForwardDone(None));
    assert!(matches!(p2, ConnPhase::Closed(None)));

    // The accept loop never saw either outcome and is still running.
    assert_eq!(s, LoopState::Running);
}

#[test]
fn accept_failures_keep_the_loop_running() {
    let mut s = LoopState::Running;
    for _ in 0..5 {
        let (next, a) = accept_step(s, AcceptEvent::IncomingFailed);
        assert_eq!(a, AcceptAction::LogAndContinue);
        s = next;
    }
    assert_eq!(s, LoopState::Running);
}

#[test]
fn endpoint_closure_stops_the_loop() {
    let (s, a) = accept_step(LoopState::Running, AcceptEvent::EndpointClosed);
    assert_eq!(s, LoopState::Stopped);
    assert_eq!(a, AcceptAction::StopLoop);
}

#[test]
fn shutdown_signal_stops_the_loop() {
    let (s, a) = accept_step(LoopState::Running, AcceptEvent::ShutdownSignal);
    assert_eq!(s, LoopState::Stopped);
    assert_eq!(a, AcceptAction::StopLoop);
}

#[test]
fn stopped_loop_ignores_later_events() {
    let (s, _) = accept_step(LoopState::Running, AcceptEvent::ShutdownSignal);
    let (s, a) = accept_step(s, AcceptEvent::Incoming);
    assert_eq!(s, LoopState::Stopped);
    assert_eq!(a, AcceptAction::Ignore);
}
