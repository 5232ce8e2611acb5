use vstd::prelude::*;
use crate::errors::{BridgeError, IoContext};
use crate::handshake::{handshake_bytes, handshake_spec, bytes_match};

verus! {

/// Where one accepted connection stands. Every connection walks these phases
/// in order — establish, open the peer's stream, read the preamble, dial the
/// local target, forward — and any failure closes it with the error that is
/// then logged; `Closed(None)` is a clean end.
#[derive(Clone, Copy, Debug)]
pub enum ConnPhase {
    /// Waiting for full connection establishment.
    Establishing,
    /// Waiting for the peer to open its one bidirectional stream.
    OpeningStream,
    /// Waiting for the first preamble bytes on that stream.
    ReadingHandshake,
    /// Preamble verified; dialing the fixed local TCP target.
    Dialing,
    /// Both directions of the forwarder are running.
    Forwarding,
    /// The connection is over; the error, if any, is logged and goes nowhere.
    Closed(Option<BridgeError>),
}

/// What the outside work reported back to one connection's handler task.
#[derive(Debug)]
pub enum ConnEvent {
    /// Whether full connection establishment succeeded.
    Established(bool),
    /// Whether the peer's bidirectional stream was accepted.
    StreamOpened(bool),
    /// The first preamble-length bytes read off the stream; `None` on a
    /// short read or I/O error.
    HandshakeRead(Option<Vec<u8>>),
    /// Whether the dial to the fixed local TCP target succeeded.
    LocalConnected(bool),
    /// Both forwarding directions terminated; the error, if either failed.
    ForwardDone(Option<BridgeError>),
}

/// What the handler task does next.
#[derive(Clone, Copy, PartialEq, Eq, Structural, Debug)]
pub enum ConnAction {
    /// Accept the peer's bidirectional stream.
    OpenStream,
    /// Read exactly the preamble bytes.
    ReadHandshake,
    /// Dial the fixed local TCP target.
    ConnectLocal,
    /// Run the bidirectional forwarder.
    StartForward,
    /// Abandon the connection; the closed phase holds what to log.
    Abandon,
    /// The event does not belong to the current phase; nothing happens.
    Ignore,
}

/// Whether an event is a successfully read, correct preamble.
pub open spec fn valid_handshake_event(event: ConnEvent) -> bool {
    &&& event is HandshakeRead
    &&& event->HandshakeRead_0 is Some
    &&& event->HandshakeRead_0->Some_0@ == handshake_spec()
}

/// The per-connection transition table.
pub open spec fn conn_step_spec(phase: ConnPhase, event: ConnEvent) -> (ConnPhase, ConnAction) {
    match (phase, event) {
        (ConnPhase::Establishing, ConnEvent::Established(ok)) => if ok {
            (ConnPhase::OpeningStream, ConnAction::OpenStream)
        } else {
            (ConnPhase::Closed(Some(BridgeError::IoFailure(IoContext::Establish))), ConnAction::Abandon)
        },
        (ConnPhase::OpeningStream, ConnEvent::StreamOpened(ok)) => if ok {
            (ConnPhase::ReadingHandshake, ConnAction::ReadHandshake)
        } else {
            (ConnPhase::Closed(Some(BridgeError::IoFailure(IoContext::OpenStream))), ConnAction::Abandon)
        },
        (ConnPhase::ReadingHandshake, ConnEvent::HandshakeRead(read)) => {
            if read is Some && read->Some_0@ == handshake_spec() {
                (ConnPhase::Dialing, ConnAction::ConnectLocal)
            } else {
                (ConnPhase::Closed(Some(BridgeError::HandshakeRejected)), ConnAction::Abandon)
            }
        },
        (ConnPhase::Dialing, ConnEvent::LocalConnected(ok)) => if ok {
            (ConnPhase::Forwarding, ConnAction::StartForward)
        } else {
            (ConnPhase::Closed(Some(BridgeError::ConnectFailure)), ConnAction::Abandon)
        },
        (ConnPhase::Forwarding, ConnEvent::ForwardDone(err)) => {
            (ConnPhase::Closed(err), ConnAction::Abandon)
        },
        (p, _) => (p, ConnAction::Ignore),
    }
}

/// One step of a connection's handler task: from the current phase and what
/// the outside work reported, decide the next phase and what to do. In
/// particular, the local target is dialed exactly when the phase awaited the
/// preamble and the event carries the correct one; any wrong or short
/// preamble closes the connection with `HandshakeRejected` and the local
/// service is never touched.
pub fn handle_connection(phase: ConnPhase, event: ConnEvent) -> (r: (ConnPhase, ConnAction))
    ensures
        r == conn_step_spec(phase, event),
        r.1 is ConnectLocal <==> (phase is ReadingHandshake && valid_handshake_event(event)),
        (phase is ReadingHandshake && event is HandshakeRead && !valid_handshake_event(event)) ==> (
            r.0 == ConnPhase::Closed(Some(BridgeError::HandshakeRejected)) && r.1 is Abandon
        ),
{
    match (phase, event) {
        (ConnPhase::Establishing, ConnEvent::Established(ok)) => if ok {
            (ConnPhase::OpeningStream, ConnAction::OpenStream)
        } else {
            (ConnPhase::Closed(Some(BridgeError::IoFailure(IoContext::Establish))), ConnAction::Abandon)
        },
        (ConnPhase::OpeningStream, ConnEvent::StreamOpened(ok)) => if ok {
            (ConnPhase::ReadingHandshake, ConnAction::ReadHandshake)
        } else {
            (ConnPhase::Closed(Some(BridgeError::IoFailure(IoContext::OpenStream))), ConnAction::Abandon)
        },
        (ConnPhase::ReadingHandshake, ConnEvent::HandshakeRead(read)) => {
            match read {
                Some(buf) => {
                    let expected = handshake_bytes();
                    if bytes_match(&buf, &expected) {
                        (ConnPhase::Dialing, ConnAction::ConnectLocal)
                    } else {
                        (ConnPhase::Closed(Some(BridgeError::HandshakeRejected)), ConnAction::Abandon)
                    }
                }
                None => (ConnPhase::Closed(Some(BridgeError::HandshakeRejected)), ConnAction::Abandon),
            }
        },
        (ConnPhase::Dialing, ConnEvent::LocalConnected(ok)) => if ok {
            (ConnPhase::Forwarding, ConnAction::StartForward)
        } else {
            (ConnPhase::Closed(Some(BridgeError::ConnectFailure)), ConnAction::Abandon)
        },
        (ConnPhase::Forwarding, ConnEvent::ForwardDone(err)) => {
            (ConnPhase::Closed(err), ConnAction::Abandon)
        },
        (p, _) => (p, ConnAction::Ignore),
    }
}

/// The phase one connection is in after its handler observed a whole
/// sequence of events.
pub open spec fn conn_run(phase: ConnPhase, events: Seq<ConnEvent>) -> ConnPhase
    decreases events.len(),
{
    if events.len() == 0 {
        phase
    } else {
        conn_run(conn_step_spec(phase, events[0]).0, events.drop_first())
    }
}

/// Whether a phase lies beyond the handshake check: the local target may only
/// be dialed, and bytes may only be forwarded, in these phases.
pub open spec fn past_handshake(phase: ConnPhase) -> bool {
    phase is Dialing || phase is Forwarding
}

/// Law: handshake validation strictly precedes any forwarding. A connection
/// that starts anywhere at or before the handshake check and ever reaches the
/// dialing or forwarding phase did observe a correctly read, correct preamble
/// on the way; without one, the local TCP target is never attempted.
pub proof fn lemma_handshake_precedes_forwarding(phase: ConnPhase, events: Seq<ConnEvent>)
    requires
        !past_handshake(phase),
        past_handshake(conn_run(phase, events)),
    ensures
        exists|i: int| 0 <= i < events.len() && valid_handshake_event(#[trigger] events[i]),
    decreases events.len(),
{
    if events.len() > 0 {
        let next = conn_step_spec(phase, events[0]).0;
        if past_handshake(next) {
            assert(valid_handshake_event(events[0]));
        } else {
            lemma_handshake_precedes_forwarding(next, events.drop_first());
            let j = choose|j: int|
                0 <= j < events.drop_first().len() && valid_handshake_event(
                    #[trigger] events.drop_first()[j],
                );
            assert(events.drop_first()[j] == events[j + 1]);
            assert(valid_handshake_event(events[j + 1]));
        }
    }
}

} // verus!
