use vstd::prelude::*;

verus! {

/// The accept loop's two states. The loop runs until the endpoint reports
/// closure or the external shutdown signal arrives, whichever comes first.
#[derive(Clone, Copy, PartialEq, Eq, Structural, Debug)]
pub enum LoopState {
    Running,
    Stopped,
}

/// What one iteration of the accept loop observed.
#[derive(Clone, Copy, PartialEq, Eq, Structural, Debug)]
pub enum AcceptEvent {
    /// An incoming connection attempt arrived and the transport-level accept
    /// succeeded.
    Incoming,
    /// An incoming connection attempt arrived but the transport-level accept
    /// failed (a malformed attempt).
    IncomingFailed,
    /// The endpoint reported closure: accept yields nothing any more.
    EndpointClosed,
    /// The external one-shot shutdown signal arrived.
    ShutdownSignal,
}

/// What the loop does in response.
#[derive(Clone, Copy, PartialEq, Eq, Structural, Debug)]
pub enum AcceptAction {
    /// Spawn one independent handler task for the new connection.
    SpawnHandler,
    /// Log the failed attempt and keep accepting; such failures never
    /// terminate the loop.
    LogAndContinue,
    /// Leave the accept loop.
    StopLoop,
    /// The loop is already stopped; nothing happens.
    Ignore,
}

/// The accept loop's transition table.
pub open spec fn accept_step_spec(state: LoopState, event: AcceptEvent) -> (LoopState, AcceptAction) {
    match state {
        LoopState::Running => match event {
            AcceptEvent::Incoming => (LoopState::Running, AcceptAction::SpawnHandler),
            AcceptEvent::IncomingFailed => (LoopState::Running, AcceptAction::LogAndContinue),
            AcceptEvent::EndpointClosed => (LoopState::Stopped, AcceptAction::StopLoop),
            AcceptEvent::ShutdownSignal => (LoopState::Stopped, AcceptAction::StopLoop),
        },
        LoopState::Stopped => (LoopState::Stopped, AcceptAction::Ignore),
    }
}

/// Bridge Supervisor: one step of the accept loop. Each accepted connection
/// gets its own handler task; a failed transport-level accept is logged and
/// the loop continues; endpoint closure or the shutdown signal — whichever
/// the loop observes first — stops it.
pub fn accept_step(state: LoopState, event: AcceptEvent) -> (r: (LoopState, AcceptAction))
    ensures
        r == accept_step_spec(state, event),
        r.0 is Stopped <==> (state is Stopped || event is EndpointClosed || event is ShutdownSignal),
        r.1 is SpawnHandler <==> (state is Running && event is Incoming),
{
    match state {
        LoopState::Running => match event {
            AcceptEvent::Incoming => (LoopState::Running, AcceptAction::SpawnHandler),
            AcceptEvent::IncomingFailed => (LoopState::Running, AcceptAction::LogAndContinue),
            AcceptEvent::EndpointClosed => (LoopState::Stopped, AcceptAction::StopLoop),
            AcceptEvent::ShutdownSignal => (LoopState::Stopped, AcceptAction::StopLoop),
        },
        LoopState::Stopped => (LoopState::Stopped, AcceptAction::Ignore),
    }
}

/// The state the loop is in after observing a whole sequence of events.
pub open spec fn loop_run(state: LoopState, events: Seq<AcceptEvent>) -> LoopState
    decreases events.len(),
{
    if events.len() == 0 {
        state
    } else {
        loop_run(accept_step_spec(state, events[0]).0, events.drop_first())
    }
}

/// Law: connection-level failures never terminate the accept loop. Over any
/// sequence of events that holds neither endpoint closure nor the shutdown
/// signal — however many transport-level accept failures it holds — a
/// running loop is still running.
pub proof fn lemma_loop_survives_failures(events: Seq<AcceptEvent>)
    requires
        forall|i: int| 0 <= i < events.len() ==> !(#[trigger] events[i] is EndpointClosed) && !(events[i] is ShutdownSignal),
    ensures
        loop_run(LoopState::Running, events) is Running,
    decreases events.len(),
{
    if events.len() > 0 {
        assert(events[0] is Incoming || events[0] is IncomingFailed);
        assert(forall|i: int| 0 <= i < events.drop_first().len() ==> events.drop_first()[i] == events[i + 1]);
        lemma_loop_survives_failures(events.drop_first());
    }
}

/// Law: the stop is final. Once the loop has stopped, no later event — not
/// even a new incoming connection — restarts it.
pub proof fn lemma_stopped_is_final(events: Seq<AcceptEvent>)
    ensures
        loop_run(LoopState::Stopped, events) is Stopped,
    decreases events.len(),
{
    if events.len() > 0 {
        lemma_stopped_is_final(events.drop_first());
    }
}

/// Law: the loop stops as soon as it observes endpoint closure or the
/// shutdown signal, whichever comes first.
pub proof fn lemma_loop_stops(events: Seq<AcceptEvent>, i: int)
    requires
        0 <= i < events.len(),
        events[i] is EndpointClosed || events[i] is ShutdownSignal,
    ensures
        loop_run(LoopState::Running, events) is Stopped,
    decreases events.len(),
{
    if i == 0 {
        lemma_stopped_is_final(events.drop_first());
    } else {
        let next = accept_step_spec(LoopState::Running, events[0]).0;
        if next is Stopped {
            lemma_stopped_is_final(events.drop_first());
        } else {
            assert(events.drop_first()[i - 1] == events[i]);
            lemma_loop_stops(events.drop_first(), i - 1);
        }
    }
}

} // verus!
