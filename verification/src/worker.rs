//! The worker's decisions, stripped of the sockets they drive: the serve
//! loop never exits, and an accepted connection only ever moves forward
//! until it is closed, whatever fails along the way.

use vstd::prelude::*;

verus! {

/// The phase of one connection's exchange, in the order the worker passes
/// through them.
#[derive(Clone, Copy, Debug, PartialEq, Eq, Structural)]
pub enum ConnPhase {
    Accepted,
    Draining,
    SnapshotRead,
    Responding,
    Closed,
}

/// What the worker just did with a connection. Each event carries how it
/// went; no outcome holds the exchange back.
#[derive(Clone, Copy, Debug, PartialEq, Eq, Structural)]
pub enum ConnEvent {
    /// The worker turned to draining the request.
    StartDrain,
    /// The single bounded read ended; a failed read is treated as nothing
    /// sent.
    DrainEnded { ok: bool },
    /// The telemetry lock read ended, with or without a rendering.
    SnapshotEnded { locked: bool },
    /// The single response write ended, successfully or not.
    WriteEnded { ok: bool },
}

/// Which event can conclude which phase. No event fits `Closed`.
pub open spec fn event_fits(phase: ConnPhase, event: ConnEvent) -> bool {
    match (phase, event) {
        (ConnPhase::Accepted, ConnEvent::StartDrain) => true,
        (ConnPhase::Draining, ConnEvent::DrainEnded { .. }) => true,
        (ConnPhase::SnapshotRead, ConnEvent::SnapshotEnded { .. }) => true,
        (ConnPhase::Responding, ConnEvent::WriteEnded { .. }) => true,
        _ => false,
    }
}

/// The phase after an event: always the next one, whether the event went
/// well or not — a failure is absorbed, never retried.
pub open spec fn spec_step(phase: ConnPhase, event: ConnEvent) -> ConnPhase {
    match phase {
        ConnPhase::Accepted => ConnPhase::Draining,
        ConnPhase::Draining => ConnPhase::SnapshotRead,
        ConnPhase::SnapshotRead => ConnPhase::Responding,
        ConnPhase::Responding => ConnPhase::Closed,
        ConnPhase::Closed => ConnPhase::Closed,
    }
}

/// The position of a phase along the exchange.
pub open spec fn phase_rank(phase: ConnPhase) -> int {
    match phase {
        ConnPhase::Accepted => 0,
        ConnPhase::Draining => 1,
        ConnPhase::SnapshotRead => 2,
        ConnPhase::Responding => 3,
        ConnPhase::Closed => 4,
    }
}

/// Advances a connection by one event.
pub fn step(phase: ConnPhase, event: ConnEvent) -> (next: ConnPhase)
    requires
        event_fits(phase, event),
    ensures
        next == spec_step(phase, event),
{
    match phase {
        ConnPhase::Accepted => ConnPhase::Draining,
        ConnPhase::Draining => ConnPhase::SnapshotRead,
        ConnPhase::SnapshotRead => ConnPhase::Responding,
        ConnPhase::Responding => ConnPhase::Closed,
        ConnPhase::Closed => ConnPhase::Closed,
    }
}

/// Every fitting event moves the exchange strictly forward by one phase:
/// no phase is retried or revisited.
pub proof fn lemma_forward_only(phase: ConnPhase, event: ConnEvent)
    requires
        event_fits(phase, event),
    ensures
        phase_rank(spec_step(phase, event)) == phase_rank(phase) + 1,
{
}

/// However its four steps went — a failed drain, an unavailable telemetry
/// lock, a client gone before the write — the exchange ends `Closed`, and
/// the worker is back at the accept call.
pub proof fn lemma_exchange_always_closes(
    e1: ConnEvent,
    e2: ConnEvent,
    e3: ConnEvent,
    e4: ConnEvent,
)
    requires
        event_fits(ConnPhase::Accepted, e1),
        event_fits(spec_step(ConnPhase::Accepted, e1), e2),
        event_fits(spec_step(spec_step(ConnPhase::Accepted, e1), e2), e3),
        event_fits(spec_step(spec_step(spec_step(ConnPhase::Accepted, e1), e2), e3), e4),
    ensures
        spec_step(spec_step(spec_step(spec_step(ConnPhase::Accepted, e1), e2), e3), e4)
            == ConnPhase::Closed,
{
}

/// What the accept call reported to the worker.
#[derive(Clone, Copy, Debug, PartialEq, Eq, Structural)]
pub enum AcceptOutcome {
    /// A client connected.
    Connected,
    /// The socket reported an error.
    Failed,
}

/// The worker's next move after an accept; either way it accepts again.
#[derive(Clone, Copy, Debug, PartialEq, Eq, Structural)]
pub enum WorkerStep {
    /// Serve the connection, then accept again.
    ServeConnection,
    /// Log the error through the throttle, then accept again.
    LogThrottled,
}

/// The move owed to an accept outcome.
pub open spec fn spec_accept_decision(outcome: AcceptOutcome) -> WorkerStep {
    match outcome {
        AcceptOutcome::Connected => WorkerStep::ServeConnection,
        AcceptOutcome::Failed => WorkerStep::LogThrottled,
    }
}

/// Decides the worker's next move. An accept-phase error never ends the
/// loop: it is logged through the throttle and the worker accepts again.
pub fn accept_decision(outcome: AcceptOutcome) -> (next: WorkerStep)
    ensures
        next == spec_accept_decision(outcome),
{
    match outcome {
        AcceptOutcome::Connected => WorkerStep::ServeConnection,
        AcceptOutcome::Failed => WorkerStep::LogThrottled,
    }
}

} // verus!
