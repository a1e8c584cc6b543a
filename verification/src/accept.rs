//! The accept loop as a state machine: which state it moves to and what its
//! driver must do for each event. The driver owns the socket and the task
//! scheduler; every decision it takes comes from the step function here.

use vstd::prelude::*;

verus! {

/// The phases of the accept loop.
#[derive(Clone, Copy, Debug, PartialEq, Eq, Structural)]
pub enum AcceptLoopState {
    /// The listening socket is not bound yet.
    Idle,
    /// The socket is bound; the loop polls it for connections.
    Listening,
    /// The loop is over; it never polls again.
    Stopped,
}

/// What the accept loop observes in one step.
#[derive(Clone, Copy, Debug, PartialEq, Eq, Structural)]
pub enum AcceptEvent {
    /// The listening socket was bound.
    BindSucceeded,
    /// Binding the listening socket failed.
    BindFailed,
    /// A pending connection was accepted.
    ConnectionAccepted,
    /// The poll failed transiently (no pending connection, a socket hiccup).
    AcceptTransientError,
    /// The owning task was cancelled.
    Cancelled,
}

/// What the driver must do after a step.
#[derive(Clone, Copy, Debug, PartialEq, Eq, Structural)]
pub enum AcceptAction {
    /// Spawn an independent handler task for the accepted connection, then
    /// yield for the poll interval.
    SpawnHandler,
    /// Log the transient error, then keep polling after the poll interval.
    LogAndContinue,
    /// Surface the bind failure to the caller; the loop never starts.
    ReportBindError,
    /// Nothing to do.
    Ignore,
}

/// The transition table of the accept loop. Binding moves it from idle to
/// listening, or ends it with the failure reported; while listening, an
/// accepted connection gets a handler task of its own and a transient error
/// is logged and survived; cancellation ends the loop from any state, and the
/// stopped state is terminal.
pub open spec fn spec_accept_step(s: AcceptLoopState, e: AcceptEvent) -> (AcceptLoopState, AcceptAction) {
    match (s, e) {
        (AcceptLoopState::Idle, AcceptEvent::BindSucceeded) => (
            AcceptLoopState::Listening,
            AcceptAction::Ignore,
        ),
        (AcceptLoopState::Idle, AcceptEvent::BindFailed) => (
            AcceptLoopState::Stopped,
            AcceptAction::ReportBindError,
        ),
        (AcceptLoopState::Listening, AcceptEvent::ConnectionAccepted) => (
            AcceptLoopState::Listening,
            AcceptAction::SpawnHandler,
        ),
        (AcceptLoopState::Listening, AcceptEvent::AcceptTransientError) => (
            AcceptLoopState::Listening,
            AcceptAction::LogAndContinue,
        ),
        (AcceptLoopState::Stopped, _) => (AcceptLoopState::Stopped, AcceptAction::Ignore),
        (_, AcceptEvent::Cancelled) => (AcceptLoopState::Stopped, AcceptAction::Ignore),
        _ => (s, AcceptAction::Ignore),
    }
}

/// One step of the accept loop: the next state and the action the driver owes.
pub fn accept_step(s: AcceptLoopState, e: AcceptEvent) -> (r: (AcceptLoopState, AcceptAction))
    ensures
        r == spec_accept_step(s, e),
{
    match (s, e) {
        (AcceptLoopState::Idle, AcceptEvent::BindSucceeded) => (
            AcceptLoopState::Listening,
            AcceptAction::Ignore,
        ),
        (AcceptLoopState::Idle, AcceptEvent::BindFailed) => (
            AcceptLoopState::Stopped,
            AcceptAction::ReportBindError,
        ),
        (AcceptLoopState::Listening, AcceptEvent::ConnectionAccepted) => (
            AcceptLoopState::Listening,
            AcceptAction::SpawnHandler,
        ),
        (AcceptLoopState::Listening, AcceptEvent::AcceptTransientError) => (
            AcceptLoopState::Listening,
            AcceptAction::LogAndContinue,
        ),
        (AcceptLoopState::Stopped, _) => (AcceptLoopState::Stopped, AcceptAction::Ignore),
        (_, AcceptEvent::Cancelled) => (AcceptLoopState::Stopped, AcceptAction::Ignore),
        (s2, _) => (s2, AcceptAction::Ignore),
    }
}

/// The stopped state is terminal: no event moves the loop out of it, and none
/// has it spawn another handler.
pub proof fn lemma_stopped_terminal(e: AcceptEvent)
    ensures
        spec_accept_step(AcceptLoopState::Stopped, e).0 == AcceptLoopState::Stopped,
        spec_accept_step(AcceptLoopState::Stopped, e).1 != AcceptAction::SpawnHandler,
{
}

/// A handler task is spawned exactly when a listening loop accepts a
/// connection: no state reached before the socket is bound, and none reached
/// after cancellation, ever spawns one.
pub proof fn lemma_spawn_only_while_listening(s: AcceptLoopState, e: AcceptEvent)
    ensures
        (spec_accept_step(s, e).1 == AcceptAction::SpawnHandler) <==> (s
            == AcceptLoopState::Listening && e == AcceptEvent::ConnectionAccepted),
{
}

} // verus!
