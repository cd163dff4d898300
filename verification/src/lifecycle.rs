//! The shutdown protocol of a client handle.
//!
//! A handle moves through four states: both workers starting up, the steady
//! state in which commands and events flow freely, the drain after the
//! disconnect command was processed while in-flight events are still being
//! delivered, and the terminal state with both workers gone.  A failure to
//! attach to the host runtime during startup short-circuits straight to the
//! terminal state.  The terminal state is absorbing, and a handle never
//! moves backwards.

use vstd::prelude::*;

verus! {

/// The lifecycle states of a client handle.
#[derive(Clone, Copy, PartialEq, Eq, Debug)]
pub enum LifecycleState {
    /// Both workers starting, host-runtime attachment in progress.
    Initializing,
    /// Steady state: commands and events flow freely.
    Running,
    /// The disconnect command was processed; in-flight events are still
    /// being delivered before the terminal callback.
    Draining,
    /// Both workers exited; every further command is answered with a
    /// queue-closed error.
    Terminated,
}

/// The happenings a handle's state reacts to.
#[derive(Clone, Copy, PartialEq, Eq, Debug)]
pub enum LifecycleEvent {
    /// Both workers confirmed readiness.
    WorkersReady,
    /// Attaching a worker to the host runtime failed during startup.
    InitFailed,
    /// The I/O worker processed the disconnect command.
    DisconnectProcessed,
    /// The dispatch worker delivered the terminal callback and exited.
    DrainCompleted,
}

/// The transition relation of the handle's lifecycle.  Transitions not
/// listed leave the state unchanged.
pub open spec fn spec_lifecycle_next(s: LifecycleState, e: LifecycleEvent) -> LifecycleState {
    match (s, e) {
        (LifecycleState::Initializing, LifecycleEvent::WorkersReady) => LifecycleState::Running,
        (LifecycleState::Initializing, LifecycleEvent::InitFailed) => LifecycleState::Terminated,
        (LifecycleState::Running, LifecycleEvent::DisconnectProcessed) => LifecycleState::Draining,
        (LifecycleState::Draining, LifecycleEvent::DrainCompleted) => LifecycleState::Terminated,
        _ => s,
    }
}

/// Advances a handle's lifecycle state by one event.
pub fn lifecycle_next(s: LifecycleState, e: LifecycleEvent) -> (next: LifecycleState)
    ensures
        next == spec_lifecycle_next(s, e),
{
    match (s, e) {
        (LifecycleState::Initializing, LifecycleEvent::WorkersReady) => LifecycleState::Running,
        (LifecycleState::Initializing, LifecycleEvent::InitFailed) => LifecycleState::Terminated,
        (LifecycleState::Running, LifecycleEvent::DisconnectProcessed) => LifecycleState::Draining,
        (LifecycleState::Draining, LifecycleEvent::DrainCompleted) => LifecycleState::Terminated,
        (s, _) => s,
    }
}

/// How far along the shutdown a state is.
pub open spec fn spec_lifecycle_rank(s: LifecycleState) -> int {
    match s {
        LifecycleState::Initializing => 0,
        LifecycleState::Running => 1,
        LifecycleState::Draining => 2,
        LifecycleState::Terminated => 3,
    }
}

/// A handle never moves backwards: no event re-opens a draining or
/// terminated handle.
pub proof fn lemma_lifecycle_monotone(s: LifecycleState, e: LifecycleEvent)
    ensures
        spec_lifecycle_rank(spec_lifecycle_next(s, e)) >= spec_lifecycle_rank(s),
{
}

/// The terminal state is absorbing: once both workers exited, no event
/// revives the handle.
pub proof fn lemma_terminated_absorbing(e: LifecycleEvent)
    ensures
        spec_lifecycle_next(LifecycleState::Terminated, e) == LifecycleState::Terminated,
{
}

} // verus!
