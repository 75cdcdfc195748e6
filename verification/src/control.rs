//! The control loop's state machine.
//!
//! The loop lives in exactly two states: blocked on the bridge's wait
//! (armed-waiting) or running one color-update cycle (updating). A consumed
//! wakeup starts a cycle; a finished cycle — successful or not — re-arms the
//! interrupt and returns to waiting. A failed cycle must never stall or end
//! the loop, so the transition out of updating ignores the cycle's outcome.

use vstd::prelude::*;
use crate::bridge::spec_edge;
use crate::update::UpdateError;

verus! {

/// Where the control loop stands.
#[derive(Clone, Copy, Debug, PartialEq, Eq, Structural)]
pub enum LoopState {
    /// The interrupt is armed and the loop is blocked until a wakeup.
    ArmedWaiting,
    /// One color-update cycle is running.
    Updating,
}

/// What the loop's surroundings report to the state machine.
pub enum LoopEvent {
    /// The bridge's wait consumed a pending wakeup.
    Wakeup,
    /// The running cycle finished, with its outcome.
    CycleFinished(Result<(), UpdateError>),
}

/// What the loop's surroundings must do next.
#[derive(Clone, Copy, Debug, PartialEq, Eq, Structural)]
pub enum LoopAction {
    /// Run one color-update cycle.
    BeginUpdate,
    /// Re-arm the interrupt and block on the bridge until the next wakeup.
    RearmAndWait,
}

/// The whole transition relation. A wakeup while already updating cannot
/// arise (the loop is blocked only while armed) and changes nothing; a
/// finished cycle always leads back to waiting, whatever its outcome.
pub open spec fn spec_step(s: LoopState, e: LoopEvent) -> (LoopState, LoopAction) {
    match (s, e) {
        (LoopState::ArmedWaiting, LoopEvent::Wakeup) => (
            LoopState::Updating,
            LoopAction::BeginUpdate,
        ),
        (LoopState::Updating, LoopEvent::CycleFinished(_)) => (
            LoopState::ArmedWaiting,
            LoopAction::RearmAndWait,
        ),
        (LoopState::ArmedWaiting, LoopEvent::CycleFinished(_)) => (
            LoopState::ArmedWaiting,
            LoopAction::RearmAndWait,
        ),
        (LoopState::Updating, LoopEvent::Wakeup) => (LoopState::Updating, LoopAction::BeginUpdate),
    }
}

/// Advance the loop by one event.
pub fn step(s: LoopState, e: LoopEvent) -> (r: (LoopState, LoopAction))
    ensures
        r == spec_step(s, e),
{
    match (s, e) {
        (LoopState::ArmedWaiting, LoopEvent::Wakeup) => (
            LoopState::Updating,
            LoopAction::BeginUpdate,
        ),
        (LoopState::Updating, LoopEvent::CycleFinished(_)) => (
            LoopState::ArmedWaiting,
            LoopAction::RearmAndWait,
        ),
        (LoopState::ArmedWaiting, LoopEvent::CycleFinished(_)) => (
            LoopState::ArmedWaiting,
            LoopAction::RearmAndWait,
        ),
        (LoopState::Updating, LoopEvent::Wakeup) => (LoopState::Updating, LoopAction::BeginUpdate),
    }
}

/// Law: a failed cycle does not stall the loop. Whatever error the cycle
/// reports, the machine returns to armed-waiting, and the wakeup a
/// subsequent edge produces starts a fresh cycle.
pub proof fn lemma_failed_cycle_rearms(e: UpdateError)
    ensures
        spec_step(LoopState::Updating, LoopEvent::CycleFinished(Err(e))) == (
            LoopState::ArmedWaiting,
            LoopAction::RearmAndWait,
        ),
        spec_step(LoopState::ArmedWaiting, LoopEvent::Wakeup) == (
            LoopState::Updating,
            LoopAction::BeginUpdate,
        ),
{
}

/// Law: an edge that lands while a cycle is running is not lost. It leaves
/// the bridge's counter nonzero, the finished cycle returns the machine to
/// armed-waiting, and from there the still-pending wakeup starts at least
/// one further cycle — though several such edges may coalesce into one.
pub proof fn lemma_edge_during_update_not_lost(c: nat, outcome: Result<(), UpdateError>)
    ensures
        spec_edge(c) >= 1,
        spec_step(LoopState::Updating, LoopEvent::CycleFinished(outcome)).0
            == LoopState::ArmedWaiting,
        spec_step(LoopState::ArmedWaiting, LoopEvent::Wakeup) == (
            LoopState::Updating,
            LoopAction::BeginUpdate,
        ),
{
}

} // verus!
