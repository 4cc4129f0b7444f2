//! The fixed-rate step loop, as a state machine.
//!
//! The host cannot run the loop itself here (it blocks on a wall-clock
//! sleep), so the loop's decisions live in this module: which guest entry
//! point to invoke next, how long to pause after it, and how each outcome
//! changes the state. The driver performs the invocation and the sleep and
//! hands the outcome back.

use vstd::prelude::*;
use crate::errors::HostError;

verus! {

/// Pause after every `step` invocation, in microseconds: one frame at
/// roughly 60 Hz, regardless of how long the invocation itself took.
pub const STEP_INTERVAL_MICROS: u64 = 16667;

/// The loop has two states and no graceful stop: it leaves `Running` only by
/// process termination.
#[derive(Clone, Copy, Debug, PartialEq, Eq, Structural)]
pub enum LoopState {
    Uninitialized,
    Running,
}

/// What the driver must do next on behalf of the loop.
#[derive(Clone, Copy, Debug, PartialEq, Eq, Structural)]
pub enum LoopAction {
    /// Invoke the guest's `main` export once, with the fixed empty
    /// argument-count/argument-vector pair.
    InvokeMain { argc: i32, argv: i32 },
    /// Invoke the guest's `step` export, then pause for `pause_micros`
    /// microseconds before the next iteration.
    InvokeStep { pause_micros: u64 },
}

/// How a guest invocation ended, as seen by the driver.
#[derive(Clone, Copy, Debug, PartialEq, Eq, Structural)]
pub enum CallOutcome {
    Completed,
    Trapped,
}

/// The next action for each state: initialize once with `main(0, 0)`, then
/// step forever at the fixed cadence. The pause never depends on anything
/// but the state, so pacing is identical in every iteration.
pub fn next_action(state: &LoopState) -> (action: LoopAction)
    ensures
        *state == LoopState::Uninitialized ==> action == (LoopAction::InvokeMain {
            argc: 0i32,
            argv: 0i32,
        }),
        *state == LoopState::Running ==> action == (LoopAction::InvokeStep {
            pause_micros: STEP_INTERVAL_MICROS,
        }),
{
    match state {
        LoopState::Uninitialized => LoopAction::InvokeMain { argc: 0, argv: 0 },
        LoopState::Running => LoopAction::InvokeStep { pause_micros: STEP_INTERVAL_MICROS },
    }
}

/// State change after an invocation: a completed `main` starts the loop, a
/// completed `step` keeps it running, and a trap in either is fatal — the
/// loop has no retry or recovery policy.
pub fn advance(state: &LoopState, outcome: &CallOutcome) -> (r: Result<LoopState, HostError>)
    ensures
        *outcome == CallOutcome::Trapped ==> r == Result::<LoopState, HostError>::Err(
            HostError::GuestTrap,
        ),
        *outcome == CallOutcome::Completed ==> r == Result::<LoopState, HostError>::Ok(
            LoopState::Running,
        ),
{
    match outcome {
        CallOutcome::Trapped => Err(HostError::GuestTrap),
        CallOutcome::Completed => Ok(LoopState::Running),
    }
}

/// Total scheduled pause across `n` iterations of the running loop, in
/// microseconds.
pub open spec fn scheduled_pause_micros(n: nat) -> nat {
    n * (STEP_INTERVAL_MICROS as nat)
}

/// The cadence is fixed: whatever outcomes the driver saw, every iteration of
/// the running loop schedules the same pause, so `n` iterations schedule
/// exactly `n` times the frame interval.
pub proof fn lemma_fixed_cadence(n: nat)
    ensures
        scheduled_pause_micros(n) == n * (STEP_INTERVAL_MICROS as nat),
        scheduled_pause_micros(n + 1) == scheduled_pause_micros(n) + STEP_INTERVAL_MICROS,
{
    assert(scheduled_pause_micros(n + 1) == scheduled_pause_micros(n) + STEP_INTERVAL_MICROS)
        by (nonlinear_arith);
}

} // verus!
