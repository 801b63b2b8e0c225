//! The decision logic of the phase scheduler: the component that, while a
//! session runs, waits for the current phase to elapse, advances the state
//! machine, announces the new phase, and re-arms the wait until the session
//! ends or is cancelled.
//!
//! Waiting itself suspends and so lives with the caller: the caller owns one
//! cancellable timer, feeds every occurrence back in as a
//! [`SchedulerEvent`], and carries out the [`SchedulerEffects`] each step
//! hands back. All decisions stand here, verified: in particular, a
//! cancelled wait commands no transition and no notification.

use vstd::prelude::*;

use crate::state::{PomodoroPhase, PomodoroState, TransitionResult};
use crate::state::spec_transition;

verus! {

/// Whether the scheduler currently has a wait loop armed.
#[derive(Copy, Clone, PartialEq, Eq, Structural, Debug)]
pub enum SchedulerStatus {
    /// No wait is in flight.
    Idle,
    /// A cancellable wait is in flight; when it elapses, the session
    /// transitions.
    Waiting,
}

/// One occurrence the scheduler reacts to.
#[derive(Copy, Clone, PartialEq, Eq, Structural, Debug)]
pub enum SchedulerEvent {
    /// A wait loop shall begin, with the given number of seconds until the
    /// first transition. Any wait already in flight is superseded.
    StartRequested(u64),
    /// The armed wait ran its full course.
    WaitElapsed,
    /// The wait loop shall be cancelled.
    StopRequested,
}

/// What the caller must carry out after one scheduler step.
#[derive(Copy, Clone, PartialEq, Eq, Structural, Debug)]
pub struct SchedulerEffects {
    /// The phase to announce to the notification collaborator, if any.
    pub notify: Option<PomodoroPhase>,
    /// The number of seconds to wait before feeding back
    /// [`SchedulerEvent::WaitElapsed`], if a wait is to be armed. Arming a
    /// new wait supersedes any wait still in flight, and a step that hands
    /// back no wait leaves none in flight.
    pub arm_wait: Option<u64>,
}

/// No notification and no wait.
pub open spec fn spec_no_effects() -> SchedulerEffects {
    SchedulerEffects { notify: None, arm_wait: None }
}

/// One scheduler step as a function of the scheduler status, the session
/// state and the event: the resulting status, session state and effects.
///
/// A start request arms the initial wait and touches nothing else. A stop
/// request returns to idle and touches nothing else. An elapsed wait while
/// waiting advances the session by one phase, announces the phase that
/// resulted, and either re-arms the wait for the new phase's length or,
/// when the session ended, returns to idle. An elapsed wait while idle is a
/// stale firing and does nothing at all.
pub open spec fn spec_scheduler_step(
    status: SchedulerStatus,
    s: PomodoroState,
    event: SchedulerEvent,
) -> (SchedulerStatus, PomodoroState, SchedulerEffects) {
    match event {
        SchedulerEvent::StartRequested(wait) => (
            SchedulerStatus::Waiting,
            s,
            SchedulerEffects { notify: None, arm_wait: Some(wait) },
        ),
        SchedulerEvent::StopRequested => (SchedulerStatus::Idle, s, spec_no_effects()),
        SchedulerEvent::WaitElapsed => match status {
            SchedulerStatus::Idle => (SchedulerStatus::Idle, s, spec_no_effects()),
            SchedulerStatus::Waiting => {
                let stepped = spec_transition(s).0;
                match spec_transition(s).1 {
                    TransitionResult::Stopped => (
                        SchedulerStatus::Idle,
                        stepped,
                        SchedulerEffects { notify: Some(stepped.phase), arm_wait: None },
                    ),
                    TransitionResult::NextTransitionIn(wait) => (
                        SchedulerStatus::Waiting,
                        stepped,
                        SchedulerEffects {
                            notify: Some(stepped.phase),
                            arm_wait: Some(wait as u64),
                        },
                    ),
                }
            },
        },
    }
}

/// Perform one scheduler step on the shared session state, returning the
/// new scheduler status and the effects the caller must carry out.
pub fn scheduler_step(
    status: SchedulerStatus,
    state: &mut PomodoroState,
    event: SchedulerEvent,
) -> (r: (SchedulerStatus, SchedulerEffects))
    requires
        old(state).wf(),
    ensures
        r.0 == spec_scheduler_step(status, *old(state), event).0,
        *final(state) == spec_scheduler_step(status, *old(state), event).1,
        r.1 == spec_scheduler_step(status, *old(state), event).2,
        final(state).wf(),
{
    match event {
        SchedulerEvent::StartRequested(wait) => (
            SchedulerStatus::Waiting,
            SchedulerEffects { notify: None, arm_wait: Some(wait) },
        ),
        SchedulerEvent::StopRequested => (
            SchedulerStatus::Idle,
            SchedulerEffects { notify: None, arm_wait: None },
        ),
        SchedulerEvent::WaitElapsed => match status {
            SchedulerStatus::Idle => (
                SchedulerStatus::Idle,
                SchedulerEffects { notify: None, arm_wait: None },
            ),
            SchedulerStatus::Waiting => {
                let outcome = state.transition();
                let phase = state.phase;
                match outcome {
                    TransitionResult::Stopped => (
                        SchedulerStatus::Idle,
                        SchedulerEffects { notify: Some(phase), arm_wait: None },
                    ),
                    TransitionResult::NextTransitionIn(wait) => (
                        SchedulerStatus::Waiting,
                        SchedulerEffects { notify: Some(phase), arm_wait: Some(wait as u64) },
                    ),
                }
            },
        },
    }
}

/// Cancellation is free of side effects: a stop request returns the
/// scheduler to idle, leaves the session state untouched, announces no
/// phase and arms no wait — and a wait that still fires after the scheduler
/// went idle is equally without effect. Together these say that a cancelled
/// wait loop performs zero transitions and zero notifications.
pub proof fn lemma_cancel_without_effect(status: SchedulerStatus, s: PomodoroState)
    ensures
        spec_scheduler_step(status, s, SchedulerEvent::StopRequested) == (
            SchedulerStatus::Idle,
            s,
            spec_no_effects(),
        ),
        spec_scheduler_step(SchedulerStatus::Idle, s, SchedulerEvent::WaitElapsed) == (
            SchedulerStatus::Idle,
            s,
            spec_no_effects(),
        ),
{
}

} // verus!
