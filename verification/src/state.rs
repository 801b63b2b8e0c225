//! The pomodoro session state machine: phases, session parameters, and the
//! transition logic that advances one session from work periods through
//! short and long breaks until it ends or is stopped.

use vstd::prelude::*;

verus! {

/// Number of seconds in a minute.
pub const ONE_MINUTE: u32 = 60;

/// All the possible phases that a pomodoro session might be in.
#[derive(Copy, Clone, PartialEq, Eq, Structural, Debug)]
pub enum PomodoroPhase {
    /// No session is running.
    Stopped,
    /// The session is currently in a work period.
    Working,
    /// The session is currently in a short break.
    ShortBreak,
    /// The session is currently in a long break.
    LongBreak,
}

/// The result of a state transition. It signals whether the session is
/// concluded or there are periods left.
#[derive(Copy, Clone, PartialEq, Eq, Structural, Debug)]
pub enum TransitionResult {
    /// The session ended.
    Stopped,
    /// The session continues, and the next transition happens in the
    /// specified number of seconds.
    NextTransitionIn(u32),
}

/// How many work periods remain in a pomodoro session.
#[derive(Copy, Clone, PartialEq, Eq, Structural, Debug)]
pub enum RemainingPeriods {
    /// The session does not have limits.
    Unlimited,
    /// The session ends after the specified number of work periods.
    N(u32),
}

impl RemainingPeriods {
    /// The count of work periods left when the session is limited, or the
    /// given default when it is not.
    pub open spec fn spec_unwrap_or(self, default: u32) -> u32 {
        match self {
            RemainingPeriods::Unlimited => default,
            RemainingPeriods::N(n) => n,
        }
    }

    /// The counter after one work period is consumed; an unlimited session
    /// is left untouched.
    pub open spec fn spec_decrement(self) -> RemainingPeriods {
        match self {
            RemainingPeriods::Unlimited => RemainingPeriods::Unlimited,
            RemainingPeriods::N(n) => RemainingPeriods::N((n - 1) as u32),
        }
    }

    /// Whether the counter has reached zero, which marks the session as
    /// complete.
    pub open spec fn spec_done(self) -> bool {
        self == RemainingPeriods::N(0u32)
    }

    /// Consume the enum to get the number of work periods remaining (if the
    /// session is limited), or the default value.
    pub fn unwrap_or(self, default: u32) -> (r: u32)
        ensures
            r == self.spec_unwrap_or(default),
    {
        match self {
            RemainingPeriods::Unlimited => default,
            RemainingPeriods::N(n) => n,
        }
    }

    /// Decrement the number of work periods left by one.
    pub fn decrement(&mut self)
        requires
            *old(self) matches RemainingPeriods::N(n) ==> n >= 1,
        ensures
            *final(self) == old(self).spec_decrement(),
    {
        if let RemainingPeriods::N(ref mut n) = self {
            *n -= 1;
        }
    }

    /// Whether the pomodoro session is complete.
    pub fn done(&self) -> (r: bool)
        ensures
            r == self.spec_done(),
    {
        match self {
            RemainingPeriods::Unlimited => false,
            RemainingPeriods::N(n) => *n == 0,
        }
    }
}

/// Pomodoro session parameters.
#[derive(Copy, Clone, PartialEq, Eq, Structural, Debug)]
pub struct PomodoroSession {
    /// The number of work periods in the session.
    pub periods: RemainingPeriods,
    /// The length, in seconds, of the work period.
    pub work_len: u32,
    /// The length, in seconds, of the short break period.
    pub short_break_len: u32,
    /// The length, in seconds, of the long break period.
    pub long_break_len: u32,
    /// The number of short breaks before a long break.
    pub short_breaks_before_long: u32,
}

/// The documented default session: unlimited periods, 25 minutes of work,
/// 4 minutes of short break, 20 minutes of long break, and a long break
/// after every third short break.
pub open spec fn spec_default_session() -> PomodoroSession {
    PomodoroSession {
        periods: RemainingPeriods::Unlimited,
        work_len: 1500u32,
        short_break_len: 240u32,
        long_break_len: 1200u32,
        short_breaks_before_long: 3u32,
    }
}

impl PomodoroSession {
    /// Validity of session parameters: all durations are positive, and a
    /// limited session has at least one work period left to run (a count of
    /// zero denotes an already completed session and is never how one
    /// starts).
    pub open spec fn wf(self) -> bool {
        &&& self.work_len >= 1
        &&& self.short_break_len >= 1
        &&& self.long_break_len >= 1
        &&& (self.periods matches RemainingPeriods::N(n) ==> n >= 1)
    }
}

impl Default for PomodoroSession {
    /// The default session parameters.
    fn default() -> (s: Self)
        ensures
            s == spec_default_session(),
            s.wf(),
    {
        Self {
            periods: RemainingPeriods::Unlimited,
            work_len: 25 * ONE_MINUTE,
            short_break_len: 4 * ONE_MINUTE,
            long_break_len: 20 * ONE_MINUTE,
            short_breaks_before_long: 3,
        }
    }
}

/// The global state of the pomodoro process.
#[derive(Clone, PartialEq, Eq, Structural, Debug)]
pub struct PomodoroState {
    /// The phase in which the pomodoro timer is in.
    pub phase: PomodoroPhase,
    /// The total length, in seconds, of the current phase.
    pub current_len: Option<u32>,
    /// The timestamp, in whole seconds of the caller's clock, of the instant
    /// in which the current phase was started.
    pub current_started_at: Option<u64>,
    /// The number of short breaks already done.
    pub short_breaks_done: u32,
    /// Session parameters.
    pub params: PomodoroSession,
}

/// The idle record: stopped, default parameters, no timestamp, no phase
/// length, and a cleared short-break counter.
pub open spec fn spec_stopped_state() -> PomodoroState {
    PomodoroState {
        phase: PomodoroPhase::Stopped,
        current_len: None,
        current_started_at: None,
        short_breaks_done: 0u32,
        params: spec_default_session(),
    }
}

/// The record right after a session with parameters `params` is started at
/// instant `now`: a work phase of the configured length begins, and the
/// short-break counter is cleared.
pub open spec fn spec_started(params: PomodoroSession, now: u64) -> PomodoroState {
    PomodoroState {
        phase: PomodoroPhase::Working,
        current_len: Some(params.work_len),
        current_started_at: Some(now),
        short_breaks_done: 0u32,
        params,
    }
}

/// The configured length, in seconds, of the given phase under the given
/// parameters.
pub open spec fn spec_phase_len(phase: PomodoroPhase, params: PomodoroSession) -> u32 {
    match phase {
        PomodoroPhase::Stopped => 0u32,
        PomodoroPhase::Working => params.work_len,
        PomodoroPhase::ShortBreak => params.short_break_len,
        PomodoroPhase::LongBreak => params.long_break_len,
    }
}

/// The phase that follows `phase`: a break always returns to work, and work
/// is followed by a long break exactly when the short-break counter has
/// reached the configured threshold.
pub open spec fn spec_next_phase(
    phase: PomodoroPhase,
    short_breaks_done: u32,
    short_breaks_before_long: u32,
) -> PomodoroPhase {
    match phase {
        PomodoroPhase::Stopped => PomodoroPhase::Stopped,
        PomodoroPhase::ShortBreak => PomodoroPhase::Working,
        PomodoroPhase::LongBreak => PomodoroPhase::Working,
        PomodoroPhase::Working => if short_breaks_done == short_breaks_before_long {
            PomodoroPhase::LongBreak
        } else {
            PomodoroPhase::ShortBreak
        },
    }
}

/// One step of the state machine, as a function of the whole record: first
/// the short-break counter is bumped when a short break ends; then, when a
/// work period ends, the remaining-period counter is consumed and an
/// exhausted session resets to the idle record; otherwise the next phase is
/// entered and its configured length is reported. The start timestamp is
/// deliberately untouched: this step has no awareness of wall-clock time.
pub open spec fn spec_transition(s: PomodoroState) -> (PomodoroState, TransitionResult) {
    let counted = if s.phase is ShortBreak {
        PomodoroState { short_breaks_done: (s.short_breaks_done + 1) as u32, ..s }
    } else {
        s
    };
    if s.phase is Working && s.params.periods.spec_decrement().spec_done() {
        (spec_stopped_state(), TransitionResult::Stopped)
    } else {
        let booked = if s.phase is Working {
            PomodoroState {
                params: PomodoroSession {
                    periods: s.params.periods.spec_decrement(),
                    ..s.params
                },
                ..counted
            }
        } else {
            counted
        };
        let next = spec_next_phase(
            s.phase,
            counted.short_breaks_done,
            s.params.short_breaks_before_long,
        );
        if next is Stopped {
            (spec_stopped_state(), TransitionResult::Stopped)
        } else {
            let len = spec_phase_len(next, booked.params);
            (
                PomodoroState { phase: next, current_len: Some(len), ..booked },
                TransitionResult::NextTransitionIn(len),
            )
        }
    }
}

/// The number of seconds remaining in the current phase at instant `now`:
/// the phase's configured length minus the time elapsed since the phase
/// began, clamped at zero so that an overdue phase never reports a wrapped
/// value. Absent when no phase start is recorded.
pub open spec fn spec_time_remaining(s: PomodoroState, now: u64) -> Option<u64> {
    match s.current_started_at {
        None => None,
        Some(started) => Some(
            if s.phase is Stopped {
                0u64
            } else {
                let total = spec_phase_len(s.phase, s.params) as u64;
                let elapsed = if now >= started { (now - started) as u64 } else { 0u64 };
                if elapsed >= total {
                    0u64
                } else {
                    (total - elapsed) as u64
                }
            },
        ),
    }
}

impl PomodoroState {
    /// The consistency invariant of the record. A stopped timer carries no
    /// phase length, no start timestamp and a cleared short-break counter.
    /// An active phase carries its configured length and a start timestamp,
    /// its parameters are valid, and the short-break counter stands in the
    /// only relation to the long-break threshold that the transition logic
    /// can produce: strictly below it during a short break, exactly at it
    /// during a long break, at or below it while working.
    pub open spec fn wf(self) -> bool {
        match self.phase {
            PomodoroPhase::Stopped => {
                &&& self.current_len is None
                &&& self.current_started_at is None
                &&& self.short_breaks_done == 0
            },
            PomodoroPhase::Working => {
                &&& self.params.wf()
                &&& self.current_len == Some(self.params.work_len)
                &&& self.current_started_at is Some
                &&& self.short_breaks_done <= self.params.short_breaks_before_long
            },
            PomodoroPhase::ShortBreak => {
                &&& self.params.wf()
                &&& self.current_len == Some(self.params.short_break_len)
                &&& self.current_started_at is Some
                &&& self.short_breaks_done < self.params.short_breaks_before_long
            },
            PomodoroPhase::LongBreak => {
                &&& self.params.wf()
                &&& self.current_len == Some(self.params.long_break_len)
                &&& self.current_started_at is Some
                &&& self.short_breaks_done == self.params.short_breaks_before_long
            },
        }
    }

    /// Start the pomodoro session at instant `now`, with the provided
    /// session parameters. Any previous record is overwritten; callers that
    /// must refuse to clobber a running session check the phase first.
    pub fn start(&mut self, params: PomodoroSession, now: u64)
        requires
            params.wf(),
        ensures
            *final(self) == spec_started(params, now),
            final(self).wf(),
    {
        self.phase = PomodoroPhase::Working;
        self.current_len = Some(params.work_len);
        self.current_started_at = Some(now);
        self.short_breaks_done = 0;
        self.params = params;
    }

    /// Transition to the next phase in the session. If the session ends,
    /// the state is reset to the idle record, exactly as `stop` leaves it.
    pub fn transition(&mut self) -> (r: TransitionResult)
        requires
            old(self).wf(),
        ensures
            *final(self) == spec_transition(*old(self)).0,
            r == spec_transition(*old(self)).1,
            final(self).wf(),
    {
        if matches!(self.phase, PomodoroPhase::ShortBreak) {
            self.short_breaks_done += 1;
        } else if matches!(self.phase, PomodoroPhase::Working) {
            self.params.periods.decrement();
            if self.params.periods.done() {
                self.stop();
                return TransitionResult::Stopped;
            }
        }
        self.phase = match self.phase {
            PomodoroPhase::Stopped => PomodoroPhase::Stopped,
            PomodoroPhase::ShortBreak => PomodoroPhase::Working,
            PomodoroPhase::LongBreak => PomodoroPhase::Working,
            PomodoroPhase::Working => {
                if self.short_breaks_done == self.params.short_breaks_before_long {
                    PomodoroPhase::LongBreak
                } else {
                    PomodoroPhase::ShortBreak
                }
            },
        };
        let s = match self.phase {
            PomodoroPhase::Stopped => {
                self.stop();
                return TransitionResult::Stopped;
            },
            PomodoroPhase::Working => self.params.work_len,
            PomodoroPhase::ShortBreak => self.params.short_break_len,
            PomodoroPhase::LongBreak => self.params.long_break_len,
        };
        self.current_len = Some(s);
        TransitionResult::NextTransitionIn(s)
    }

    /// Stop the pomodoro session. The inner state is reset to the idle
    /// record; stopping an already stopped timer is harmless.
    pub fn stop(&mut self)
        ensures
            *final(self) == spec_stop(*old(self)),
            final(self).wf(),
    {
        self.phase = PomodoroPhase::Stopped;
        self.params = PomodoroSession::default();
        self.current_len = None;
        self.current_started_at = None;
        self.short_breaks_done = 0;
    }

    /// Retrieve the number of seconds remaining in the current phase at
    /// instant `now`, if there is a session going on. An overdue phase
    /// reports zero rather than a wrapped value.
    pub fn get_time_remaining(&self, now: u64) -> (r: Option<u64>)
        requires
            self.current_started_at matches Some(started) ==> started <= now,
        ensures
            r == spec_time_remaining(*self, now),
    {
        match self.current_started_at {
            None => None,
            Some(started) => Some(
                match self.phase {
                    PomodoroPhase::Stopped => 0,
                    _ => {
                        let total = self.phase_len() as u64;
                        let elapsed = seconds_since(now, started);
                        if elapsed >= total {
                            0
                        } else {
                            total - elapsed
                        }
                    },
                },
            ),
        }
    }

    /// The configured length, in seconds, of the phase the timer is in.
    pub fn phase_len(&self) -> (r: u32)
        ensures
            r == spec_phase_len(self.phase, self.params),
    {
        match self.phase {
            PomodoroPhase::Stopped => 0,
            PomodoroPhase::Working => self.params.work_len,
            PomodoroPhase::ShortBreak => self.params.short_break_len,
            PomodoroPhase::LongBreak => self.params.long_break_len,
        }
    }
}

/// The record `stop` leaves behind, whatever stood before: the idle record.
pub open spec fn spec_stop(s: PomodoroState) -> PomodoroState {
    spec_stopped_state()
}

impl Default for PomodoroState {
    /// The state a fresh daemon holds: the idle record.
    fn default() -> (s: Self)
        ensures
            s == spec_stopped_state(),
            s.wf(),
    {
        Self {
            phase: PomodoroPhase::Stopped,
            current_len: None,
            current_started_at: None,
            short_breaks_done: 0,
            params: PomodoroSession::default(),
        }
    }
}

/// After a session with valid parameters is started, the timer is in the
/// work phase and, queried at the instant of the start itself, reports the
/// full configured work length remaining.
pub proof fn lemma_start_full_work_remaining(params: PomodoroSession, now: u64)
    requires
        params.wf(),
    ensures
        spec_started(params, now).phase is Working,
        spec_time_remaining(spec_started(params, now), now) == Some(params.work_len as u64),
{
}

/// Stopping is idempotent: stopping an already stopped timer leaves exactly
/// the idle record that the first stop produced.
pub proof fn lemma_stop_idempotent(s: PomodoroState)
    ensures
        spec_stop(spec_stop(s)) == spec_stop(s),
{
}

/// A bounded session on its last work period ends at the next transition:
/// the period counter is consumed, exhaustion is detected, and the state
/// resets to the idle record, with no break phase in between.
pub proof fn lemma_last_period_ends_session(s: PomodoroState)
    requires
        s.wf(),
        s.phase is Working,
        s.params.periods == RemainingPeriods::N(1u32),
    ensures
        spec_transition(s).0 == spec_stopped_state(),
        spec_transition(s).1 == TransitionResult::Stopped,
{
}

/// The remaining time never underflows: whenever a remaining value is
/// reported it is at most the current phase's configured length, and once
/// the elapsed time reaches that length the report is exactly zero.
pub proof fn lemma_remaining_clamped(s: PomodoroState, now: u64)
    ensures
        spec_time_remaining(s, now) matches Some(v) ==> v <= spec_phase_len(s.phase, s.params),
        (s.current_started_at matches Some(started) && now >= started + spec_phase_len(
            s.phase,
            s.params,
        )) ==> spec_time_remaining(s, now) == Some(0u64),
{
}

/// From a freshly started session with the default parameters, the phases
/// cycle through three work periods each followed by a short break; the
/// fourth work period is followed by the long break, which returns to work.
/// The long break is inserted exactly when the third short break has
/// completed, and every step announces another phase to wait through: an
/// unlimited session never ends on its own.
pub proof fn lemma_default_cycle(now: u64)
    ensures
        ({
            let s0 = spec_started(spec_default_session(), now);
            let s1 = spec_transition(s0).0;
            let s2 = spec_transition(s1).0;
            let s3 = spec_transition(s2).0;
            let s4 = spec_transition(s3).0;
            let s5 = spec_transition(s4).0;
            let s6 = spec_transition(s5).0;
            let s7 = spec_transition(s6).0;
            let s8 = spec_transition(s7).0;
            &&& s0.phase is Working
            &&& s1.phase is ShortBreak
            &&& s2.phase is Working
            &&& s3.phase is ShortBreak
            &&& s4.phase is Working
            &&& s5.phase is ShortBreak
            &&& s6.phase is Working
            &&& s7.phase is LongBreak
            &&& s8.phase is Working
            &&& spec_transition(s0).1 is NextTransitionIn
            &&& spec_transition(s1).1 is NextTransitionIn
            &&& spec_transition(s2).1 is NextTransitionIn
            &&& spec_transition(s3).1 is NextTransitionIn
            &&& spec_transition(s4).1 is NextTransitionIn
            &&& spec_transition(s5).1 is NextTransitionIn
            &&& spec_transition(s6).1 is NextTransitionIn
            &&& spec_transition(s7).1 is NextTransitionIn
        }),
{
}

/// The number of whole seconds from `earlier` to `now`. A clock that went
/// backwards is outside this function's domain.
pub fn seconds_since(now: u64, earlier: u64) -> (r: u64)
    requires
        earlier <= now,
    ensures
        r == now - earlier,
{
    now - earlier
}

} // verus!

