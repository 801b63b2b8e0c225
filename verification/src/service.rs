//! The service-level operations behind the request/response boundary:
//! turning a start request's raw minute counts into session parameters,
//! starting a session unless one is already working, and answering a status
//! query. The transport that carries the requests is the caller's business;
//! these functions take and return plain values.

use vstd::prelude::*;

use crate::state::{PomodoroSession, PomodoroState, PomodoroPhase, RemainingPeriods};
use crate::state::{spec_started, spec_time_remaining, ONE_MINUTE};

verus! {

/// The one domain-level error: a start request arrived while a work period
/// was already in progress.
#[derive(Copy, Clone, PartialEq, Eq, Structural, Debug)]
pub enum StartError {
    /// A pomodoro is already in progress.
    AlreadyRunning,
}

/// Whether a session's period limit is bounded, as a status answer reports
/// it.
#[derive(Copy, Clone, PartialEq, Eq, Structural, Debug)]
pub enum PeriodsKind {
    /// The session does not have limits.
    Unlimited,
    /// The session ends after a bounded number of work periods.
    Limited,
}

/// The answer to a status query.
#[derive(Copy, Clone, PartialEq, Eq, Structural, Debug)]
pub struct SessionStatus {
    /// The phase the timer is in.
    pub phase: PomodoroPhase,
    /// The seconds remaining in the current phase; zero when no session is
    /// running.
    pub time_remaining_seconds: u64,
    /// Whether the session's period limit is bounded.
    pub periods_kind: PeriodsKind,
    /// The number of work periods left in a bounded session; zero when the
    /// session is unlimited.
    pub periods_value: u32,
}

/// The session parameters a start request with the given raw fields asks
/// for. Durations arrive as whole minutes and are converted to seconds; a
/// zero in any field means "use the documented default" — zero periods
/// means an unlimited session.
pub open spec fn spec_session_from_minutes(
    periods: u32,
    work_min: u32,
    short_break_min: u32,
    long_break_min: u32,
    short_breaks_before_long: u32,
) -> PomodoroSession {
    PomodoroSession {
        periods: if periods == 0 {
            RemainingPeriods::Unlimited
        } else {
            RemainingPeriods::N(periods)
        },
        work_len: if work_min == 0 {
            1500u32
        } else {
            (work_min * ONE_MINUTE) as u32
        },
        short_break_len: if short_break_min == 0 {
            240u32
        } else {
            (short_break_min * ONE_MINUTE) as u32
        },
        long_break_len: if long_break_min == 0 {
            1200u32
        } else {
            (long_break_min * ONE_MINUTE) as u32
        },
        short_breaks_before_long: if short_breaks_before_long == 0 {
            3u32
        } else {
            short_breaks_before_long
        },
    }
}

/// Build the session parameters a start request asks for. Each duration
/// must, once in seconds, still fit the parameter field; the caller checks
/// that before converting.
pub fn session_from_minutes(
    periods: u32,
    work_min: u32,
    short_break_min: u32,
    long_break_min: u32,
    short_breaks_before_long: u32,
) -> (s: PomodoroSession)
    requires
        work_min * ONE_MINUTE <= u32::MAX,
        short_break_min * ONE_MINUTE <= u32::MAX,
        long_break_min * ONE_MINUTE <= u32::MAX,
    ensures
        s == spec_session_from_minutes(
            periods,
            work_min,
            short_break_min,
            long_break_min,
            short_breaks_before_long,
        ),
        s.wf(),
{
    PomodoroSession {
        periods: match periods {
            0 => RemainingPeriods::Unlimited,
            n => RemainingPeriods::N(n),
        },
        work_len: match work_min {
            0 => 25 * ONE_MINUTE,
            t => t * ONE_MINUTE,
        },
        short_break_len: match short_break_min {
            0 => 4 * ONE_MINUTE,
            t => t * ONE_MINUTE,
        },
        long_break_len: match long_break_min {
            0 => 20 * ONE_MINUTE,
            t => t * ONE_MINUTE,
        },
        short_breaks_before_long: match short_breaks_before_long {
            0 => 3,
            n => n,
        },
    }
}

/// Handle a start request at instant `now`. While a work period is in
/// progress the request is refused and the running session is left exactly
/// as it was; deliberately, only the work phase blocks a new start, so a
/// session in a break is replaced. On success the session starts and the
/// number of seconds until the first transition — the work length — is
/// returned for the caller to arm the scheduler with.
pub fn service_start(
    state: &mut PomodoroState,
    now: u64,
    periods: u32,
    work_min: u32,
    short_break_min: u32,
    long_break_min: u32,
    short_breaks_before_long: u32,
) -> (r: Result<u32, StartError>)
    requires
        work_min * ONE_MINUTE <= u32::MAX,
        short_break_min * ONE_MINUTE <= u32::MAX,
        long_break_min * ONE_MINUTE <= u32::MAX,
    ensures
        old(state).phase is Working ==> r == Err::<u32, StartError>(StartError::AlreadyRunning)
            && *final(state) == *old(state),
        !(old(state).phase is Working) ==> ({
            let session = spec_session_from_minutes(
                periods,
                work_min,
                short_break_min,
                long_break_min,
                short_breaks_before_long,
            );
            &&& r == Ok::<u32, StartError>(session.work_len)
            &&& *final(state) == spec_started(session, now)
            &&& final(state).wf()
        }),
{
    if matches!(state.phase, PomodoroPhase::Working) {
        return Err(StartError::AlreadyRunning);
    }
    let session = session_from_minutes(
        periods,
        work_min,
        short_break_min,
        long_break_min,
        short_breaks_before_long,
    );
    let wait = session.work_len;
    state.start(session, now);
    Ok(wait)
}

/// Handle a stop request: reset the session to the idle record. The caller
/// pairs this with cancelling the scheduler's wait loop.
pub fn service_stop(state: &mut PomodoroState)
    ensures
        *final(state) == crate::state::spec_stop(*old(state)),
        final(state).wf(),
{
    state.stop();
}

/// Answer a status query at instant `now`: the phase, the remaining seconds
/// of the current phase (zero when no session is running), and the period
/// limit in kind and count.
pub fn service_get_state(state: &PomodoroState, now: u64) -> (st: SessionStatus)
    requires
        state.current_started_at matches Some(started) ==> started <= now,
    ensures
        st.phase == state.phase,
        st.time_remaining_seconds == (match spec_time_remaining(*state, now) {
            Some(v) => v,
            None => 0u64,
        }),
        st.periods_kind == (match state.params.periods {
            RemainingPeriods::Unlimited => PeriodsKind::Unlimited,
            RemainingPeriods::N(_) => PeriodsKind::Limited,
        }),
        st.periods_value == state.params.periods.spec_unwrap_or(0),
{
    let time_remaining_seconds = match state.get_time_remaining(now) {
        Some(v) => v,
        None => 0,
    };
    SessionStatus {
        phase: state.phase,
        time_remaining_seconds,
        periods_kind: match state.params.periods {
            RemainingPeriods::Unlimited => PeriodsKind::Unlimited,
            RemainingPeriods::N(_) => PeriodsKind::Limited,
        },
        periods_value: state.params.periods.unwrap_or(0),
    }
}

/// A status query right after a start request reports the work phase and
/// nearly the full work length: with one minute of work requested at
/// instant `now` and the query following within a second, the remaining
/// time reads 59 or 60 seconds.
pub proof fn lemma_status_right_after_start(
    periods: u32,
    short_break_min: u32,
    long_break_min: u32,
    short_breaks_before_long: u32,
    now: u64,
    later: u64,
)
    requires
        now <= later <= now + 1,
    ensures
        ({
            let started = spec_started(
                spec_session_from_minutes(
                    periods,
                    1u32,
                    short_break_min,
                    long_break_min,
                    short_breaks_before_long,
                ),
                now,
            );
            &&& started.phase is Working
            &&& spec_time_remaining(started, later) matches Some(v) && 59 <= v <= 60
        }),
{
}

} // verus!
