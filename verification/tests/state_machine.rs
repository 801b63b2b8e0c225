use pomolib::state::{
    seconds_since, PomodoroPhase, PomodoroSession, PomodoroState, RemainingPeriods,
    TransitionResult, ONE_MINUTE,
};

fn default_state() -> PomodoroState {
    PomodoroState::default()
}

#[test]
fn start_enters_working_with_full_remaining() {
    let mut s = default_state();
    s.start(PomodoroSession::default(), 1000);
    assert_eq!(s.phase, PomodoroPhase::Working);
    assert_eq!(s.current_len, Some(1500));
    assert_eq!(s.current_started_at, Some(1000));
    assert_eq!(s.short_breaks_done, 0);
    assert_eq!(s.get_time_remaining(1000), Some(1500));
}

#[test]
fn stop_is_idempotent() {
    let mut s = default_state();
    s.start(PomodoroSession::default(), 42);
    s.stop();
    let once = s.clone();
    s.stop();
    assert_eq!(s, once);
    assert_eq!(s, default_state());
    assert_eq!(s.phase, PomodoroPhase::Stopped);
    assert_eq!(s.current_started_at, None);
    assert_eq!(s.current_len, None);
    assert_eq!(s.params, PomodoroSession::default());
}

#[test]
fn default_cycle_inserts_long_break_after_three_short() {
    let mut s = default_state();
    s.start(PomodoroSession::default(), 0);
    assert_eq!(s.phase, PomodoroPhase::Working);
    let expected = [
        PomodoroPhase::ShortBreak,
        PomodoroPhase::Working,
        PomodoroPhase::ShortBreak,
        PomodoroPhase::Working,
        PomodoroPhase::ShortBreak,
        PomodoroPhase::Working,
        PomodoroPhase::LongBreak,
        PomodoroPhase::Working,
    ];
    for phase in expected {
        let r = s.transition();
        assert_eq!(s.phase, phase);
        assert!(matches!(r, TransitionResult::NextTransitionIn(_)));
    }
    // The short-break counter stays at the threshold once reached, so every
    // further break in an unlimited session is a long one.
    let r = s.transition();
    assert_eq!(s.phase, PomodoroPhase::LongBreak);
    assert_eq!(r, TransitionResult::NextTransitionIn(1200));
}

#[test]
fn transition_reports_next_phase_length() {
    let mut s = default_state();
    s.start(PomodoroSession::default(), 0);
    assert_eq!(s.transition(), TransitionResult::NextTransitionIn(240));
    assert_eq!(s.phase, PomodoroPhase::ShortBreak);
    assert_eq!(s.current_len, Some(240));
    assert_eq!(s.transition(), TransitionResult::NextTransitionIn(1500));
    assert_eq!(s.phase, PomodoroPhase::Working);
    assert_eq!(s.current_len, Some(1500));
}

#[test]
fn bounded_session_ends_after_last_period() {
    let mut s = default_state();
    let params = PomodoroSession {
        periods: RemainingPeriods::N(1),
        ..PomodoroSession::default()
    };
    s.start(params, 7);
    let r = s.transition();
    assert_eq!(r, TransitionResult::Stopped);
    assert_eq!(s, default_state());
}

#[test]
fn two_period_session_takes_one_break_then_ends() {
    let mut s = default_state();
    let params = PomodoroSession {
        periods: RemainingPeriods::N(2),
        ..PomodoroSession::default()
    };
    s.start(params, 0);
    assert_eq!(s.transition(), TransitionResult::NextTransitionIn(240));
    assert_eq!(s.phase, PomodoroPhase::ShortBreak);
    assert_eq!(s.params.periods, RemainingPeriods::N(1));
    assert_eq!(s.transition(), TransitionResult::NextTransitionIn(1500));
    assert_eq!(s.phase, PomodoroPhase::Working);
    assert_eq!(s.transition(), TransitionResult::Stopped);
    assert_eq!(s, default_state());
}

#[test]
fn transition_from_stopped_resets_and_reports_stopped() {
    let mut s = default_state();
    assert_eq!(s.transition(), TransitionResult::Stopped);
    assert_eq!(s, default_state());
}

#[test]
fn overdue_phase_reports_zero_not_wrapped() {
    let mut s = default_state();
    s.start(PomodoroSession::default(), 1000);
    // 1500 seconds of work were configured; 3000 have elapsed.
    assert_eq!(s.get_time_remaining(4000), Some(0));
}

#[test]
fn remaining_follows_the_clock() {
    let mut s = default_state();
    s.start(PomodoroSession::default(), 1000);
    assert_eq!(s.get_time_remaining(1600), Some(900));
    assert_eq!(s.get_time_remaining(2500), Some(0));
}

#[test]
fn remaining_is_absent_when_stopped() {
    let s = default_state();
    assert_eq!(s.get_time_remaining(12345), None);
}

#[test]
fn unwrap_or_takes_count_or_default() {
    assert_eq!(RemainingPeriods::Unlimited.unwrap_or(9), 9);
    assert_eq!(RemainingPeriods::N(4).unwrap_or(9), 4);
    assert_eq!(RemainingPeriods::N(0).unwrap_or(9), 0);
}

#[test]
fn decrement_consumes_one_period() {
    let mut p = RemainingPeriods::N(3);
    p.decrement();
    assert_eq!(p, RemainingPeriods::N(2));
    let mut u = RemainingPeriods::Unlimited;
    u.decrement();
    assert_eq!(u, RemainingPeriods::Unlimited);
}

#[test]
fn seconds_since_counts_whole_seconds() {
    assert_eq!(seconds_since(100, 40), 60);
    assert_eq!(seconds_since(40, 40), 0);
    assert_eq!(ONE_MINUTE, 60);
}

#[test]
fn phase_len_reads_the_configured_length() {
    let mut s = PomodoroState::default();
    assert_eq!(s.phase_len(), 0);
    s.start(PomodoroSession::default(), 0);
    assert_eq!(s.phase_len(), 1500);
    s.transition();
    assert_eq!(s.phase_len(), 240);
}

#[test]
fn done_only_at_zero() {
    assert!(RemainingPeriods::N(0).done());
    assert!(!RemainingPeriods::N(1).done());
    assert!(!RemainingPeriods::Unlimited.done());
}
