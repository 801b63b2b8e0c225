use pomolib::service::{
    service_get_state, service_start, service_stop, session_from_minutes, PeriodsKind, StartError,
};
use pomolib::state::{PomodoroPhase, PomodoroSession, PomodoroState, RemainingPeriods};

#[test]
fn zero_fields_become_defaults() {
    let s = session_from_minutes(0, 0, 0, 0, 0);
    assert_eq!(s, PomodoroSession::default());
    assert_eq!(s.periods, RemainingPeriods::Unlimited);
    assert_eq!(s.work_len, 1500);
    assert_eq!(s.short_break_len, 240);
    assert_eq!(s.long_break_len, 1200);
    assert_eq!(s.short_breaks_before_long, 3);
}

#[test]
fn minutes_convert_to_seconds() {
    let s = session_from_minutes(2, 1, 2, 3, 4);
    assert_eq!(s.periods, RemainingPeriods::N(2));
    assert_eq!(s.work_len, 60);
    assert_eq!(s.short_break_len, 120);
    assert_eq!(s.long_break_len, 180);
    assert_eq!(s.short_breaks_before_long, 4);
}

#[test]
fn start_answers_with_initial_wait() {
    let mut s = PomodoroState::default();
    let r = service_start(&mut s, 100, 0, 25, 0, 0, 0);
    assert_eq!(r, Ok(1500));
    assert_eq!(s.phase, PomodoroPhase::Working);
    assert_eq!(s.current_started_at, Some(100));
}

#[test]
fn start_while_working_is_rejected_and_changes_nothing() {
    let mut s = PomodoroState::default();
    service_start(&mut s, 100, 3, 10, 0, 0, 0).unwrap();
    let before = s.clone();
    let r = service_start(&mut s, 200, 0, 1, 1, 1, 1);
    assert_eq!(r, Err(StartError::AlreadyRunning));
    assert_eq!(s, before);
    assert_eq!(s.current_started_at, Some(100));
    assert_eq!(s.params.work_len, 600);
}

#[test]
fn start_during_break_clobbers_the_session() {
    // Only the work phase blocks a new start: a start during a break
    // replaces the session.
    let mut s = PomodoroState::default();
    service_start(&mut s, 0, 0, 0, 0, 0, 0).unwrap();
    s.transition();
    assert_eq!(s.phase, PomodoroPhase::ShortBreak);
    let r = service_start(&mut s, 500, 0, 1, 0, 0, 0);
    assert_eq!(r, Ok(60));
    assert_eq!(s.phase, PomodoroPhase::Working);
    assert_eq!(s.current_started_at, Some(500));
}

#[test]
fn get_state_right_after_start_reports_nearly_full_minute() {
    let mut s = PomodoroState::default();
    service_start(&mut s, 100, 0, 1, 0, 0, 0).unwrap();
    let at_once = service_get_state(&s, 100);
    assert_eq!(at_once.phase, PomodoroPhase::Working);
    assert_eq!(at_once.time_remaining_seconds, 60);
    assert_eq!(at_once.periods_kind, PeriodsKind::Unlimited);
    assert_eq!(at_once.periods_value, 0);
    let a_second_later = service_get_state(&s, 101);
    assert_eq!(a_second_later.phase, PomodoroPhase::Working);
    assert_eq!(a_second_later.time_remaining_seconds, 59);
}

#[test]
fn get_state_when_stopped_reports_zero() {
    let s = PomodoroState::default();
    let st = service_get_state(&s, 99);
    assert_eq!(st.phase, PomodoroPhase::Stopped);
    assert_eq!(st.time_remaining_seconds, 0);
    assert_eq!(st.periods_kind, PeriodsKind::Unlimited);
    assert_eq!(st.periods_value, 0);
}

#[test]
fn get_state_reports_bounded_periods() {
    let mut s = PomodoroState::default();
    service_start(&mut s, 0, 2, 0, 0, 0, 0).unwrap();
    let st = service_get_state(&s, 1);
    assert_eq!(st.periods_kind, PeriodsKind::Limited);
    assert_eq!(st.periods_value, 2);
}

#[test]
fn service_stop_resets_to_idle() {
    let mut s = PomodoroState::default();
    service_start(&mut s, 5, 0, 0, 0, 0, 0).unwrap();
    service_stop(&mut s);
    assert_eq!(s, PomodoroState::default());
    service_stop(&mut s);
    assert_eq!(s, PomodoroState::default());
}
