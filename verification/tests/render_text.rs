use pomolib::render::{notification_message, phase_label, readable_remaining, state_line};
use pomolib::state::PomodoroPhase;

#[test]
fn readable_remaining_is_empty_for_zero() {
    assert_eq!(readable_remaining(0), "");
}

#[test]
fn readable_remaining_pads_minutes_and_seconds() {
    assert_eq!(readable_remaining(300), "05:00");
    assert_eq!(readable_remaining(59), "00:59");
    assert_eq!(readable_remaining(60), "01:00");
    assert_eq!(readable_remaining(61), "01:01");
    assert_eq!(readable_remaining(1), "00:01");
}

#[test]
fn readable_remaining_minutes_run_past_two_digits() {
    assert_eq!(readable_remaining(3599), "59:59");
    assert_eq!(readable_remaining(6000), "100:00");
    assert_eq!(readable_remaining(86400), "1440:00");
}

#[test]
fn phase_labels() {
    assert_eq!(phase_label(PomodoroPhase::Stopped), "stopped");
    assert_eq!(phase_label(PomodoroPhase::Working), "working");
    assert_eq!(phase_label(PomodoroPhase::ShortBreak), "short-break");
    assert_eq!(phase_label(PomodoroPhase::LongBreak), "long-break");
}

#[test]
fn notification_messages() {
    assert_eq!(
        notification_message(PomodoroPhase::Stopped),
        "Session's over! Go rest!"
    );
    assert_eq!(notification_message(PomodoroPhase::Working), "Back to work!");
    assert_eq!(
        notification_message(PomodoroPhase::ShortBreak),
        "Short break started, stand up and stretch!"
    );
    assert_eq!(
        notification_message(PomodoroPhase::LongBreak),
        "Long break started, have some rest!"
    );
}

#[test]
fn state_line_joins_label_and_remaining() {
    assert_eq!(state_line(PomodoroPhase::Working, 300), "working 05:00");
    assert_eq!(state_line(PomodoroPhase::ShortBreak, 59), "short-break 00:59");
}

#[test]
fn state_line_renders_nothing_for_stopped_or_zero() {
    assert_eq!(state_line(PomodoroPhase::Stopped, 0), "stopped ");
    assert_eq!(state_line(PomodoroPhase::Stopped, 77), "stopped ");
    assert_eq!(state_line(PomodoroPhase::Working, 0), "working ");
}
