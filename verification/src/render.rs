//! Human-facing text for the timer's answers: the `MM:SS` rendering of a
//! remaining time, the one-word label of a phase, the line a status query
//! prints, and the message a desktop notification carries. Everything here
//! is plain computation on plain values; printing and delivering are the
//! caller's business.

use vstd::prelude::*;
use vstd::string::StringExecFns;

use crate::state::PomodoroPhase;

verus! {

/// The character for one decimal digit.
pub open spec fn spec_digit_char(d: nat) -> char {
    if d == 0 {
        '0'
    } else if d == 1 {
        '1'
    } else if d == 2 {
        '2'
    } else if d == 3 {
        '3'
    } else if d == 4 {
        '4'
    } else if d == 5 {
        '5'
    } else if d == 6 {
        '6'
    } else if d == 7 {
        '7'
    } else if d == 8 {
        '8'
    } else {
        '9'
    }
}

/// The decimal digits of `n`, most significant first, without leading
/// zeros (a lone zero for zero itself).
pub open spec fn spec_decimal(n: nat) -> Seq<char>
    decreases n,
{
    if n < 10 {
        seq![spec_digit_char(n)]
    } else {
        spec_decimal(n / 10) + seq![spec_digit_char(n % 10)]
    }
}

/// The decimal digits of `n`, zero-padded on the left to at least two
/// digits, as `{:02}` formatting renders a number.
pub open spec fn spec_two_digit(n: nat) -> Seq<char> {
    if n < 10 {
        seq!['0'] + spec_decimal(n)
    } else {
        spec_decimal(n)
    }
}

/// The human-readable rendering of a remaining time in seconds: empty for
/// zero, else zero-padded minutes, a colon, and zero-padded seconds. The
/// minutes run past two digits when there are a hundred or more of them.
pub open spec fn spec_readable_remaining(time: u64) -> Seq<char> {
    if time == 0 {
        Seq::<char>::empty()
    } else {
        spec_two_digit((time / 60) as nat) + seq![':'] + spec_two_digit((time % 60) as nat)
    }
}

/// The one-word label of a phase, as the status line prints it.
pub open spec fn spec_phase_label(phase: PomodoroPhase) -> Seq<char> {
    match phase {
        PomodoroPhase::Stopped => "stopped"@,
        PomodoroPhase::Working => "working"@,
        PomodoroPhase::ShortBreak => "short-break"@,
        PomodoroPhase::LongBreak => "long-break"@,
    }
}

/// The message a desktop notification carries when the given phase is
/// entered.
pub open spec fn spec_notification_message(phase: PomodoroPhase) -> Seq<char> {
    match phase {
        PomodoroPhase::Stopped => "Session's over! Go rest!"@,
        PomodoroPhase::Working => "Back to work!"@,
        PomodoroPhase::ShortBreak => "Short break started, stand up and stretch!"@,
        PomodoroPhase::LongBreak => "Long break started, have some rest!"@,
    }
}

/// The string of one decimal digit.
fn digit_str(d: u64) -> (r: &'static str)
    requires
        d < 10,
    ensures
        r@ == seq![spec_digit_char(d as nat)],
{
    if d == 0 {
        proof {
            reveal_strlit("0");
            assert("0"@ =~= seq![spec_digit_char(0)]);
        }
        "0"
    } else if d == 1 {
        proof {
            reveal_strlit("1");
            assert("1"@ =~= seq![spec_digit_char(1)]);
        }
        "1"
    } else if d == 2 {
        proof {
            reveal_strlit("2");
            assert("2"@ =~= seq![spec_digit_char(2)]);
        }
        "2"
    } else if d == 3 {
        proof {
            reveal_strlit("3");
            assert("3"@ =~= seq![spec_digit_char(3)]);
        }
        "3"
    } else if d == 4 {
        proof {
            reveal_strlit("4");
            assert("4"@ =~= seq![spec_digit_char(4)]);
        }
        "4"
    } else if d == 5 {
        proof {
            reveal_strlit("5");
            assert("5"@ =~= seq![spec_digit_char(5)]);
        }
        "5"
    } else if d == 6 {
        proof {
            reveal_strlit("6");
            assert("6"@ =~= seq![spec_digit_char(6)]);
        }
        "6"
    } else if d == 7 {
        proof {
            reveal_strlit("7");
            assert("7"@ =~= seq![spec_digit_char(7)]);
        }
        "7"
    } else if d == 8 {
        proof {
            reveal_strlit("8");
            assert("8"@ =~= seq![spec_digit_char(8)]);
        }
        "8"
    } else {
        proof {
            reveal_strlit("9");
            assert("9"@ =~= seq![spec_digit_char(9)]);
        }
        "9"
    }
}

/// Append the decimal digits of `n` to `out`.
fn append_decimal(out: &mut String, n: u64)
    ensures
        final(out)@ == old(out)@ + spec_decimal(n as nat),
    decreases n,
{
    if n < 10 {
        out.append(digit_str(n));
    } else {
        append_decimal(out, n / 10);
        out.append(digit_str(n % 10));
        proof {
            assert(old(out)@ + spec_decimal((n / 10) as nat) + seq![spec_digit_char((n % 10) as nat)]
                =~= old(out)@ + spec_decimal(n as nat));
        }
    }
}

/// Append the decimal digits of `n`, zero-padded to at least two digits.
fn append_two_digit(out: &mut String, n: u64)
    ensures
        final(out)@ == old(out)@ + spec_two_digit(n as nat),
{
    if n < 10 {
        proof {
            reveal_strlit("0");
        }
        out.append("0");
        append_decimal(out, n);
        proof {
            assert(old(out)@ + "0"@ + spec_decimal(n as nat) =~= old(out)@ + spec_two_digit(
                n as nat,
            ));
        }
    } else {
        append_decimal(out, n);
    }
}

/// Render a remaining time in seconds as zero-padded `MM:SS` (the minutes
/// uncapped), and as nothing at all when it is zero.
pub fn readable_remaining(time: u64) -> (r: String)
    ensures
        r@ == spec_readable_remaining(time),
{
    if time == 0 {
        let r = String::new();
        proof {
            assert(r@ =~= spec_readable_remaining(time));
        }
        r
    } else {
        let mut r = String::new();
        append_two_digit(&mut r, time / 60);
        proof {
            reveal_strlit(":");
        }
        r.append(":");
        append_two_digit(&mut r, time % 60);
        proof {
            assert(Seq::<char>::empty() + spec_two_digit((time / 60) as nat) + ":"@
                + spec_two_digit((time % 60) as nat) =~= spec_readable_remaining(time));
        }
        r
    }
}

/// The one-word label of a phase, as the status line prints it.
pub fn phase_label(phase: PomodoroPhase) -> (r: &'static str)
    ensures
        r@ == spec_phase_label(phase),
{
    match phase {
        PomodoroPhase::Stopped => "stopped",
        PomodoroPhase::Working => "working",
        PomodoroPhase::ShortBreak => "short-break",
        PomodoroPhase::LongBreak => "long-break",
    }
}

/// The message a desktop notification carries when the given phase is
/// entered.
pub fn notification_message(phase: PomodoroPhase) -> (r: &'static str)
    ensures
        r@ == spec_notification_message(phase),
{
    match phase {
        PomodoroPhase::Stopped => "Session's over! Go rest!",
        PomodoroPhase::Working => "Back to work!",
        PomodoroPhase::ShortBreak => "Short break started, stand up and stretch!",
        PomodoroPhase::LongBreak => "Long break started, have some rest!",
    }
}

/// The line a status query prints: the phase label, a space, and the
/// remaining time — rendered as nothing when the session is stopped or the
/// remaining time is zero.
pub fn state_line(phase: PomodoroPhase, time_remaining_seconds: u64) -> (r: String)
    ensures
        r@ == spec_phase_label(phase) + seq![' '] + (if phase is Stopped {
            Seq::<char>::empty()
        } else {
            spec_readable_remaining(time_remaining_seconds)
        }),
{
    let mut r = String::new();
    r.append(phase_label(phase));
    proof {
        reveal_strlit(" ");
    }
    r.append(" ");
    if !matches!(phase, PomodoroPhase::Stopped) {
        let rem = readable_remaining(time_remaining_seconds);
        r.append(rem.as_str());
    }
    proof {
        assert(" "@ =~= seq![' ']);
        assert(r@ =~= spec_phase_label(phase) + seq![' '] + (if phase is Stopped {
            Seq::<char>::empty()
        } else {
            spec_readable_remaining(time_remaining_seconds)
        }));
    }
    r
}

} // verus!
