//! What a drawing of the timer needs beyond the numbers: the text of the
//! clock, the buttons on offer and the shape of the progress ring.

use crate::progress::Ratio;
use crate::state::{Command, TimerStatus};
use crate::time_spec::TimeSpec;
use vstd::prelude::*;
use vstd::string::StringExecFns;

verus! {

/// The largest preset a quick-add button may stand for: 99:59:59 in the
/// digit encoding.
pub const MAX_PRESET: u32 = 995_959;

/// The character of a decimal digit.
pub open spec fn digit_char(digit: int) -> char {
    seq!['0', '1', '2', '3', '4', '5', '6', '7', '8', '9'][digit]
}

/// A number below 256 in decimal, with no leading zero.
pub open spec fn plain_number(n: int) -> Seq<char> {
    if n < 10 {
        seq![digit_char(n)]
    } else if n < 100 {
        seq![digit_char(n / 10), digit_char(n % 10)]
    } else {
        seq![digit_char(n / 100), digit_char((n / 10) % 10), digit_char(n % 10)]
    }
}

/// A number below 256 in decimal, at least two digits wide.
pub open spec fn padded_number(n: int) -> Seq<char> {
    if n < 10 {
        seq!['0', digit_char(n)]
    } else {
        plain_number(n)
    }
}

/// Whether the clock is drawn in its short form, as it is while the timer
/// counts and once it has run out.
pub open spec fn counts(status: TimerStatus) -> bool {
    status == TimerStatus::Running || status == TimerStatus::Finished
}

/// The text of the clock.
///
/// In the long form every field is two digits wide: `00:05:07`. In the short
/// form leading fields that are zero are left out and the first field shown
/// is not padded: `1:05:07`, `5:07`, `0:07`.
pub open spec fn clock_text(time: TimeSpec, short: bool) -> Seq<char> {
    if !short {
        padded_number(time.hours as int) + seq![':'] + padded_number(time.minutes as int) + seq![
            ':',
        ] + padded_number(time.seconds as int)
    } else if time.hours > 0 {
        plain_number(time.hours as int) + seq![':'] + padded_number(time.minutes as int) + seq![
            ':',
        ] + padded_number(time.seconds as int)
    } else if time.minutes > 0 {
        plain_number(time.minutes as int) + seq![':'] + padded_number(time.seconds as int)
    } else {
        seq!['0', ':'] + padded_number(time.seconds as int)
    }
}

/// The duration a quick-add button of `amount` adds: the amount, capped at
/// the largest preset, read as digits and carried.
pub open spec fn preset_time(amount: u32) -> TimeSpec {
    TimeSpec::of_raw(
        if amount > MAX_PRESET {
            MAX_PRESET as int
        } else {
            amount as int
        },
    ).carried()
}

/// The text of one decimal digit.
fn digit_text(digit: u8) -> (text: &'static str)
    requires
        digit <= 9,
    ensures
        text@ == seq![digit_char(digit as int)],
{
    proof {
        reveal_strlit("0");
        reveal_strlit("1");
        reveal_strlit("2");
        reveal_strlit("3");
        reveal_strlit("4");
        reveal_strlit("5");
        reveal_strlit("6");
        reveal_strlit("7");
        reveal_strlit("8");
        reveal_strlit("9");
    }
    let text = match digit {
        0 => "0",
        1 => "1",
        2 => "2",
        3 => "3",
        4 => "4",
        5 => "5",
        6 => "6",
        7 => "7",
        8 => "8",
        _ => "9",
    };
    assert(text@ =~= seq![digit_char(digit as int)]);
    text
}

/// Writes `n` in decimal with no leading zero.
fn push_plain(out: &mut String, n: u8)
    ensures
        final(out)@ == old(out)@ + plain_number(n as int),
{
    if n >= 100 {
        out.append(digit_text(n / 100));
    }
    if n >= 10 {
        out.append(digit_text((n / 10) % 10));
    }
    out.append(digit_text(n % 10));
    assert(out@ =~= old(out)@ + plain_number(n as int));
}

/// Writes `n` in decimal, at least two digits wide.
fn push_padded(out: &mut String, n: u8)
    ensures
        final(out)@ == old(out)@ + padded_number(n as int),
{
    if n < 10 {
        out.append(digit_text(0));
    }
    push_plain(out, n);
    assert(out@ =~= old(out)@ + padded_number(n as int));
}

/// Writes a colon.
fn push_colon(out: &mut String)
    ensures
        final(out)@ == old(out)@ + seq![':'],
{
    proof {
        reveal_strlit(":");
    }
    out.append(":");
    assert(out@ =~= old(out)@ + seq![':']);
}

/// Writes the clock after what `out` holds already.
fn push_clock(out: &mut String, time: TimeSpec, short: bool)
    ensures
        final(out)@ == old(out)@ + clock_text(time, short),
{
    if !short || time.hours > 0 {
        if short {
            push_plain(out, time.hours);
        } else {
            push_padded(out, time.hours);
        }
        push_colon(out);
        push_padded(out, time.minutes);
    } else if time.minutes > 0 {
        push_plain(out, time.minutes);
    } else {
        push_plain(out, 0);
    }
    push_colon(out);
    push_padded(out, time.seconds);
    assert(out@ =~= old(out)@ + clock_text(time, short));
}

/// The text of the clock: short while the timer counts or has run out, long
/// while a duration is being typed or the timer is paused.
pub fn time_label(time: TimeSpec, status: TimerStatus) -> (label: String)
    ensures
        label@ == clock_text(time, counts(status)),
{
    let short = match status {
        TimerStatus::Running | TimerStatus::Finished => true,
        _ => false,
    };
    let mut label = String::new();
    push_clock(&mut label, time, short);
    assert(label@ =~= clock_text(time, short));
    label
}

/// The amount a quick-add button adds: what it was made for, capped at the
/// largest preset.
pub fn clamp_preset(amount: u32) -> (capped: u32)
    ensures
        capped == if amount > MAX_PRESET {
            MAX_PRESET
        } else {
            amount
        },
{
    if amount > MAX_PRESET {
        MAX_PRESET
    } else {
        amount
    }
}

/// The text on a quick-add button: a plus sign and the duration it adds, in
/// the short form of the clock.
pub fn quick_add_label(amount: u32) -> (label: String)
    ensures
        label@ == seq!['+'] + clock_text(preset_time(amount), true),
{
    let time = TimeSpec::from_raw(clamp_preset(amount)).normalize();
    proof {
        reveal_strlit("+");
    }
    let mut label = String::from_str("+");
    assert(label@ =~= seq!['+']);
    push_clock(&mut label, time, true);
    label
}

/// What the start button shows.
#[derive(Clone, Copy, Debug, PartialEq, Eq, Structural)]
pub enum ToggleLabel {
    /// Set the timer going.
    Play,
    /// Hold the timer.
    Pause,
}

/// The start button: what it shows and what a press of it asks for.
#[derive(Clone, Copy, Debug, PartialEq, Eq, Structural)]
pub struct ToggleButton {
    pub label: ToggleLabel,
    pub command: Command,
}

/// The start button for a timer in `status`: it starts an idle timer, pauses
/// a running one and resumes a paused one. A finished timer has none.
pub fn toggle_button(status: TimerStatus) -> (button: Option<ToggleButton>)
    ensures
        button == match status {
            TimerStatus::Idle => Some(
                ToggleButton { label: ToggleLabel::Play, command: Command::Start },
            ),
            TimerStatus::Running => Some(
                ToggleButton { label: ToggleLabel::Pause, command: Command::Pause },
            ),
            TimerStatus::Paused => Some(
                ToggleButton { label: ToggleLabel::Play, command: Command::Resume },
            ),
            TimerStatus::Finished => None::<ToggleButton>,
        },
{
    match status {
        TimerStatus::Idle => Some(
            ToggleButton { label: ToggleLabel::Play, command: Command::Start },
        ),
        TimerStatus::Running => Some(
            ToggleButton { label: ToggleLabel::Pause, command: Command::Pause },
        ),
        TimerStatus::Paused => Some(
            ToggleButton { label: ToggleLabel::Play, command: Command::Resume },
        ),
        TimerStatus::Finished => None,
    }
}

/// The reset button for a timer in `status`: every timer has one but an idle
/// timer, which has nothing to go back to.
pub fn reset_button(status: TimerStatus) -> (button: Option<Command>)
    ensures
        button == if status == TimerStatus::Idle {
            None::<Command>
        } else {
            Some(Command::Reset)
        },
{
    match status {
        TimerStatus::Idle => None,
        _ => Some(Command::Reset),
    }
}

/// How the progress ring is drawn.
#[derive(Clone, Copy, Debug, PartialEq, Eq, Structural)]
pub enum RingShape {
    /// A closed circle.
    Full,
    /// An arc from the top, clockwise; `large` when it spans more than half
    /// the circle.
    Arc { large: bool },
}

/// The shape of the ring for a progress: a closed circle when nothing or
/// everything remains, and otherwise an arc, the large one when more than
/// half remains.
pub fn ring_shape(progress: Ratio) -> (shape: RingShape)
    ensures
        shape == if progress.part == 0 || progress.part >= progress.whole {
            RingShape::Full
        } else {
            RingShape::Arc { large: 2 * progress.part > progress.whole }
        },
{
    if progress.part == 0 || progress.part >= progress.whole {
        RingShape::Full
    } else {
        RingShape::Arc { large: progress.part > progress.whole - progress.part }
    }
}

} // verus!
