//! The timer as a state machine: its states, the commands it takes, and what
//! each command does to it.
//!
//! Nothing here runs; this is what the engine's contracts are stated in.

use crate::digits::{edited, edited_window, lemma_edits_keep_window, window, DigitBuffer, Edit};
use crate::progress::Ratio;
use crate::session::{
    lemma_elapsed_monotonic, lemma_resumed_runs_on, lemma_stop_then_resume_keeps_remaining,
    CountdownSession,
};
use crate::time_spec::{
    lemma_borrowed_by_duration, lemma_borrowed_by_is_of_secs, lemma_normalize_bounds,
    lemma_normalize_duration, lemma_normalize_idempotent, lemma_of_secs_duration,
    lemma_of_secs_inverts, TimeSpec, MAX_TOTAL_SECS, RAW_LIMIT,
};
use vstd::prelude::*;

verus! {

/// Where the timer is in its life.
#[derive(Clone, Copy, Debug, PartialEq, Eq, Structural)]
pub enum TimerStatus {
    /// Waiting for a duration to be typed and started.
    Idle,
    /// Counting down.
    Running,
    /// Stopped halfway, ready to go on.
    Paused,
    /// Run out.
    Finished,
}

/// What a command asks of the timer.
#[derive(Clone, Copy, Debug, PartialEq, Eq, Structural)]
pub enum Command {
    /// A digit, 0 to 9, is typed.
    Digit(u8),
    /// The newest digit is erased.
    Backspace,
    /// A preset amount, in the digit encoding, is added to what was typed.
    Add(u32),
    /// Start the countdown.
    Start,
    /// Pause the countdown.
    Pause,
    /// Go on with a paused countdown.
    Resume,
    /// Back to the duration that was typed.
    Reset,
    /// The one key that starts, pauses, resumes or resets, whichever fits.
    Confirm,
    /// The scheduler looks at the clock.
    Poll,
}

/// What is to happen to the background task that polls the clock.
#[derive(Clone, Copy, Debug, PartialEq, Eq, Structural)]
pub enum TaskCommand {
    /// Leave it as it is.
    Keep,
    /// Start one; none is alive.
    Spawn,
    /// Stop the one that is alive.
    Cancel,
}

/// What the caller has to do after a command.
#[derive(Clone, Copy, Debug, PartialEq, Eq, Structural)]
pub struct Effects {
    /// Tell whoever draws the timer to read it again.
    pub notify: bool,
    /// Start or stop the polling task.
    pub task: TaskCommand,
    /// The countdown has just run out: signal completion, once.
    pub finished: bool,
}

impl Effects {
    /// Nothing to do: the command did not apply.
    pub open spec fn nothing() -> Effects {
        Effects { notify: false, task: TaskCommand::Keep, finished: false }
    }

    /// The timer changed; the polling task is to be handled as `task` says.
    pub open spec fn changed(task: TaskCommand) -> Effects {
        Effects { notify: true, task, finished: false }
    }

    /// The countdown ran out.
    pub open spec fn completed() -> Effects {
        Effects { notify: true, task: TaskCommand::Cancel, finished: true }
    }
}

/// The whole state of the timer.
pub struct TimerState {
    pub status: TimerStatus,
    /// The number the typed digits spell.
    pub raw: nat,
    /// What the display shows.
    pub display: TimeSpec,
    /// The clock bookkeeping of the countdown.
    pub session: CountdownSession,
    /// Whole seconds of the countdown already taken off the display.
    pub applied_secs: nat,
}

/// A state and what the caller owes after reaching it.
pub struct Step {
    pub next: TimerState,
    pub effects: Effects,
}

impl TimerState {
    /// A fresh timer: idle, nothing typed, 00:00:00.
    pub open spec fn initial() -> TimerState {
        TimerState {
            status: TimerStatus::Idle,
            raw: 0,
            display: TimeSpec { hours: 0, minutes: 0, seconds: 0 },
            session: CountdownSession::cleared(),
            applied_secs: 0,
        }
    }

    /// What holds of every state the timer can reach.
    ///
    /// - The typed digits are at most six.
    /// - The clock is anchored exactly while running.
    /// - While idle there is no countdown, and the display shows the typed
    ///   digits, carried or not.
    /// - Outside idle a duration of at least one second and at most
    ///   99:59:59 is frozen, and the display is normalized.
    /// - During a countdown fewer whole seconds have been taken off the
    ///   display than the frozen duration has.
    /// - When finished the whole duration has run.
    pub open spec fn well_formed(self) -> bool {
        &&& self.raw < RAW_LIMIT
        &&& (self.session.anchor is Some <==> self.status == TimerStatus::Running)
        &&& match self.status {
            TimerStatus::Idle => {
                &&& self.session == CountdownSession::cleared()
                &&& self.applied_secs == 0
                &&& (self.display == TimeSpec::of_raw(self.raw as int) || self.display
                    == TimeSpec::of_raw(self.raw as int).carried())
            },
            TimerStatus::Running | TimerStatus::Paused => {
                &&& 0 < self.session.base_secs <= MAX_TOTAL_SECS
                &&& self.applied_secs < self.session.base_secs
                &&& self.display.is_normalized()
            },
            TimerStatus::Finished => {
                &&& 0 < self.session.base_secs <= MAX_TOTAL_SECS
                &&& self.applied_secs == self.session.base_secs
                &&& self.display.is_normalized()
                &&& self.session.banked_ms >= self.session.base_ms()
            },
        }
    }

    /// Whether the display is in step with the countdown: the frozen
    /// duration is that of the typed digits, carried and clamped, and the
    /// display shows it less the whole seconds already taken off. A
    /// countdown begins in step and stays so until a preset is added to it
    /// while it is paused or finished. An idle timer has no countdown to be
    /// out of step with.
    pub open spec fn in_step(self) -> bool {
        self.status != TimerStatus::Idle ==> {
            &&& self.session.base_secs == TimeSpec::of_raw(self.raw as int).carried().total_secs()
            &&& self.display == TimeSpec::of_secs(self.session.base_secs - self.applied_secs)
        }
    }

    /// Exactly while running a polling task is alive.
    pub open spec fn task_alive(self) -> bool {
        self.status == TimerStatus::Running
    }

    /// The state left as it is, with nothing to do.
    pub open spec fn ignored(self) -> Step {
        Step { next: self, effects: Effects::nothing() }
    }

    /// A digit is typed. Only an idle timer takes it: the buffer shifts and
    /// the display shows the digits as typed, uncarried.
    pub open spec fn typed(self, digit: u8) -> Step {
        if self.status == TimerStatus::Idle {
            let raw = DigitBuffer::pushed(self.raw, digit as nat);
            Step {
                next: TimerState { raw, display: TimeSpec::of_raw(raw as int), ..self },
                effects: Effects::changed(TaskCommand::Keep),
            }
        } else {
            self.ignored()
        }
    }

    /// The newest digit is erased. Only an idle timer does it.
    pub open spec fn erased(self) -> Step {
        if self.status == TimerStatus::Idle {
            let raw = DigitBuffer::popped(self.raw);
            Step {
                next: TimerState { raw, display: TimeSpec::of_raw(raw as int), ..self },
                effects: Effects::changed(TaskCommand::Keep),
            }
        } else {
            self.ignored()
        }
    }

    /// A preset is added to the typed digits and the display shows the sum,
    /// carried and clamped. Every timer takes it but a running one, whose
    /// digits are locked; the state it is in, its clock and the seconds
    /// taken off stay as they are.
    pub open spec fn added(self, extra: u32) -> Step {
        if self.status != TimerStatus::Running {
            let raw = DigitBuffer::added(self.raw, extra as nat);
            Step {
                next: TimerState { raw, display: TimeSpec::of_raw(raw as int).carried(), ..self },
                effects: Effects::changed(TaskCommand::Keep),
            }
        } else {
            self.ignored()
        }
    }

    /// Start. An idle timer normalizes its display and freezes the duration
    /// it shows; an empty duration leaves it idle, any other sets it running
    /// from `now` with a polling task. No other state takes the command.
    pub open spec fn started(self, now: u64) -> Step {
        if self.status == TimerStatus::Idle {
            let display = self.display.carried();
            if display.total_secs() == 0 {
                Step {
                    next: TimerState { display, ..self },
                    effects: Effects::changed(TaskCommand::Keep),
                }
            } else {
                Step {
                    next: TimerState {
                        status: TimerStatus::Running,
                        raw: self.raw,
                        display,
                        session: CountdownSession::begun(display.total_secs() as u32, now),
                        applied_secs: 0,
                    },
                    effects: Effects::changed(TaskCommand::Spawn),
                }
            }
        } else {
            self.ignored()
        }
    }

    /// Pause. A running timer banks the time it has run, drops the anchor
    /// and has its polling task stopped. No other state takes the command.
    pub open spec fn paused(self, now: u64) -> Step {
        if self.status == TimerStatus::Running {
            Step {
                next: TimerState {
                    status: TimerStatus::Paused,
                    session: self.session.stopped(now),
                    ..self
                },
                effects: Effects::changed(TaskCommand::Cancel),
            }
        } else {
            self.ignored()
        }
    }

    /// Resume. A paused timer runs on from `now` with what it had banked and
    /// a new polling task. No other state takes the command.
    pub open spec fn resumed(self, now: u64) -> Step {
        if self.status == TimerStatus::Paused {
            Step {
                next: TimerState {
                    status: TimerStatus::Running,
                    session: self.session.resumed(now),
                    ..self
                },
                effects: Effects::changed(TaskCommand::Spawn),
            }
        } else {
            self.ignored()
        }
    }

    /// Reset. Any timer but an idle one goes back to idle and shows the
    /// digits that were typed, uncarried; a polling task that is alive is
    /// stopped.
    pub open spec fn reset(self) -> Step {
        if self.status == TimerStatus::Idle {
            self.ignored()
        } else {
            Step {
                next: TimerState {
                    status: TimerStatus::Idle,
                    raw: self.raw,
                    display: TimeSpec::of_raw(self.raw as int),
                    session: CountdownSession::cleared(),
                    applied_secs: 0,
                },
                effects: Effects::changed(
                    if self.status == TimerStatus::Running {
                        TaskCommand::Cancel
                    } else {
                        TaskCommand::Keep
                    },
                ),
            }
        }
    }

    /// Start or resume, whichever fits: an idle timer starts, a paused one
    /// resumes, any other is left alone.
    pub open spec fn set_going(self, now: u64) -> Step {
        match self.status {
            TimerStatus::Idle => self.started(now),
            TimerStatus::Paused => self.resumed(now),
            _ => self.ignored(),
        }
    }

    /// The display of an idle timer is carried and clamped.
    pub open spec fn normalized(self) -> Step {
        if self.status == TimerStatus::Idle {
            Step {
                next: TimerState { display: self.display.carried(), ..self },
                effects: Effects::changed(TaskCommand::Keep),
            }
        } else {
            self.ignored()
        }
    }

    /// The display of an idle timer shows the typed digits, uncarried.
    pub open spec fn refreshed(self) -> Step {
        if self.status == TimerStatus::Idle {
            Step {
                next: TimerState { display: TimeSpec::of_raw(self.raw as int), ..self },
                effects: Effects::changed(TaskCommand::Keep),
            }
        } else {
            self.ignored()
        }
    }

    /// The one confirm key: start when idle, pause when running, resume when
    /// paused, reset when finished.
    pub open spec fn confirmed(self, now: u64) -> Step {
        match self.status {
            TimerStatus::Idle => self.started(now),
            TimerStatus::Running => self.paused(now),
            TimerStatus::Paused => self.resumed(now),
            TimerStatus::Finished => self.reset(),
        }
    }

    /// The scheduler looks at the clock. Only a running timer cares.
    ///
    /// If the whole duration has run, the display is forced to 00:00:00, the
    /// timer is finished, the time run is banked, the task is stopped and
    /// completion is signalled. Otherwise every whole second that has run
    /// and is not yet off the display is borrowed from it, however many
    /// there are.
    pub open spec fn polled(self, now: u64) -> Step {
        if self.status == TimerStatus::Running {
            if self.session.spent_at(now) {
                Step {
                    next: TimerState {
                        status: TimerStatus::Finished,
                        raw: self.raw,
                        display: TimeSpec { hours: 0, minutes: 0, seconds: 0 },
                        session: self.session.stopped(now),
                        applied_secs: self.session.base_secs as nat,
                    },
                    effects: Effects::completed(),
                }
            } else {
                let whole = (self.session.elapsed_at(now) / 1000) as nat;
                if whole > self.applied_secs {
                    Step {
                        next: TimerState {
                            display: self.display.borrowed_by((whole - self.applied_secs) as nat),
                            applied_secs: whole,
                            ..self
                        },
                        effects: Effects::changed(TaskCommand::Keep),
                    }
                } else {
                    self.ignored()
                }
            }
        } else {
            self.ignored()
        }
    }

    /// What a command does.
    pub open spec fn step(self, command: Command, now: u64) -> Step {
        match command {
            Command::Digit(digit) => self.typed(digit),
            Command::Backspace => self.erased(),
            Command::Add(extra) => self.added(extra),
            Command::Start => self.started(now),
            Command::Pause => self.paused(now),
            Command::Resume => self.resumed(now),
            Command::Reset => self.reset(),
            Command::Confirm => self.confirmed(now),
            Command::Poll => self.polled(now),
        }
    }

    /// Milliseconds left on the countdown at clock reading `now`.
    pub open spec fn remaining_at(self, now: u64) -> int {
        self.session.remaining_at(now)
    }

    /// How full the ring is at clock reading `now`: full when idle, empty
    /// when finished, and in between what remains out of the frozen
    /// duration.
    pub open spec fn progress_at(self, now: u64) -> Ratio {
        match self.status {
            TimerStatus::Idle => Ratio::one(),
            TimerStatus::Finished => Ratio::zero(),
            TimerStatus::Running | TimerStatus::Paused => Ratio {
                part: self.session.remaining_at(now) as u64,
                whole: self.session.base_ms() as u64,
            },
        }
    }
}

/// A poll keeps a well-formed timer well formed.
pub proof fn lemma_polled_well_formed(s: TimerState, now: u64)
    requires
        s.well_formed(),
    ensures
        s.polled(now).next.well_formed(),
{
    if s.status == TimerStatus::Running && !s.session.spent_at(now) {
        let whole = (s.session.elapsed_at(now) / 1000) as nat;
        assert(whole < s.session.base_secs);
        if whole > s.applied_secs {
            lemma_borrowed_by_duration(s.display, (whole - s.applied_secs) as nat);
        }
    }
}

/// Whatever the command and whenever it comes, a well-formed timer stays
/// well formed.
pub proof fn lemma_step_keeps_well_formed(s: TimerState, command: Command, now: u64)
    requires
        s.well_formed(),
        command matches Command::Digit(digit) ==> digit <= 9,
    ensures
        s.step(command, now).next.well_formed(),
{
    match command {
        Command::Start => lemma_started_well_formed(s, now),
        Command::Confirm => {
            if s.status == TimerStatus::Idle {
                lemma_started_well_formed(s, now);
            }
        },
        Command::Poll => lemma_polled_well_formed(s, now),
        Command::Add(extra) => lemma_added_well_formed(s, extra),
        _ => {},
    }
}

/// Adding a preset keeps a well-formed timer well formed.
pub proof fn lemma_added_well_formed(s: TimerState, extra: u32)
    requires
        s.well_formed(),
    ensures
        s.added(extra).next.well_formed(),
{
    lemma_normalize_bounds(TimeSpec::of_raw(DigitBuffer::added(s.raw, extra as nat) as int));
}

/// A start keeps a well-formed timer well formed, and a countdown begins in
/// step.
pub proof fn lemma_started_well_formed(s: TimerState, now: u64)
    requires
        s.well_formed(),
    ensures
        s.started(now).next.well_formed(),
        s.status == TimerStatus::Idle ==> s.started(now).next.in_step(),
{
    if s.status == TimerStatus::Idle {
        let display = s.display.carried();
        lemma_normalize_idempotent(TimeSpec::of_raw(s.raw as int));
        lemma_normalize_bounds(s.display);
        lemma_normalize_duration(s.display);
        lemma_of_secs_inverts(display);
    }
}

/// A polling task is asked for exactly when the timer begins to run, and is
/// stopped exactly when it ceases to; so there is one task while the timer
/// runs and none otherwise. Completion is signalled exactly when a running
/// timer becomes finished, and only a poll does that.
pub proof fn lemma_task_follows_status(s: TimerState, command: Command, now: u64)
    requires
        s.well_formed(),
    ensures
        s.step(command, now).effects.task == TaskCommand::Spawn <==> !s.task_alive() && s.step(
            command,
            now,
        ).next.task_alive(),
        s.step(command, now).effects.task == TaskCommand::Cancel <==> s.task_alive() && !s.step(
            command,
            now,
        ).next.task_alive(),
        s.step(command, now).effects.finished <==> s.status == TimerStatus::Running && s.step(
            command,
            now,
        ).next.status == TimerStatus::Finished,
        s.step(command, now).effects.finished ==> command == Command::Poll,
{
}

/// A command that changes the state asks for a redraw.
pub proof fn lemma_change_is_notified(s: TimerState, command: Command, now: u64)
    ensures
        s.step(command, now).next != s ==> s.step(command, now).effects.notify,
        !s.step(command, now).effects.notify ==> s.step(command, now).effects
            == Effects::nothing(),
{
}

/// Typing and erasing only work on an idle timer, and never move it out of
/// idle.
pub proof fn lemma_entry_is_locked(s: TimerState, command: Command, now: u64)
    requires
        command is Digit || command is Backspace,
    ensures
        s.status != TimerStatus::Idle ==> s.step(command, now).next == s,
        s.step(command, now).next.status == s.status,
        s.step(command, now).next.session == s.session,
{
}

/// Adding a preset works on every timer but a running one. Where it works
/// the digits are the sum cut down to six digits, the display shows them
/// carried and clamped, and nothing else moves: not the state, not the
/// clock, not the seconds taken off. A running timer is left as it is.
pub proof fn lemma_add_when_not_running(s: TimerState, extra: u32, now: u64)
    requires
        s.raw < RAW_LIMIT,
    ensures
        s.status == TimerStatus::Running ==> s.step(Command::Add(extra), now) == s.ignored(),
        s.status != TimerStatus::Running ==> {
            &&& s.step(Command::Add(extra), now).next.raw == (s.raw + extra) % (RAW_LIMIT as int)
            &&& s.step(Command::Add(extra), now).next.raw < RAW_LIMIT
            &&& s.step(Command::Add(extra), now).next.display == TimeSpec::of_raw(
                s.step(Command::Add(extra), now).next.raw as int,
            ).carried()
            &&& s.step(Command::Add(extra), now).next.display.is_normalized()
            &&& s.step(Command::Add(extra), now).effects == Effects::changed(TaskCommand::Keep)
        },
        s.step(Command::Add(extra), now).next.status == s.status,
        s.step(Command::Add(extra), now).next.session == s.session,
        s.step(Command::Add(extra), now).next.applied_secs == s.applied_secs,
{
    lemma_normalize_bounds(TimeSpec::of_raw(DigitBuffer::added(s.raw, extra as nat) as int));
}

/// A preset added to a paused or finished timer moves neither what remains
/// of the countdown nor the ring.
pub proof fn lemma_add_keeps_countdown(s: TimerState, extra: u32, now: u64)
    ensures
        s.added(extra).next.remaining_at(now) == s.remaining_at(now),
        s.added(extra).next.progress_at(now) == s.progress_at(now),
        s.added(extra).next.task_alive() == s.task_alive(),
{
}

/// Every command keeps the display in step with the countdown, but a preset
/// added to a paused or finished timer.
pub proof fn lemma_in_step_is_kept(s: TimerState, command: Command, now: u64)
    requires
        s.well_formed(),
        s.in_step(),
        command is Add ==> s.status == TimerStatus::Idle || s.status == TimerStatus::Running,
    ensures
        s.step(command, now).next.in_step(),
{
    match command {
        Command::Start => lemma_started_well_formed(s, now),
        Command::Confirm => {
            if s.status == TimerStatus::Idle {
                lemma_started_well_formed(s, now);
            }
        },
        Command::Poll => {
            if s.status == TimerStatus::Running && !s.session.spent_at(now) {
                let whole = (s.session.elapsed_at(now) / 1000) as nat;
                assert(whole < s.session.base_secs);
                if whole > s.applied_secs {
                    lemma_of_secs_duration(s.session.base_secs - s.applied_secs);
                    lemma_borrowed_by_is_of_secs(s.display, (whole - s.applied_secs) as nat);
                }
            }
        },
        _ => {},
    }
}

/// Starting a timer that shows no duration changes nothing: it stays idle.
pub proof fn lemma_empty_start_is_idle(s: TimerState, now: u64)
    requires
        s.well_formed(),
        s.status == TimerStatus::Idle,
        s.display.total_secs() == 0,
    ensures
        s.started(now).next == s,
        s.started(now).next.status == TimerStatus::Idle,
        s.started(now).effects.task == TaskCommand::Keep,
{
}

/// Starting a timer that shows a duration sets it running for exactly that
/// duration, capped at 99:59:59, with nothing elapsed.
pub proof fn lemma_start_freezes_duration(s: TimerState, now: u64)
    requires
        s.well_formed(),
        s.status == TimerStatus::Idle,
        s.display.total_secs() > 0,
    ensures
        s.started(now).next.status == TimerStatus::Running,
        s.started(now).next.session.base_secs == if s.display.total_secs() <= MAX_TOTAL_SECS {
            s.display.total_secs()
        } else {
            MAX_TOTAL_SECS as int
        },
        s.started(now).next.session.elapsed_at(now) == 0,
        s.started(now).next.display.total_secs() == s.started(now).next.session.base_secs,
{
    lemma_normalize_duration(s.display);
}

/// The ring is a proper fraction in every state, at every clock reading.
pub proof fn lemma_progress_is_fraction(s: TimerState, now: u64)
    requires
        s.well_formed(),
    ensures
        s.progress_at(now).is_fraction(),
{
}

/// While the timer runs, the ring never grows as the clock advances, and it
/// is empty once the whole duration has run.
pub proof fn lemma_progress_never_rises(s: TimerState, earlier: u64, later: u64)
    requires
        s.well_formed(),
        s.status == TimerStatus::Running,
        earlier <= later,
    ensures
        s.progress_at(later).le(s.progress_at(earlier)),
        s.progress_at(later).whole == s.progress_at(earlier).whole,
        s.progress_at(later).part <= s.progress_at(earlier).part,
        s.session.spent_at(later) ==> s.progress_at(later).part == 0,
        s.progress_at(later).part == 0 ==> s.session.spent_at(later),
{
    lemma_elapsed_monotonic(s.session, earlier, later);
    let whole = s.session.base_ms();
    let before = s.session.remaining_at(earlier);
    let after = s.session.remaining_at(later);
    assert(after * whole <= before * whole) by (nonlinear_arith)
        requires
            after <= before,
            0 <= whole,
    ;
}

/// Polling does not move the ring either: after a poll the ring at any later
/// clock reading is no fuller than it was at the poll, and once a poll has
/// found the duration run the ring is empty for good.
pub proof fn lemma_progress_never_rises_over_poll(s: TimerState, polled_at: u64, later: u64)
    requires
        s.well_formed(),
        s.status == TimerStatus::Running,
        polled_at <= later,
    ensures
        s.polled(polled_at).next.progress_at(later).le(s.progress_at(polled_at)),
        s.session.spent_at(polled_at) ==> s.polled(polled_at).next.progress_at(later)
            == Ratio::zero(),
        !s.session.spent_at(polled_at) ==> s.polled(polled_at).next.progress_at(later)
            == s.progress_at(later),
{
    let next = s.polled(polled_at).next;
    if s.session.spent_at(polled_at) {
        assert(next.status == TimerStatus::Finished);
        assert(next.progress_at(later) == Ratio::zero());
        assert(0 * (s.progress_at(polled_at).whole as int) == 0);
    } else {
        assert(next.status == TimerStatus::Running);
        assert(next.session == s.session);
        assert(next.progress_at(later) == s.progress_at(later));
        lemma_progress_never_rises(s, polled_at, later);
    }
}

/// Pausing freezes the countdown: however long the pause lasts, what remains
/// when the timer resumes is what remained when it was paused, and the
/// display has not moved.
pub proof fn lemma_pause_resume_keeps_remaining(
    s: TimerState,
    paused_at: u64,
    looked_at: u64,
    resumed_at: u64,
)
    requires
        s.well_formed(),
        s.status == TimerStatus::Running,
    ensures
        s.paused(paused_at).next.status == TimerStatus::Paused,
        s.paused(paused_at).next.remaining_at(looked_at) == s.remaining_at(paused_at),
        s.paused(paused_at).next.resumed(resumed_at).next.status == TimerStatus::Running,
        s.paused(paused_at).next.resumed(resumed_at).next.remaining_at(resumed_at)
            == s.remaining_at(paused_at),
        s.paused(paused_at).next.resumed(resumed_at).next.display == s.display,
        s.paused(paused_at).next.resumed(resumed_at).next.session.base_secs
            == s.session.base_secs,
{
    lemma_stop_then_resume_keeps_remaining(s.session, paused_at, resumed_at, looked_at);
}

/// After a pause and a resume the countdown is spent exactly when the time
/// that remained at the pause has run again since the resume.
pub proof fn lemma_resumed_finishes_on_time(
    s: TimerState,
    paused_at: u64,
    resumed_at: u64,
    now: u64,
)
    requires
        s.well_formed(),
        s.status == TimerStatus::Running,
        resumed_at <= now,
    ensures
        s.paused(paused_at).next.resumed(resumed_at).next.session.spent_at(now) <==> now
            - resumed_at >= s.remaining_at(paused_at),
{
    let paused = s.paused(paused_at).next;
    lemma_stop_then_resume_keeps_remaining(s.session, paused_at, resumed_at, now);
    lemma_resumed_runs_on(paused.session, resumed_at, now);
}

/// A poll reconciles the display with the clock: unless the countdown is
/// spent, a display that was in step shows the frozen duration less the
/// whole seconds that have run, however many polls were missed. (A clock
/// reading that lies before an earlier poll takes nothing back.)
pub proof fn lemma_poll_reconciles_display(s: TimerState, now: u64)
    requires
        s.well_formed(),
        s.in_step(),
        s.status == TimerStatus::Running,
        !s.session.spent_at(now),
    ensures
        s.polled(now).next.status == TimerStatus::Running,
        s.polled(now).next.session == s.session,
        s.polled(now).next.applied_secs == if s.session.elapsed_at(now) / 1000
            > s.applied_secs {
            s.session.elapsed_at(now) / 1000
        } else {
            s.applied_secs as int
        },
        s.polled(now).next.display.total_secs() == s.session.base_secs - s.polled(
            now,
        ).next.applied_secs,
        s.polled(now).next.display.total_secs() > 0,
        s.polled(now).next.in_step(),
{
    lemma_in_step_is_kept(s, Command::Poll, now);
    let next = s.polled(now).next;
    lemma_of_secs_duration(next.session.base_secs - next.applied_secs);
}

/// Whatever the display shows, a poll that does not find the countdown
/// spent takes off it exactly the whole seconds that have run and were not
/// taken off before, stopping at 00:00:00.
pub proof fn lemma_poll_takes_seconds_crossed(s: TimerState, now: u64)
    requires
        s.well_formed(),
        s.status == TimerStatus::Running,
        !s.session.spent_at(now),
    ensures
        s.polled(now).next.display.total_secs() == if s.session.elapsed_at(now) / 1000
            <= s.applied_secs {
            s.display.total_secs()
        } else if s.display.total_secs() >= s.session.elapsed_at(now) / 1000 - s.applied_secs {
            s.display.total_secs() - (s.session.elapsed_at(now) / 1000 - s.applied_secs)
        } else {
            0
        },
        s.polled(now).next.display.is_normalized(),
{
    let whole = (s.session.elapsed_at(now) / 1000) as nat;
    if whole > s.applied_secs {
        lemma_borrowed_by_duration(s.display, (whole - s.applied_secs) as nat);
    }
}

/// Pausing a running timer and then resetting it comes to the same as
/// resetting it at once.
pub proof fn lemma_pause_then_reset_is_reset(s: TimerState, now: u64)
    requires
        s.status == TimerStatus::Running,
    ensures
        s.paused(now).next.reset().next == s.reset().next,
        s.paused(now).effects.task == s.reset().effects.task,
{
}

/// Outside idle the timer shows a normalized time. While the display is in
/// step it is the frozen duration less the seconds taken off, and digits
/// were typed.
pub proof fn lemma_countdown_display_is_normalized(s: TimerState)
    requires
        s.well_formed(),
        s.status != TimerStatus::Idle,
    ensures
        s.display.is_normalized(),
        s.in_step() ==> s.display.total_secs() == s.session.base_secs - s.applied_secs,
        s.in_step() ==> s.raw > 0,
        s.in_step() && s.status == TimerStatus::Finished ==> s.display == (TimeSpec {
            hours: 0,
            minutes: 0,
            seconds: 0,
        }),
{
    lemma_of_secs_duration(s.session.base_secs - s.applied_secs);
}

/// The timer after the keystrokes, in turn.
pub open spec fn typed_all(s: TimerState, edits: Seq<Edit>) -> TimerState
    decreases edits.len(),
{
    if edits.len() == 0 {
        s
    } else {
        let before = typed_all(s, edits.drop_last());
        match edits.last() {
            Edit::Push(digit) => before.typed(digit).next,
            Edit::Pop => before.erased().next,
        }
    }
}

/// Whatever is typed into and erased from an idle timer, it stays idle, its
/// digits stay below 1 000 000 and are the row of six that the keystrokes
/// leave, and its display shows them uncarried.
pub proof fn lemma_typing_follows_edits(s: TimerState, edits: Seq<Edit>)
    requires
        s.well_formed(),
        s.status == TimerStatus::Idle,
        forall|i: int|
            0 <= i < edits.len() ==> (#[trigger] edits[i] matches Edit::Push(digit) ==> digit <= 9),
    ensures
        typed_all(s, edits).well_formed(),
        typed_all(s, edits).status == TimerStatus::Idle,
        typed_all(s, edits).raw == edited(s.raw, edits),
        typed_all(s, edits).raw < RAW_LIMIT,
        window(typed_all(s, edits).raw) == edited_window(window(s.raw), edits),
        edits.len() > 0 ==> typed_all(s, edits).display == TimeSpec::of_raw(
            typed_all(s, edits).raw as int,
        ),
    decreases edits.len(),
{
    lemma_edits_keep_window(s.raw, edits);
    if edits.len() > 0 {
        let init = edits.drop_last();
        assert forall|i: int| 0 <= i < init.len() implies (#[trigger] init[i] matches Edit::Push(
            digit,
        ) ==> digit <= 9) by {
            assert(init[i] == edits[i]);
        }
        lemma_typing_follows_edits(s, init);
        lemma_edits_keep_window(s.raw, init);
    }
}

/// A timer that is not idle takes no keystroke.
pub proof fn lemma_typing_is_locked(s: TimerState, edits: Seq<Edit>)
    requires
        s.status != TimerStatus::Idle,
    ensures
        typed_all(s, edits) == s,
    decreases edits.len(),
{
    if edits.len() > 0 {
        lemma_typing_is_locked(s, edits.drop_last());
    }
}

} // verus!
