//! The timer engine: one object that takes commands and clock readings and
//! answers with what its caller has to do.

use crate::digits::DigitBuffer;
use crate::keys::{command_of_key, key_command};
use crate::progress::Ratio;
use crate::session::CountdownSession;
use crate::state::{
    lemma_added_well_formed, lemma_polled_well_formed, lemma_started_well_formed, Command,
    Effects, TaskCommand, TimerState, TimerStatus,
};
use crate::time_spec::TimeSpec;
use vstd::prelude::*;

verus! {

/// A countdown timer.
///
/// The timer never reads a clock and never starts a task. Whoever owns it
/// hands in the clock reading with each command, and carries out the
/// [`Effects`] that come back: redraw, start or stop the polling task, signal
/// completion.
#[derive(Debug)]
pub struct TimerModel {
    status: TimerStatus,
    digits: DigitBuffer,
    display: TimeSpec,
    session: CountdownSession,
    applied_secs: u32,
}

/// What a reader of the timer gets to see at one clock reading.
#[derive(Clone, Copy, Debug, PartialEq, Eq)]
pub struct Snapshot {
    pub status: TimerStatus,
    pub hours: u8,
    pub minutes: u8,
    pub seconds: u8,
    pub progress: Ratio,
}

impl View for TimerModel {
    type V = TimerState;

    closed spec fn view(&self) -> TimerState {
        TimerState {
            status: self.status,
            raw: self.digits@,
            display: self.display,
            session: self.session,
            applied_secs: self.applied_secs as nat,
        }
    }
}

impl TimerModel {
    /// A timer is only ever in a state the machine can reach.
    #[verifier::type_invariant]
    spec fn inv(self) -> bool {
        self@.well_formed()
    }

    /// A fresh timer: idle, nothing typed, 00:00:00.
    pub fn new() -> (model: TimerModel)
        ensures
            model@ == TimerState::initial(),
            model@.well_formed(),
    {
        TimerModel {
            status: TimerStatus::Idle,
            digits: DigitBuffer::new(),
            display: TimeSpec::zero(),
            session: CountdownSession::idle(),
            applied_secs: 0,
        }
    }

    /// The state the timer is in.
    pub fn status(&self) -> (status: TimerStatus)
        ensures
            status == self@.status,
    {
        self.status
    }

    /// What the display shows.
    pub fn display(&self) -> (display: TimeSpec)
        ensures
            display == self@.display,
    {
        self.display
    }

    /// The number the typed digits spell.
    pub fn raw_digits(&self) -> (raw: u32)
        ensures
            raw == self@.raw,
    {
        self.digits.raw()
    }

    /// The clock bookkeeping of the countdown.
    pub fn session(&self) -> (session: CountdownSession)
        ensures
            session == self@.session,
    {
        self.session
    }

    /// Types one digit. Only an idle timer takes it.
    pub fn push_digit(&mut self, digit: u8) -> (effects: Effects)
        requires
            digit <= 9,
        ensures
            final(self)@ == old(self)@.typed(digit).next,
            effects == old(self)@.typed(digit).effects,
            final(self)@.well_formed(),
    {
        proof {
            use_type_invariant(&*self);
        }
        if self.status == TimerStatus::Idle {
            let mut digits = self.digits;
            digits.push_digit(digit);
            let display = digits.time_spec();
            *self = TimerModel {
                status: TimerStatus::Idle,
                digits,
                display,
                session: self.session,
                applied_secs: self.applied_secs,
            };
            Effects { notify: true, task: TaskCommand::Keep, finished: false }
        } else {
            Effects { notify: false, task: TaskCommand::Keep, finished: false }
        }
    }

    /// Erases the newest digit. Only an idle timer does it.
    pub fn pop_digit(&mut self) -> (effects: Effects)
        ensures
            final(self)@ == old(self)@.erased().next,
            effects == old(self)@.erased().effects,
            final(self)@.well_formed(),
    {
        proof {
            use_type_invariant(&*self);
        }
        if self.status == TimerStatus::Idle {
            let mut digits = self.digits;
            digits.pop_digit();
            let display = digits.time_spec();
            *self = TimerModel {
                status: TimerStatus::Idle,
                digits,
                display,
                session: self.session,
                applied_secs: self.applied_secs,
            };
            Effects { notify: true, task: TaskCommand::Keep, finished: false }
        } else {
            Effects { notify: false, task: TaskCommand::Keep, finished: false }
        }
    }

    /// Adds a preset, written in the digit encoding, to what was typed, and
    /// shows the sum carried and clamped. Every timer takes it but a running
    /// one; its state, its clock and the seconds taken off stay as they
    /// are.
    pub fn add(&mut self, extra: u32) -> (effects: Effects)
        ensures
            final(self)@ == old(self)@.added(extra).next,
            effects == old(self)@.added(extra).effects,
            final(self)@.well_formed(),
    {
        proof {
            use_type_invariant(&*self);
            lemma_added_well_formed(self@, extra);
        }
        match self.status {
            TimerStatus::Running => Effects {
                notify: false,
                task: TaskCommand::Keep,
                finished: false,
            },
            _ => {
                let mut digits = self.digits;
                digits.add(extra);
                let display = digits.time_spec().normalize();
                *self = TimerModel {
                    status: self.status,
                    digits,
                    display,
                    session: self.session,
                    applied_secs: self.applied_secs,
                };
                Effects { notify: true, task: TaskCommand::Keep, finished: false }
            },
        }
    }

    /// Starts the countdown at clock reading `now`.
    ///
    /// An idle timer normalizes its display and freezes the duration. With
    /// an empty duration it stays idle; otherwise it is running and asks for
    /// a polling task. In any other state nothing happens.
    pub fn start(&mut self, now: u64) -> (effects: Effects)
        ensures
            final(self)@ == old(self)@.started(now).next,
            effects == old(self)@.started(now).effects,
            final(self)@.well_formed(),
            old(self)@.display.total_secs() == 0 ==> final(self)@ == old(self)@,
    {
        proof {
            use_type_invariant(&*self);
            lemma_started_well_formed(self@, now);
        }
        if self.status == TimerStatus::Idle {
            let display = self.display.normalize();
            let base_secs = display.total_seconds();
            if base_secs == 0 {
                *self = TimerModel {
                    status: TimerStatus::Idle,
                    digits: self.digits,
                    display,
                    session: self.session,
                    applied_secs: self.applied_secs,
                };
                Effects { notify: true, task: TaskCommand::Keep, finished: false }
            } else {
                *self = TimerModel {
                    status: TimerStatus::Running,
                    digits: self.digits,
                    display,
                    session: CountdownSession::begin(base_secs, now),
                    applied_secs: 0,
                };
                Effects { notify: true, task: TaskCommand::Spawn, finished: false }
            }
        } else {
            Effects { notify: false, task: TaskCommand::Keep, finished: false }
        }
    }

    /// Pauses a running countdown at clock reading `now`: the time run so
    /// far is banked and the polling task is to be stopped. In any other
    /// state nothing happens.
    pub fn pause(&mut self, now: u64) -> (effects: Effects)
        ensures
            final(self)@ == old(self)@.paused(now).next,
            effects == old(self)@.paused(now).effects,
            final(self)@.well_formed(),
    {
        proof {
            use_type_invariant(&*self);
        }
        if self.status == TimerStatus::Running {
            let mut session = self.session;
            session.stop(now);
            *self = TimerModel {
                status: TimerStatus::Paused,
                digits: self.digits,
                display: self.display,
                session,
                applied_secs: self.applied_secs,
            };
            Effects { notify: true, task: TaskCommand::Cancel, finished: false }
        } else {
            Effects { notify: false, task: TaskCommand::Keep, finished: false }
        }
    }

    /// Goes on with a paused countdown from clock reading `now`, and asks
    /// for a polling task. In any other state nothing happens.
    pub fn resume(&mut self, now: u64) -> (effects: Effects)
        ensures
            final(self)@ == old(self)@.resumed(now).next,
            effects == old(self)@.resumed(now).effects,
            final(self)@.well_formed(),
    {
        proof {
            use_type_invariant(&*self);
        }
        if self.status == TimerStatus::Paused {
            let mut session = self.session;
            session.resume(now);
            *self = TimerModel {
                status: TimerStatus::Running,
                digits: self.digits,
                display: self.display,
                session,
                applied_secs: self.applied_secs,
            };
            Effects { notify: true, task: TaskCommand::Spawn, finished: false }
        } else {
            Effects { notify: false, task: TaskCommand::Keep, finished: false }
        }
    }

    /// Goes back to idle and shows the typed digits again, uncarried. A
    /// polling task that is alive is to be stopped. An idle timer stays as
    /// it is.
    pub fn reset(&mut self) -> (effects: Effects)
        ensures
            final(self)@ == old(self)@.reset().next,
            effects == old(self)@.reset().effects,
            final(self)@.well_formed(),
    {
        proof {
            use_type_invariant(&*self);
        }
        if self.status == TimerStatus::Idle {
            Effects { notify: false, task: TaskCommand::Keep, finished: false }
        } else {
            let task = if self.status == TimerStatus::Running {
                TaskCommand::Cancel
            } else {
                TaskCommand::Keep
            };
            let display = self.digits.time_spec();
            *self = TimerModel {
                status: TimerStatus::Idle,
                digits: self.digits,
                display,
                session: CountdownSession::idle(),
                applied_secs: 0,
            };
            Effects { notify: true, task, finished: false }
        }
    }

    /// One look at the clock by the polling task, at clock reading `now`.
    ///
    /// A running timer whose whole duration has run is finished: the
    /// display shows 00:00:00, the task is to be stopped and completion is
    /// signalled. Otherwise the display loses every whole second that has
    /// run since the seconds it lost before, however late the poll comes. A
    /// timer that is not running is left alone.
    pub fn poll(&mut self, now: u64) -> (effects: Effects)
        ensures
            final(self)@ == old(self)@.polled(now).next,
            effects == old(self)@.polled(now).effects,
            final(self)@.well_formed(),
            effects.finished <==> old(self)@.status == TimerStatus::Running && old(
                self,
            )@.session.spent_at(now),
    {
        proof {
            use_type_invariant(&*self);
            lemma_polled_well_formed(self@, now);
        }
        if self.status == TimerStatus::Running {
            let elapsed = self.session.elapsed_ms(now);
            let base_ms: u64 = self.session.base_secs as u64 * 1000;
            if elapsed >= base_ms {
                let mut session = self.session;
                session.stop(now);
                *self = TimerModel {
                    status: TimerStatus::Finished,
                    digits: self.digits,
                    display: TimeSpec::zero(),
                    session,
                    applied_secs: self.session.base_secs,
                };
                Effects { notify: true, task: TaskCommand::Cancel, finished: true }
            } else {
                let whole: u32 = (elapsed / 1000) as u32;
                if whole > self.applied_secs {
                    let mut display = self.display;
                    display.consume_seconds(whole - self.applied_secs);
                    *self = TimerModel {
                        status: TimerStatus::Running,
                        digits: self.digits,
                        display,
                        session: self.session,
                        applied_secs: whole,
                    };
                    Effects { notify: true, task: TaskCommand::Keep, finished: false }
                } else {
                    Effects { notify: false, task: TaskCommand::Keep, finished: false }
                }
            }
        } else {
            Effects { notify: false, task: TaskCommand::Keep, finished: false }
        }
    }

    /// The confirm key: start when idle, pause when running, resume when
    /// paused, reset when finished.
    pub fn confirm(&mut self, now: u64) -> (effects: Effects)
        ensures
            final(self)@ == old(self)@.confirmed(now).next,
            effects == old(self)@.confirmed(now).effects,
            final(self)@.well_formed(),
    {
        match self.status {
            TimerStatus::Idle => self.start(now),
            TimerStatus::Running => self.pause(now),
            TimerStatus::Paused => self.resume(now),
            TimerStatus::Finished => self.reset(),
        }
    }

    /// Carries out one command at clock reading `now`.
    pub fn dispatch(&mut self, command: Command, now: u64) -> (effects: Effects)
        requires
            command matches Command::Digit(digit) ==> digit <= 9,
        ensures
            final(self)@ == old(self)@.step(command, now).next,
            effects == old(self)@.step(command, now).effects,
            final(self)@.well_formed(),
    {
        match command {
            Command::Digit(digit) => self.push_digit(digit),
            Command::Backspace => self.pop_digit(),
            Command::Add(extra) => self.add(extra),
            Command::Start => self.start(now),
            Command::Pause => self.pause(now),
            Command::Resume => self.resume(now),
            Command::Reset => self.reset(),
            Command::Confirm => self.confirm(now),
            Command::Poll => self.poll(now),
        }
    }

    /// Sets the timer going, whichever way fits: an idle timer starts, a
    /// paused one resumes, and any other is left alone.
    pub fn inter_run_timer(&mut self, now: u64) -> (effects: Effects)
        ensures
            final(self)@ == old(self)@.set_going(now).next,
            effects == old(self)@.set_going(now).effects,
            final(self)@.well_formed(),
    {
        match self.status {
            TimerStatus::Idle => self.start(now),
            TimerStatus::Paused => self.resume(now),
            _ => {
                proof {
                    use_type_invariant(&*self);
                }
                Effects { notify: false, task: TaskCommand::Keep, finished: false }
            },
        }
    }

    /// Pauses a running timer and leaves any other alone.
    pub fn inter_pause_timer(&mut self, now: u64) -> (effects: Effects)
        ensures
            final(self)@ == old(self)@.paused(now).next,
            effects == old(self)@.paused(now).effects,
            final(self)@.well_formed(),
    {
        match self.status {
            TimerStatus::Running => self.pause(now),
            _ => {
                proof {
                    use_type_invariant(&*self);
                }
                Effects { notify: false, task: TaskCommand::Keep, finished: false }
            },
        }
    }

    /// Takes the timer back to idle: a running timer is paused first and
    /// then reset, a paused or finished one is reset, an idle one is left
    /// alone. Whichever way, the outcome is that of a reset.
    pub fn inter_reload(&mut self, now: u64) -> (effects: Effects)
        ensures
            final(self)@ == old(self)@.reset().next,
            effects == old(self)@.reset().effects,
            final(self)@.well_formed(),
    {
        match self.status {
            TimerStatus::Running => {
                let paused = self.pause(now);
                let reset = self.reset();
                Effects { notify: reset.notify, task: paused.task, finished: false }
            },
            TimerStatus::Paused => self.reset(),
            TimerStatus::Finished => self.reset(),
            TimerStatus::Idle => {
                proof {
                    use_type_invariant(&*self);
                }
                Effects { notify: false, task: TaskCommand::Keep, finished: false }
            },
        }
    }

    /// Carries and clamps what an idle timer displays. During a countdown
    /// the display is normalized as it is, and nothing happens.
    pub fn normalize_digits(&mut self) -> (effects: Effects)
        ensures
            final(self)@ == old(self)@.normalized().next,
            effects == old(self)@.normalized().effects,
            final(self)@.well_formed(),
            final(self)@.display.is_normalized(),
    {
        proof {
            use_type_invariant(&*self);
        }
        if self.status == TimerStatus::Idle {
            let display = self.display.normalize();
            *self = TimerModel {
                status: TimerStatus::Idle,
                digits: self.digits,
                display,
                session: self.session,
                applied_secs: self.applied_secs,
            };
            Effects { notify: true, task: TaskCommand::Keep, finished: false }
        } else {
            Effects { notify: false, task: TaskCommand::Keep, finished: false }
        }
    }

    /// Shows the typed digits on an idle timer as they were typed, two per
    /// field and uncarried. During a countdown nothing happens.
    pub fn notify_digits_display(&mut self) -> (effects: Effects)
        ensures
            final(self)@ == old(self)@.refreshed().next,
            effects == old(self)@.refreshed().effects,
            final(self)@.well_formed(),
    {
        proof {
            use_type_invariant(&*self);
        }
        if self.status == TimerStatus::Idle {
            let display = self.digits.time_spec();
            *self = TimerModel {
                status: TimerStatus::Idle,
                digits: self.digits,
                display,
                session: self.session,
                applied_secs: self.applied_secs,
            };
            Effects { notify: true, task: TaskCommand::Keep, finished: false }
        } else {
            Effects { notify: false, task: TaskCommand::Keep, finished: false }
        }
    }

    /// The duration on the display, in seconds.
    pub fn culc_hms_secs(&mut self) -> (secs: u32)
        ensures
            secs == old(self)@.display.total_secs(),
            final(self)@ == old(self)@,
    {
        self.display.total_seconds()
    }

    /// Milliseconds left on the countdown at clock reading `now`: the frozen
    /// duration less the time run, and never below zero.
    pub fn current_remaining(&self, now: u64) -> (remaining: u64)
        ensures
            remaining == self@.remaining_at(now),
    {
        self.session.remaining_ms(now)
    }

    /// How full the progress ring is at clock reading `now`: full when idle,
    /// empty when finished, and during a countdown what remains out of the
    /// frozen duration.
    pub fn gen_progress_ratio(&self, now: u64) -> (progress: Ratio)
        ensures
            progress == self@.progress_at(now),
            progress.is_fraction(),
    {
        proof {
            use_type_invariant(self);
        }
        match self.status {
            TimerStatus::Idle => Ratio::full(),
            TimerStatus::Finished => Ratio::empty(),
            _ => Ratio {
                part: self.session.remaining_ms(now),
                whole: self.session.base_secs as u64 * 1000,
            },
        }
    }

    /// What there is to draw at clock reading `now`.
    pub fn snapshot(&self, now: u64) -> (shot: Snapshot)
        ensures
            shot.status == self@.status,
            shot.hours == self@.display.hours,
            shot.minutes == self@.display.minutes,
            shot.seconds == self@.display.seconds,
            shot.progress == self@.progress_at(now),
            shot.progress.is_fraction(),
    {
        Snapshot {
            status: self.status,
            hours: self.display.hours,
            minutes: self.display.minutes,
            seconds: self.display.seconds,
            progress: self.gen_progress_ratio(now),
        }
    }

    /// A key is pressed at clock reading `now`. A key that stands for a
    /// command has it carried out; any other key is ignored.
    pub fn input(&mut self, key: &str, now: u64) -> (effects: Effects)
        ensures
            match key_command(key@) {
                Some(command) => {
                    &&& final(self)@ == old(self)@.step(command, now).next
                    &&& effects == old(self)@.step(command, now).effects
                },
                None => {
                    &&& final(self)@ == old(self)@
                    &&& effects == Effects::nothing()
                },
            },
            final(self)@.well_formed(),
    {
        match command_of_key(key) {
            Some(command) => self.dispatch(command, now),
            None => {
                proof {
                    use_type_invariant(&*self);
                }
                Effects { notify: false, task: TaskCommand::Keep, finished: false }
            },
        }
    }

    /// Pauses a running countdown, as `pause` does.
    pub fn stop(&mut self, now: u64) -> (effects: Effects)
        ensures
            final(self)@ == old(self)@.paused(now).next,
            effects == old(self)@.paused(now).effects,
            final(self)@.well_formed(),
    {
        self.pause(now)
    }

    /// One turn of the countdown task, which wakes at clock reading `now`:
    /// the timer is polled, and the task is told whether it is to end. It is
    /// to end as soon as the timer is not running, be it finished, paused or
    /// reset.
    pub fn countdown_timer(&mut self, now: u64) -> (turn: (Effects, bool))
        ensures
            final(self)@ == old(self)@.polled(now).next,
            turn.0 == old(self)@.polled(now).effects,
            turn.1 == !final(self)@.task_alive(),
            final(self)@.well_formed(),
    {
        let effects = self.poll(now);
        let ended = match self.status {
            TimerStatus::Running => false,
            _ => true,
        };
        (effects, ended)
    }
}

} // verus!
