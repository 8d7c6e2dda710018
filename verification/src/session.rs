//! Elapsed-time bookkeeping against a monotonic clock.
//!
//! Clock readings are whole milliseconds since an origin that the caller
//! picks once and keeps. A reading earlier than the anchor counts as the
//! anchor itself, as a monotonic clock would have it.

use vstd::prelude::*;

verus! {

/// What a countdown needs to know how far it has run: the duration it was
/// started with, the clock reading at which the current stretch of running
/// began, and the running time of the stretches before it.
#[derive(Clone, Copy, Debug, PartialEq, Eq)]
pub struct CountdownSession {
    /// The duration frozen when the countdown began, in seconds.
    pub base_secs: u32,
    /// The clock reading at which the current stretch of running began;
    /// `None` while not running.
    pub anchor: Option<u64>,
    /// Milliseconds of running time from earlier stretches.
    pub banked_ms: u64,
}

impl CountdownSession {
    /// The frozen duration in milliseconds.
    pub open spec fn base_ms(self) -> int {
        self.base_secs as int * 1000
    }

    /// Milliseconds run in the current stretch at clock reading `now`.
    pub open spec fn running_for(self, now: u64) -> int {
        match self.anchor {
            Some(anchor) => if now >= anchor {
                now - anchor
            } else {
                0
            },
            None => 0,
        }
    }

    /// Milliseconds run in all stretches at clock reading `now`. The count
    /// stops at the largest 64-bit number.
    pub open spec fn elapsed_at(self, now: u64) -> int {
        let sum = self.banked_ms as int + self.running_for(now);
        if sum > u64::MAX {
            u64::MAX as int
        } else {
            sum
        }
    }

    /// Milliseconds left at clock reading `now`; never negative.
    pub open spec fn remaining_at(self, now: u64) -> int {
        if self.elapsed_at(now) >= self.base_ms() {
            0
        } else {
            self.base_ms() - self.elapsed_at(now)
        }
    }

    /// Whether the whole duration has run at clock reading `now`.
    pub open spec fn spent_at(self, now: u64) -> bool {
        self.elapsed_at(now) >= self.base_ms()
    }

    /// The session of a timer that is not counting: no duration, no anchor,
    /// nothing banked.
    pub open spec fn cleared() -> CountdownSession {
        CountdownSession { base_secs: 0, anchor: None, banked_ms: 0 }
    }

    /// A countdown of `base_secs` seconds that begins at `now`.
    pub open spec fn begun(base_secs: u32, now: u64) -> CountdownSession {
        CountdownSession { base_secs, anchor: Some(now), banked_ms: 0 }
    }

    /// The session after the current stretch is banked at `now`.
    pub open spec fn stopped(self, now: u64) -> CountdownSession {
        CountdownSession {
            base_secs: self.base_secs,
            anchor: None,
            banked_ms: self.elapsed_at(now) as u64,
        }
    }

    /// The session after a new stretch begins at `now`.
    pub open spec fn resumed(self, now: u64) -> CountdownSession {
        CountdownSession { base_secs: self.base_secs, anchor: Some(now), banked_ms: self.banked_ms }
    }

    /// The session of a timer that is not counting.
    pub fn idle() -> (s: CountdownSession)
        ensures
            s == CountdownSession::cleared(),
    {
        CountdownSession { base_secs: 0, anchor: None, banked_ms: 0 }
    }

    /// Begins a countdown of `base_secs` seconds at clock reading `now`.
    pub fn begin(base_secs: u32, now: u64) -> (s: CountdownSession)
        ensures
            s == CountdownSession::begun(base_secs, now),
    {
        CountdownSession { base_secs, anchor: Some(now), banked_ms: 0 }
    }

    /// Banks the running time of the current stretch and drops the anchor.
    pub fn stop(&mut self, now: u64)
        ensures
            *final(self) == old(self).stopped(now),
    {
        let elapsed = self.elapsed_ms(now);
        self.banked_ms = elapsed;
        self.anchor = None;
    }

    /// Anchors a new stretch of running at clock reading `now`; what was
    /// banked is kept.
    pub fn resume(&mut self, now: u64)
        ensures
            *final(self) == old(self).resumed(now),
    {
        self.anchor = Some(now);
    }

    /// Milliseconds run in all stretches at clock reading `now`.
    pub fn elapsed_ms(&self, now: u64) -> (elapsed: u64)
        ensures
            elapsed == self.elapsed_at(now),
    {
        let running: u64 = match self.anchor {
            Some(anchor) => if now >= anchor {
                now - anchor
            } else {
                0
            },
            None => 0,
        };
        if running > u64::MAX - self.banked_ms {
            u64::MAX
        } else {
            self.banked_ms + running
        }
    }

    /// Milliseconds left at clock reading `now`.
    pub fn remaining_ms(&self, now: u64) -> (remaining: u64)
        ensures
            remaining == self.remaining_at(now),
    {
        let base: u64 = self.base_secs as u64 * 1000;
        let elapsed = self.elapsed_ms(now);
        if elapsed >= base {
            0
        } else {
            base - elapsed
        }
    }
}

/// Time does not run backwards: the later the clock reading, the more has
/// elapsed and the less remains.
pub proof fn lemma_elapsed_monotonic(s: CountdownSession, earlier: u64, later: u64)
    requires
        earlier <= later,
    ensures
        s.elapsed_at(earlier) <= s.elapsed_at(later),
        s.remaining_at(later) <= s.remaining_at(earlier),
        0 <= s.remaining_at(later) <= s.base_ms(),
{
}

/// Banking a stretch freezes the countdown: whenever it is looked at, and
/// whenever it is resumed, what remains is what remained when it was banked.
pub proof fn lemma_stop_then_resume_keeps_remaining(
    s: CountdownSession,
    stopped_at: u64,
    resumed_at: u64,
    looked_at: u64,
)
    ensures
        s.stopped(stopped_at).remaining_at(looked_at) == s.remaining_at(stopped_at),
        s.stopped(stopped_at).resumed(resumed_at).remaining_at(resumed_at) == s.remaining_at(
            stopped_at,
        ),
{
}

/// After a resume the countdown advances by exactly the running time since:
/// it is spent once the time that remained at the pause has run again.
pub proof fn lemma_resumed_runs_on(s: CountdownSession, resumed_at: u64, now: u64)
    requires
        s.anchor is None,
        resumed_at <= now,
    ensures
        s.resumed(resumed_at).elapsed_at(now) == if s.banked_ms + (now - resumed_at) > u64::MAX {
            u64::MAX as int
        } else {
            s.banked_ms + (now - resumed_at)
        },
        s.resumed(resumed_at).spent_at(now) <==> now - resumed_at >= s.remaining_at(resumed_at),
{
}

} // verus!
