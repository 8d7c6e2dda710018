//! The hours/minutes/seconds display and its arithmetic.

use vstd::arithmetic::div_mod::lemma_fundamental_div_mod_converse;
use vstd::prelude::*;

verus! {

/// The longest duration the display can show, 99:59:59, in seconds.
pub const MAX_TOTAL_SECS: u32 = 359_999;

/// One more than the largest value of six decimal digits.
pub const RAW_LIMIT: u32 = 1_000_000;

/// An hours/minutes/seconds triple.
///
/// A triple read straight off the typed digits may hold up to 99 minutes or
/// 99 seconds; `normalize` carries the overflow and clamps at 99:59:59.
#[derive(Clone, Copy, Debug, PartialEq, Eq, Structural)]
pub struct TimeSpec {
    pub hours: u8,
    pub minutes: u8,
    pub seconds: u8,
}

impl TimeSpec {
    /// The duration the triple stands for, in seconds.
    pub open spec fn total_secs(self) -> int {
        self.hours as int * 3600 + self.minutes as int * 60 + self.seconds as int
    }

    /// Minutes and seconds below 60, hours at most 99.
    pub open spec fn is_normalized(self) -> bool {
        self.hours <= 99 && self.minutes <= 59 && self.seconds <= 59
    }

    /// The triple whose decimal digits, two per field, spell `raw`.
    pub open spec fn of_raw(raw: int) -> TimeSpec {
        TimeSpec {
            hours: (raw / 10000) as u8,
            minutes: ((raw / 100) % 100) as u8,
            seconds: (raw % 100) as u8,
        }
    }

    /// The normalized triple that lasts `total` seconds.
    pub open spec fn of_secs(total: int) -> TimeSpec {
        TimeSpec {
            hours: (total / 3600) as u8,
            minutes: ((total / 60) % 60) as u8,
            seconds: (total % 60) as u8,
        }
    }

    /// Carry seconds into minutes, minutes into hours, then clamp anything
    /// above 99 hours to 99:59:59.
    pub open spec fn carried(self) -> TimeSpec {
        let minutes = self.minutes as int + self.seconds as int / 60;
        let hours = self.hours as int + minutes / 60;
        if hours > 99 {
            TimeSpec { hours: 99, minutes: 59, seconds: 59 }
        } else {
            TimeSpec {
                hours: hours as u8,
                minutes: (minutes % 60) as u8,
                seconds: (self.seconds as int % 60) as u8,
            }
        }
    }

    /// Take one second off, borrowing from minutes and then from hours; the
    /// all-zero triple stays as it is.
    pub open spec fn borrowed(self) -> TimeSpec {
        if self.seconds > 0 {
            TimeSpec { seconds: (self.seconds - 1) as u8, ..self }
        } else if self.minutes > 0 {
            TimeSpec { minutes: (self.minutes - 1) as u8, seconds: 59, ..self }
        } else if self.hours > 0 {
            TimeSpec { hours: (self.hours - 1) as u8, minutes: 59, seconds: 59 }
        } else {
            self
        }
    }

    /// `borrowed` applied `n` times.
    pub open spec fn borrowed_by(self, n: nat) -> TimeSpec
        decreases n,
    {
        if n == 0 {
            self
        } else {
            self.borrowed().borrowed_by((n - 1) as nat)
        }
    }

    /// 00:00:00.
    pub fn zero() -> (t: TimeSpec)
        ensures
            t == (TimeSpec { hours: 0, minutes: 0, seconds: 0 }),
    {
        TimeSpec { hours: 0, minutes: 0, seconds: 0 }
    }

    /// Reads a triple off up to six typed digits, two per field, without
    /// carrying: 9999 gives 00:99:99.
    pub fn from_raw(raw: u32) -> (t: TimeSpec)
        requires
            raw < RAW_LIMIT,
        ensures
            t == TimeSpec::of_raw(raw as int),
    {
        TimeSpec {
            hours: (raw / 10000) as u8,
            minutes: ((raw / 100) % 100) as u8,
            seconds: (raw % 100) as u8,
        }
    }

    /// The normalized triple of a duration of at most 99:59:59.
    pub fn from_secs(total: u32) -> (t: TimeSpec)
        requires
            total <= MAX_TOTAL_SECS,
        ensures
            t == TimeSpec::of_secs(total as int),
            t.is_normalized(),
            t.total_secs() == total,
    {
        TimeSpec {
            hours: (total / 3600) as u8,
            minutes: ((total / 60) % 60) as u8,
            seconds: (total % 60) as u8,
        }
    }

    /// The duration in seconds.
    pub fn total_seconds(self) -> (secs: u32)
        ensures
            secs == self.total_secs(),
    {
        self.hours as u32 * 3600 + self.minutes as u32 * 60 + self.seconds as u32
    }

    /// Carries overflowing seconds and minutes upwards and clamps the result
    /// to 99:59:59. The duration is kept unless it is clamped.
    pub fn normalize(self) -> (t: TimeSpec)
        ensures
            t == self.carried(),
            t.is_normalized(),
            t.total_secs() == if self.total_secs() <= MAX_TOTAL_SECS {
                self.total_secs()
            } else {
                MAX_TOTAL_SECS as int
            },
    {
        let minutes: u16 = self.minutes as u16 + self.seconds as u16 / 60;
        let hours: u16 = self.hours as u16 + minutes / 60;
        if hours > 99 {
            TimeSpec { hours: 99, minutes: 59, seconds: 59 }
        } else {
            TimeSpec {
                hours: hours as u8,
                minutes: (minutes % 60) as u8,
                seconds: self.seconds % 60,
            }
        }
    }

    /// Takes one second off the display, borrowing downwards. Answers whether
    /// there was a second to take.
    pub fn consume_one_second(&mut self) -> (consumed: bool)
        ensures
            *final(self) == old(self).borrowed(),
            consumed == (old(self).total_secs() > 0),
            final(self).total_secs() == if consumed {
                old(self).total_secs() - 1
            } else {
                0
            },
    {
        if self.seconds > 0 {
            self.seconds -= 1;
            true
        } else if self.minutes > 0 {
            self.minutes -= 1;
            self.seconds = 59;
            true
        } else if self.hours > 0 {
            self.hours -= 1;
            self.minutes = 59;
            self.seconds = 59;
            true
        } else {
            false
        }
    }

    /// Takes `n` seconds off the display, one borrow at a time, stopping at
    /// 00:00:00.
    pub fn consume_seconds(&mut self, n: u32)
        ensures
            *final(self) == old(self).borrowed_by(n as nat),
    {
        let mut done: u32 = 0;
        let mut more: bool = true;
        while more && done < n
            invariant
                done <= n,
                self.borrowed_by((n - done) as nat) == old(self).borrowed_by(n as nat),
                !more ==> self.total_secs() == 0,
            decreases (if more { 1int } else { 0int }), n - done,
        {
            let ghost before = *self;
            more = self.consume_one_second();
            proof {
                if more {
                    assert(before.borrowed_by((n - done) as nat) == self.borrowed_by(
                        (n - done - 1) as nat,
                    ));
                } else {
                    assert(*self == before);
                }
            }
            if more {
                done += 1;
            }
        }
        proof {
            if !more {
                lemma_zero_stays(*self, (n - done) as nat);
            }
        }
    }
}

/// Nothing can be borrowed from 00:00:00.
pub proof fn lemma_zero_stays(t: TimeSpec, n: nat)
    requires
        t.total_secs() == 0,
    ensures
        t.borrowed_by(n) == t,
    decreases n,
{
    if n > 0 {
        lemma_zero_stays(t, (n - 1) as nat);
    }
}

/// Normalising twice is normalising once.
pub proof fn lemma_normalize_idempotent(t: TimeSpec)
    ensures
        t.carried().carried() == t.carried(),
{
}

/// A normalized triple has minutes and seconds below 60 and hours at most 99,
/// whatever it was made from.
pub proof fn lemma_normalize_bounds(t: TimeSpec)
    ensures
        t.carried().is_normalized(),
        t.carried().hours <= 99,
        t.carried().minutes < 60,
        t.carried().seconds < 60,
{
}

/// Normalising keeps the duration, unless it exceeds 99:59:59, which it is
/// clamped to.
pub proof fn lemma_normalize_duration(t: TimeSpec)
    ensures
        t.total_secs() <= MAX_TOTAL_SECS ==> t.carried().total_secs() == t.total_secs(),
        t.total_secs() > MAX_TOTAL_SECS ==> t.carried() == (TimeSpec {
            hours: 99,
            minutes: 59,
            seconds: 59,
        }),
{
}

/// Normalising leaves a normalized triple alone.
pub proof fn lemma_normalized_is_fixed(t: TimeSpec)
    requires
        t.is_normalized(),
    ensures
        t.carried() == t,
{
}

/// A normalized triple is determined by its duration.
pub proof fn lemma_of_secs_inverts(t: TimeSpec)
    requires
        t.is_normalized(),
    ensures
        TimeSpec::of_secs(t.total_secs()) == t,
{
    let total = t.total_secs();
    let whole_minutes = t.hours as int * 60 + t.minutes as int;
    lemma_fundamental_div_mod_converse(total, 60, whole_minutes, t.seconds as int);
    lemma_fundamental_div_mod_converse(whole_minutes, 60, t.hours as int, t.minutes as int);
    lemma_fundamental_div_mod_converse(
        total,
        3600,
        t.hours as int,
        t.minutes as int * 60 + t.seconds as int,
    );
}

/// Every duration up to 99:59:59 has a normalized triple that lasts exactly
/// that long.
pub proof fn lemma_of_secs_duration(total: int)
    requires
        0 <= total <= MAX_TOTAL_SECS,
    ensures
        TimeSpec::of_secs(total).is_normalized(),
        TimeSpec::of_secs(total).total_secs() == total,
{
}

/// Normalising is reading the triple off its duration, capped at 99:59:59.
pub proof fn lemma_normalize_is_of_secs(t: TimeSpec)
    ensures
        t.carried() == TimeSpec::of_secs(
            if t.total_secs() <= MAX_TOTAL_SECS {
                t.total_secs()
            } else {
                MAX_TOTAL_SECS as int
            },
        ),
{
    lemma_normalize_duration(t);
    lemma_of_secs_inverts(t.carried());
}

/// One borrow shortens any non-zero triple by exactly one second and keeps a
/// normalized triple normalized.
pub proof fn lemma_borrowed_duration(t: TimeSpec)
    ensures
        t.total_secs() > 0 ==> t.borrowed().total_secs() == t.total_secs() - 1,
        t.total_secs() == 0 ==> t.borrowed() == t,
        t.is_normalized() ==> t.borrowed().is_normalized(),
{
}

/// `n` borrows shorten a triple by `n` seconds, stopping at zero, and keep a
/// normalized triple normalized.
pub proof fn lemma_borrowed_by_duration(t: TimeSpec, n: nat)
    ensures
        t.borrowed_by(n).total_secs() == if t.total_secs() >= n {
            t.total_secs() - n
        } else {
            0
        },
        t.is_normalized() ==> t.borrowed_by(n).is_normalized(),
    decreases n,
{
    if n > 0 {
        lemma_borrowed_duration(t);
        lemma_borrowed_by_duration(t.borrowed(), (n - 1) as nat);
    }
}

/// On a normalized triple, `n` borrows give the triple of the duration less
/// `n` seconds.
pub proof fn lemma_borrowed_by_is_of_secs(t: TimeSpec, n: nat)
    requires
        t.is_normalized(),
    ensures
        t.borrowed_by(n) == TimeSpec::of_secs(
            if t.total_secs() >= n {
                t.total_secs() - n
            } else {
                0
            },
        ),
{
    lemma_borrowed_by_duration(t, n);
    lemma_of_secs_inverts(t.borrowed_by(n));
}

} // verus!
