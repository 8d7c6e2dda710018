//! The progress ratio handed to whatever draws the timer.

use vstd::prelude::*;

verus! {

/// A fraction between 0 and 1, as `part` out of `whole`.
#[derive(Clone, Copy, Debug, PartialEq, Eq, Structural)]
pub struct Ratio {
    pub part: u64,
    pub whole: u64,
}

impl Ratio {
    /// A proper fraction: a non-zero whole and a part no larger than it.
    pub open spec fn is_fraction(self) -> bool {
        0 < self.whole && self.part <= self.whole
    }

    /// `self <= other` as fractions.
    pub open spec fn le(self, other: Ratio) -> bool {
        self.part as int * other.whole as int <= other.part as int * self.whole as int
    }

    /// The fraction 1.
    pub open spec fn one() -> Ratio {
        Ratio { part: 1, whole: 1 }
    }

    /// The fraction 0.
    pub open spec fn zero() -> Ratio {
        Ratio { part: 0, whole: 1 }
    }

    /// The fraction 1: the full ring of a timer that is ready to start.
    pub fn full() -> (r: Ratio)
        ensures
            r == Ratio::one(),
    {
        Ratio { part: 1, whole: 1 }
    }

    /// The fraction 0: the empty ring of a timer that has run out.
    pub fn empty() -> (r: Ratio)
        ensures
            r == Ratio::zero(),
    {
        Ratio { part: 0, whole: 1 }
    }

    /// Whether the fraction is 0.
    pub fn is_zero(&self) -> (zero: bool)
        ensures
            zero == (self.part == 0),
    {
        self.part == 0
    }

    /// The fraction in thousandths, rounded down.
    pub fn per_mille(&self) -> (thousandths: u64)
        requires
            self.is_fraction(),
        ensures
            thousandths == (self.part as int * 1000) / (self.whole as int),
            thousandths <= 1000,
    {
        let scaled: u128 = self.part as u128 * 1000;
        let whole: u128 = self.whole as u128;
        let quotient: u128 = scaled / whole;
        proof {
            assert(self.part as int * 1000 <= self.whole as int * 1000);
            vstd::arithmetic::div_mod::lemma_div_is_ordered(
                self.part as int * 1000,
                self.whole as int * 1000,
                self.whole as int,
            );
            vstd::arithmetic::div_mod::lemma_div_multiples_vanish(1000, self.whole as int);
            assert(self.whole as int * 1000 == 1000 * self.whole as int);
        }
        quotient as u64
    }
}

} // verus!
