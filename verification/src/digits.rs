//! The digit-entry buffer: up to six typed decimal digits, held as one
//! number.

use crate::time_spec::{TimeSpec, RAW_LIMIT};
use vstd::arithmetic::div_mod::{
    lemma_add_mod_noop, lemma_div_denominator, lemma_fundamental_div_mod_converse,
    lemma_mul_mod_noop_left,
};
use vstd::prelude::*;

verus! {

/// The last six digits typed, as the number they spell. Typing a seventh
/// digit pushes the oldest one out on the left; backspace drops the newest
/// one on the right.
#[derive(Clone, Copy, Debug)]
pub struct DigitBuffer {
    raw: u32,
}

impl View for DigitBuffer {
    type V = nat;

    /// The number the buffer spells.
    closed spec fn view(&self) -> nat {
        self.raw as nat
    }
}

impl DigitBuffer {
    /// The buffer never holds more than six digits.
    #[verifier::type_invariant]
    spec fn six_digits(self) -> bool {
        self.raw < RAW_LIMIT
    }

    /// What the buffer spells once `digit` is typed.
    pub open spec fn pushed(v: nat, digit: nat) -> nat {
        (v * 10 + digit) % (RAW_LIMIT as nat)
    }

    /// What the buffer spells once its newest digit is erased.
    pub open spec fn popped(v: nat) -> nat {
        v / 10
    }

    /// What the buffer spells once `extra` is added to it.
    pub open spec fn added(v: nat, extra: nat) -> nat {
        (v + extra) % (RAW_LIMIT as nat)
    }

    /// The empty buffer.
    pub fn new() -> (b: DigitBuffer)
        ensures
            b@ == 0,
    {
        DigitBuffer { raw: 0 }
    }

    /// The number the buffer spells, below 1 000 000.
    pub fn raw(&self) -> (raw: u32)
        ensures
            raw == self@,
            raw < RAW_LIMIT,
    {
        proof {
            use_type_invariant(self);
        }
        self.raw
    }

    /// Types one digit: the buffer shifts left by a decimal place, the digit
    /// enters at the ones place, and a seventh digit falls off the top.
    pub fn push_digit(&mut self, digit: u8)
        requires
            digit <= 9,
        ensures
            final(self)@ == DigitBuffer::pushed(old(self)@, digit as nat),
            final(self)@ < RAW_LIMIT,
    {
        proof {
            use_type_invariant(&*self);
        }
        self.raw = (self.raw * 10 + digit as u32) % RAW_LIMIT;
    }

    /// Erases the newest digit; an empty buffer stays empty.
    pub fn pop_digit(&mut self)
        ensures
            final(self)@ == DigitBuffer::popped(old(self)@),
            final(self)@ < RAW_LIMIT,
    {
        proof {
            use_type_invariant(&*self);
        }
        self.raw = self.raw / 10;
    }

    /// Adds a preset amount, written in the buffer's own digit encoding, and
    /// keeps the last six digits of the sum.
    pub fn add(&mut self, extra: u32)
        ensures
            final(self)@ == DigitBuffer::added(old(self)@, extra as nat),
            final(self)@ < RAW_LIMIT,
    {
        proof {
            use_type_invariant(&*self);
        }
        let sum: u64 = self.raw as u64 + extra as u64;
        self.raw = (sum % (RAW_LIMIT as u64)) as u32;
    }

    /// The hours, minutes and seconds the digits spell, two digits each,
    /// without carrying.
    pub fn time_spec(&self) -> (t: TimeSpec)
        ensures
            t == TimeSpec::of_raw(self@ as int),
    {
        proof {
            use_type_invariant(self);
        }
        TimeSpec::from_raw(self.raw)
    }
}

/// One keystroke on the buffer.
pub enum Edit {
    /// A digit, 0 to 9, is typed.
    Push(u8),
    /// The newest digit is erased.
    Pop,
}

/// The six decimal digits of `v`, oldest first.
pub open spec fn window(v: nat) -> Seq<nat> {
    seq![
        (v / 100000) % 10,
        (v / 10000) % 10,
        (v / 1000) % 10,
        (v / 100) % 10,
        (v / 10) % 10,
        v % 10,
    ]
}

/// The number that a sequence of decimal digits spells, oldest digit first.
pub open spec fn value_of(digits: Seq<nat>) -> nat
    decreases digits.len(),
{
    if digits.len() == 0 {
        0
    } else {
        value_of(digits.drop_last()) * 10 + digits.last()
    }
}

/// What a buffer that spells `v` spells after the digits are typed in turn.
pub open spec fn pushed_all(v: nat, digits: Seq<nat>) -> nat
    decreases digits.len(),
{
    if digits.len() == 0 {
        v
    } else {
        DigitBuffer::pushed(pushed_all(v, digits.drop_last()), digits.last())
    }
}

/// What a buffer that spells `v` spells after the keystrokes, in turn.
pub open spec fn edited(v: nat, edits: Seq<Edit>) -> nat
    decreases edits.len(),
{
    if edits.len() == 0 {
        v
    } else {
        let before = edited(v, edits.drop_last());
        match edits.last() {
            Edit::Push(digit) => DigitBuffer::pushed(before, digit as nat),
            Edit::Pop => DigitBuffer::popped(before),
        }
    }
}

/// The keystrokes played on a row of six digits: a typed digit enters on the
/// right and the oldest leaves on the left; an erased digit leaves on the
/// right and a zero enters on the left.
pub open spec fn edited_window(digits: Seq<nat>, edits: Seq<Edit>) -> Seq<nat>
    decreases edits.len(),
{
    if edits.len() == 0 {
        digits
    } else {
        let before = edited_window(digits, edits.drop_last());
        match edits.last() {
            Edit::Push(digit) => before.drop_first().push(digit as nat),
            Edit::Pop => seq![0nat] + before.drop_last(),
        }
    }
}

/// The number that six decimal digits spell, oldest first.
pub open spec fn spelled(d0: nat, d1: nat, d2: nat, d3: nat, d4: nat, d5: nat) -> nat {
    d0 * 100000 + d1 * 10000 + d2 * 1000 + d3 * 100 + d4 * 10 + d5
}

/// Six decimal digits are the six digits of the number they spell.
pub proof fn lemma_window_of_spelled(d0: nat, d1: nat, d2: nat, d3: nat, d4: nat, d5: nat)
    requires
        d0 <= 9,
        d1 <= 9,
        d2 <= 9,
        d3 <= 9,
        d4 <= 9,
        d5 <= 9,
    ensures
        spelled(d0, d1, d2, d3, d4, d5) < RAW_LIMIT,
        window(spelled(d0, d1, d2, d3, d4, d5)) == seq![d0, d1, d2, d3, d4, d5],
{
    let v = spelled(d0, d1, d2, d3, d4, d5) as int;
    let a1 = (d0 * 10000 + d1 * 1000 + d2 * 100 + d3 * 10 + d4) as int;
    let a2 = (d0 * 1000 + d1 * 100 + d2 * 10 + d3) as int;
    let a3 = (d0 * 100 + d1 * 10 + d2) as int;
    let a4 = (d0 * 10 + d1) as int;
    lemma_fundamental_div_mod_converse(v, 10, a1, d5 as int);
    lemma_fundamental_div_mod_converse(v, 100, a2, (d4 * 10 + d5) as int);
    lemma_fundamental_div_mod_converse(v, 1000, a3, (d3 * 100 + d4 * 10 + d5) as int);
    lemma_fundamental_div_mod_converse(
        v,
        10000,
        a4,
        (d2 * 1000 + d3 * 100 + d4 * 10 + d5) as int,
    );
    lemma_fundamental_div_mod_converse(
        v,
        100000,
        d0 as int,
        (d1 * 10000 + d2 * 1000 + d3 * 100 + d4 * 10 + d5) as int,
    );
    lemma_fundamental_div_mod_converse(a1, 10, a2, d4 as int);
    lemma_fundamental_div_mod_converse(a2, 10, a3, d3 as int);
    lemma_fundamental_div_mod_converse(a3, 10, a4, d2 as int);
    lemma_fundamental_div_mod_converse(a4, 10, d0 as int, d1 as int);
    lemma_fundamental_div_mod_converse(d0 as int, 10, 0, d0 as int);
    assert(window(v as nat) =~= seq![d0, d1, d2, d3, d4, d5]);
}

/// The six digits of a buffer are decimal digits and spell its number.
pub proof fn lemma_window_spells(v: nat)
    requires
        v < RAW_LIMIT,
    ensures
        window(v).len() == 6,
        forall|i: int| 0 <= i < 6 ==> #[trigger] window(v)[i] <= 9,
        v == spelled(
            window(v)[0],
            window(v)[1],
            window(v)[2],
            window(v)[3],
            window(v)[4],
            window(v)[5],
        ),
{
    let x = v as int;
    lemma_div_denominator(x, 10, 10);
    lemma_div_denominator(x, 100, 10);
    lemma_div_denominator(x, 1000, 10);
    lemma_div_denominator(x, 10000, 10);
    lemma_div_denominator(x, 100000, 10);
    let a1 = x / 10;
    let a2 = a1 / 10;
    let a3 = a2 / 10;
    let a4 = a3 / 10;
    let a5 = a4 / 10;
    assert(a2 == x / 100);
    assert(a3 == x / 1000);
    assert(a4 == x / 10000);
    assert(a5 == x / 100000);
    assert(a5 / 10 == 0);
    assert(a5 % 10 == a5);
}

/// Typing a digit shifts the six digits left and puts the new one last.
pub proof fn lemma_push_shifts_window(v: nat, digit: nat)
    requires
        v < RAW_LIMIT,
        digit <= 9,
    ensures
        DigitBuffer::pushed(v, digit) < RAW_LIMIT,
        window(DigitBuffer::pushed(v, digit)) == window(v).drop_first().push(digit),
{
    let w = window(v);
    lemma_window_spells(v);
    let kept = spelled(w[1], w[2], w[3], w[4], w[5], digit);
    lemma_window_of_spelled(w[1], w[2], w[3], w[4], w[5], digit);
    lemma_fundamental_div_mod_converse(
        (v * 10 + digit) as int,
        RAW_LIMIT as int,
        w[0] as int,
        kept as int,
    );
    assert(DigitBuffer::pushed(v, digit) == kept);
    assert(window(kept) =~= w.drop_first().push(digit));
}

/// Erasing a digit shifts the six digits right and puts a zero first.
pub proof fn lemma_pop_shifts_window(v: nat)
    requires
        v < RAW_LIMIT,
    ensures
        DigitBuffer::popped(v) < RAW_LIMIT,
        window(DigitBuffer::popped(v)) == seq![0nat] + window(v).drop_last(),
{
    let w = window(v);
    lemma_window_spells(v);
    let kept = spelled(0, w[0], w[1], w[2], w[3], w[4]);
    lemma_window_of_spelled(0, w[0], w[1], w[2], w[3], w[4]);
    lemma_fundamental_div_mod_converse(v as int, 10, kept as int, w[5] as int);
    assert(DigitBuffer::popped(v) == kept);
    assert(window(kept) =~= seq![0nat] + w.drop_last());
}

/// Whatever is typed and erased, the buffer stays below 1 000 000 and its six
/// digits are the row that the keystrokes leave.
pub proof fn lemma_edits_keep_window(v: nat, edits: Seq<Edit>)
    requires
        v < RAW_LIMIT,
        forall|i: int|
            0 <= i < edits.len() ==> (#[trigger] edits[i] matches Edit::Push(digit) ==> digit <= 9),
    ensures
        edited(v, edits) < RAW_LIMIT,
        window(edited(v, edits)) == edited_window(window(v), edits),
    decreases edits.len(),
{
    if edits.len() > 0 {
        let init = edits.drop_last();
        assert forall|i: int| 0 <= i < init.len() implies (#[trigger] init[i] matches Edit::Push(
            digit,
        ) ==> digit <= 9) by {
            assert(init[i] == edits[i]);
        }
        lemma_edits_keep_window(v, init);
        let before = edited(v, init);
        match edits.last() {
            Edit::Push(digit) => {
                assert(edits[edits.len() - 1] == edits.last());
                lemma_push_shifts_window(before, digit as nat);
            },
            Edit::Pop => {
                lemma_pop_shifts_window(before);
            },
        }
    }
}

/// Typing digits into an empty buffer leaves the number they spell, cut down
/// to its last six digits.
pub proof fn lemma_pushes_spell_value(digits: Seq<nat>)
    requires
        forall|i: int| 0 <= i < digits.len() ==> #[trigger] digits[i] <= 9,
    ensures
        pushed_all(0, digits) == value_of(digits) % (RAW_LIMIT as nat),
    decreases digits.len(),
{
    if digits.len() > 0 {
        let init = digits.drop_last();
        assert forall|i: int| 0 <= i < init.len() implies #[trigger] init[i] <= 9 by {
            assert(init[i] == digits[i]);
        }
        lemma_pushes_spell_value(init);
        let a = value_of(init) as int;
        let d = digits.last() as int;
        let m = RAW_LIMIT as int;
        lemma_mul_mod_noop_left(a, 10, m);
        lemma_add_mod_noop((a % m) * 10, d, m);
        lemma_add_mod_noop(a * 10, d, m);
    }
}

} // verus!
