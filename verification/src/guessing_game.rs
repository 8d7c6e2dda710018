//! A number-guessing game: a secret from 1 to 99, two digit boxes, and a
//! hint after each guess.

use rand::Rng;
use vstd::prelude::*;

verus! {

/// The smallest secret.
pub const SECRET_MIN: u32 = 1;

/// The largest secret.
pub const SECRET_MAX: u32 = 99;

/// How a guess compares with the secret.
#[derive(Clone, Copy, Debug, PartialEq, Eq, Structural)]
pub struct Answer {
    /// The guess is the secret.
    pub is_true: bool,
    /// The guess is above the secret.
    pub is_bigger: bool,
}

impl Answer {
    /// The answer before any guess: neither right nor too big.
    pub fn new() -> (answer: Answer)
        ensures
            !answer.is_true,
            !answer.is_bigger,
    {
        Answer { is_true: false, is_bigger: false }
    }
}

/// What the game tells the player.
#[derive(Clone, Copy, Debug, PartialEq, Eq, Structural)]
pub enum Hint {
    /// Nothing yet.
    Blank,
    /// The guess was right.
    Correct,
    /// The guess was too big: try a smaller number.
    Smaller,
    /// The guess was too small: try a bigger number.
    Bigger,
}

/// The whole state of a game.
pub struct GuessState {
    /// The number to be found.
    pub secret: u32,
    /// The digit in the tens box, if one was typed.
    pub digit_10: Option<u8>,
    /// The digit in the ones box, if one was typed.
    pub digit_1: Option<u8>,
    /// The hint on show.
    pub message: Hint,
    /// The box that the next typed digit goes to: 0 for the tens box, any
    /// other number for the ones box.
    pub selected: usize,
}

impl GuessState {
    /// A game that has just begun with the given secret.
    pub open spec fn fresh(secret: u32) -> GuessState {
        GuessState { secret, digit_10: None, digit_1: None, message: Hint::Blank, selected: 0 }
    }

    /// The number that the two boxes spell, as the digits stand side by
    /// side; none when both are empty.
    pub open spec fn entered(self) -> Option<u32> {
        match (self.digit_10, self.digit_1) {
            (Some(tens), Some(ones)) => Some((tens * 10 + ones) as u32),
            (Some(tens), None) => Some(tens as u32),
            (None, Some(ones)) => Some(ones as u32),
            (None, None) => None,
        }
    }

    /// The answer to a guess.
    pub open spec fn answer_to(self, guess: u32) -> Answer {
        Answer { is_true: guess == self.secret, is_bigger: guess > self.secret }
    }

    /// The hint that an answer earns.
    pub open spec fn hint_for(answer: Answer) -> Hint {
        if answer.is_true {
            Hint::Correct
        } else if answer.is_bigger {
            Hint::Smaller
        } else {
            Hint::Bigger
        }
    }

    /// The state after the boxes are submitted: the hint for the number they
    /// spell, or no change when they are empty.
    pub open spec fn submitted(self) -> GuessState {
        match self.entered() {
            Some(guess) => GuessState {
                message: GuessState::hint_for(self.answer_to(guess)),
                ..self
            },
            None => self,
        }
    }

    /// The state after a digit is typed into the selected box.
    pub open spec fn typed(self, digit: u8) -> GuessState {
        if self.selected == 0 {
            GuessState { digit_10: Some(digit), ..self }
        } else {
            GuessState { digit_1: Some(digit), ..self }
        }
    }
}

/// One game.
#[derive(Debug)]
pub struct GameState {
    secret_number: u32,
    digit_10: Option<u8>,
    digit_1: Option<u8>,
    message: Hint,
    selected: usize,
}

impl View for GameState {
    type V = GuessState;

    closed spec fn view(&self) -> GuessState {
        GuessState {
            secret: self.secret_number,
            digit_10: self.digit_10,
            digit_1: self.digit_1,
            message: self.message,
            selected: self.selected,
        }
    }
}

/// Draws a number from `low` to `high`, both included, with
/// `rand::Rng::random_range` on the generator that `rand::rng` hands out.
///
/// Trusted: the number drawn lies in the range. Which number it is depends on
/// the generator, so nothing more is said. An empty range makes the call
/// panic and is ruled out.
#[verifier::external_body]
fn random_in(low: u32, high: u32) -> (n: u32)
    requires
        low <= high,
    ensures
        low <= n <= high,
{
    rand::rng().random_range(low..=high)
}

impl GameState {
    /// The secret lies from 1 to 99 and the boxes hold decimal digits.
    #[verifier::type_invariant]
    spec fn inv(self) -> bool {
        &&& SECRET_MIN <= self.secret_number <= SECRET_MAX
        &&& (self.digit_10 matches Some(digit) ==> digit <= 9)
        &&& (self.digit_1 matches Some(digit) ==> digit <= 9)
    }

    /// A new game with a secret drawn at random from 1 to 99.
    pub fn new() -> (game: GameState)
        ensures
            game@ == GuessState::fresh(game@.secret),
            SECRET_MIN <= game@.secret <= SECRET_MAX,
    {
        GameState::with_secret(random_in(SECRET_MIN, SECRET_MAX))
    }

    /// A new game with the given secret.
    pub fn with_secret(secret: u32) -> (game: GameState)
        requires
            SECRET_MIN <= secret <= SECRET_MAX,
        ensures
            game@ == GuessState::fresh(secret),
    {
        GameState {
            secret_number: secret,
            digit_10: None,
            digit_1: None,
            message: Hint::Blank,
            selected: 0,
        }
    }

    /// Begins again: a new secret drawn at random from 1 to 99, empty boxes,
    /// no hint, the tens box selected.
    pub fn reload(&mut self)
        ensures
            final(self)@ == GuessState::fresh(final(self)@.secret),
            SECRET_MIN <= final(self)@.secret <= SECRET_MAX,
    {
        *self = GameState::with_secret(random_in(SECRET_MIN, SECRET_MAX));
    }

    /// Compares a guess with the secret.
    pub fn guess(&mut self, guess: u32) -> (answer: Answer)
        ensures
            answer == old(self)@.answer_to(guess),
            final(self)@ == old(self)@,
    {
        Answer { is_true: guess == self.secret_number, is_bigger: guess > self.secret_number }
    }

    /// The number that the two boxes spell, none when both are empty.
    pub fn entered_number(&self) -> (number: Option<u32>)
        ensures
            number == self@.entered(),
            number matches Some(n) ==> n <= 99,
    {
        proof {
            use_type_invariant(self);
        }
        match (self.digit_10, self.digit_1) {
            (Some(tens), Some(ones)) => Some(tens as u32 * 10 + ones as u32),
            (Some(tens), None) => Some(tens as u32),
            (None, Some(ones)) => Some(ones as u32),
            (None, None) => None,
        }
    }

    /// Submits the boxes as a guess and shows the hint it earns. With both
    /// boxes empty nothing changes.
    pub fn sub_guess(&mut self)
        ensures
            final(self)@ == old(self)@.submitted(),
    {
        proof {
            use_type_invariant(&*self);
        }
        match self.entered_number() {
            Some(number) => {
                let answer = self.guess(number);
                let message = if answer.is_true {
                    Hint::Correct
                } else if answer.is_bigger {
                    Hint::Smaller
                } else {
                    Hint::Bigger
                };
                *self = GameState {
                    secret_number: self.secret_number,
                    digit_10: self.digit_10,
                    digit_1: self.digit_1,
                    message,
                    selected: self.selected,
                };
            },
            None => {},
        }
    }

    /// Types a digit into the selected box.
    pub fn enter_digit(&mut self, digit: u8)
        requires
            digit <= 9,
        ensures
            final(self)@ == old(self)@.typed(digit),
    {
        proof {
            use_type_invariant(&*self);
        }
        if self.selected == 0 {
            *self = GameState {
                secret_number: self.secret_number,
                digit_10: Some(digit),
                digit_1: self.digit_1,
                message: self.message,
                selected: self.selected,
            };
        } else {
            *self = GameState {
                secret_number: self.secret_number,
                digit_10: self.digit_10,
                digit_1: Some(digit),
                message: self.message,
                selected: self.selected,
            };
        }
    }

    /// Selects the box that the next digit goes to: 0 for the tens box, 1
    /// for the ones box.
    pub fn select(&mut self, slot: usize)
        ensures
            final(self)@ == (GuessState { selected: slot, ..old(self)@ }),
    {
        proof {
            use_type_invariant(&*self);
        }
        *self = GameState {
            secret_number: self.secret_number,
            digit_10: self.digit_10,
            digit_1: self.digit_1,
            message: self.message,
            selected: slot,
        };
    }

    /// The hint on show.
    pub fn message(&self) -> (message: Hint)
        ensures
            message == self@.message,
    {
        self.message
    }

    /// The digit in the tens box.
    pub fn digit_10(&self) -> (digit: Option<u8>)
        ensures
            digit == self@.digit_10,
    {
        self.digit_10
    }

    /// The digit in the ones box.
    pub fn digit_1(&self) -> (digit: Option<u8>)
        ensures
            digit == self@.digit_1,
    {
        self.digit_1
    }

    /// The box that the next digit goes to.
    pub fn selected(&self) -> (slot: usize)
        ensures
            slot == self@.selected,
    {
        self.selected
    }
}

/// Of all the numbers a player can guess, exactly the secret is answered as
/// true, a number is answered as bigger exactly when it lies above the
/// secret, and no answer is both.
pub proof fn lemma_answers_order_guesses(state: GuessState, guess: u32)
    ensures
        state.answer_to(guess).is_true <==> guess == state.secret,
        state.answer_to(guess).is_bigger <==> guess > state.secret,
        !(state.answer_to(guess).is_true && state.answer_to(guess).is_bigger),
        GuessState::hint_for(state.answer_to(guess)) == Hint::Bigger <==> guess < state.secret,
{
}

} // verus!
