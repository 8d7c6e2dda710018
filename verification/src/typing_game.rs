//! A typing game: words to be typed letter by letter, one word at a time.

use vstd::prelude::*;
use vstd::string::{StrSliceExecFns, StringExecFns};

verus! {

/// The whole state of a game, letter by letter.
pub struct TypingState {
    /// The words still to come; the last one comes next.
    pub words: Seq<Seq<char>>,
    /// The word being typed.
    pub current: Seq<char>,
    /// How many letters of it have been typed.
    pub progress: nat,
}

impl TypingState {
    /// The letter to be typed next, if the word has one left.
    pub open spec fn target(self) -> Option<char> {
        if self.progress < self.current.len() {
            Some(self.current[self.progress as int])
        } else {
            None
        }
    }

    /// The state once the word in hand is done: the last of the words to
    /// come is taken up, or the empty word when there is none.
    pub open spec fn next_word(self) -> TypingState {
        if self.words.len() > 0 {
            TypingState { words: self.words.drop_last(), current: self.words.last(), progress: 0 }
        } else {
            TypingState { words: self.words, current: Seq::empty(), progress: 0 }
        }
    }

    /// The state after a key is pressed. The key counts when it is exactly
    /// the letter to be typed next: it moves the game one letter on, and on
    /// to the next word after the last letter. Any other key changes
    /// nothing.
    pub open spec fn judged(self, key: Seq<char>) -> TypingState {
        match self.target() {
            Some(letter) => if key == seq![letter] {
                if self.progress + 1 == self.current.len() {
                    self.next_word()
                } else {
                    TypingState { progress: self.progress + 1, ..self }
                }
            } else {
                self
            },
            None => self,
        }
    }
}

/// One game.
#[derive(Debug)]
pub struct GameState {
    pub word_list: Vec<String>,
    pub current_word: String,
    pub progress: usize,
}

impl View for GameState {
    type V = TypingState;

    open spec fn view(&self) -> TypingState {
        TypingState {
            words: Seq::new(self.word_list@.len(), |i: int| self.word_list@[i]@),
            current: self.current_word@,
            progress: self.progress as nat,
        }
    }
}

impl GameState {
    /// A new game: `cherry` is the word in hand, `banana` and `apple` come
    /// after it, in that order.
    pub fn new() -> (game: GameState)
        ensures
            game@.words == seq!["apple"@, "banana"@],
            game@.current == "cherry"@,
            game@.progress == 0,
    {
        let mut list = Self::new_targets();
        let current_word = match list.pop() {
            Some(word) => word,
            None => String::new(),
        };
        let game = GameState { word_list: list, current_word, progress: 0 };
        assert(game@.words =~= seq!["apple"@, "banana"@]);
        game
    }

    /// The words of a game; the last one is typed first.
    pub fn new_targets() -> (targets: Vec<String>)
        ensures
            targets@.len() == 3,
            targets@[0]@ == "apple"@,
            targets@[1]@ == "banana"@,
            targets@[2]@ == "cherry"@,
    {
        let mut targets: Vec<String> = Vec::new();
        targets.push(String::from_str("apple"));
        targets.push(String::from_str("banana"));
        targets.push(String::from_str("cherry"));
        targets
    }

    /// A key is pressed. The key that is exactly the next letter of the word
    /// in hand moves the game one letter on; after the last letter the next
    /// word is taken up, the empty word when none is left. Any other key
    /// changes nothing.
    pub fn judge_input(&mut self, key: &str)
        ensures
            final(self)@ == old(self)@.judged(key@),
    {
        let word_len = self.current_word.as_str().unicode_len();
        if self.progress >= word_len {
            return;
        }
        let target = self.current_word.as_str().get_char(self.progress);
        if key.unicode_len() == 1 && key.get_char(0) == target {
            assert(key@ =~= seq![target]);
            self.progress += 1;
            if self.progress == word_len {
                self.progress = 0;
                self.current_word = match self.word_list.pop() {
                    Some(word) => word,
                    None => String::new(),
                };
                assert(self@.words =~= old(self)@.next_word().words);
            }
        }
        assert(self@.words =~= old(self)@.judged(key@).words);
    }
}

} // verus!
