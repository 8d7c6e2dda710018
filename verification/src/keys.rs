//! From key names to commands.

use crate::state::Command;
use vstd::prelude::*;
use vstd::string::StrSliceExecFns;

verus! {

/// The name of the key that erases: `backspace`.
pub open spec fn backspace_key() -> Seq<char> {
    seq!['b', 'a', 'c', 'k', 's', 'p', 'a', 'c', 'e']
}

/// The name of the key that confirms: `enter`.
pub open spec fn enter_key() -> Seq<char> {
    seq!['e', 'n', 't', 'e', 'r']
}

/// The command a key stands for: one of the ten digit keys, `backspace` or
/// `enter`. Any other key stands for none.
pub open spec fn key_command(key: Seq<char>) -> Option<Command> {
    if key.len() == 1 && '0' <= key[0] <= '9' {
        Some(Command::Digit((key[0] as u32 - '0' as u32) as u8))
    } else if key == backspace_key() {
        Some(Command::Backspace)
    } else if key == enter_key() {
        Some(Command::Confirm)
    } else {
        None
    }
}

/// Whether `key` spells exactly the characters of `name`.
fn key_is(key: &str, name: &[char]) -> (same: bool)
    ensures
        same == (key@ == name@),
{
    let len = key.unicode_len();
    if len != name.len() {
        return false;
    }
    let mut i: usize = 0;
    while i < len
        invariant
            len == key@.len(),
            len == name@.len(),
            i <= len,
            forall|j: int| 0 <= j < i ==> key@[j] == name@[j],
        decreases len - i,
    {
        if key.get_char(i) != name[i] {
            return false;
        }
        i += 1;
    }
    assert(key@ =~= name@);
    true
}

/// The digit a digit character stands for.
fn digit_of(c: char) -> (digit: Option<u8>)
    ensures
        digit == if '0' <= c <= '9' {
            Some((c as u32 - '0' as u32) as u8)
        } else {
            None::<u8>
        },
{
    match c {
        '0' => Some(0),
        '1' => Some(1),
        '2' => Some(2),
        '3' => Some(3),
        '4' => Some(4),
        '5' => Some(5),
        '6' => Some(6),
        '7' => Some(7),
        '8' => Some(8),
        '9' => Some(9),
        _ => None,
    }
}

/// Reads a key name as a command: `0` to `9` type a digit, `backspace`
/// erases one, `enter` confirms. Every other key is turned away with `None`.
pub fn command_of_key(key: &str) -> (command: Option<Command>)
    ensures
        command == key_command(key@),
        command matches Some(Command::Digit(digit)) ==> digit <= 9,
{
    if key.unicode_len() == 1 {
        match digit_of(key.get_char(0)) {
            Some(digit) => Some(Command::Digit(digit)),
            None => None,
        }
    } else if key_is(key, &['b', 'a', 'c', 'k', 's', 'p', 'a', 'c', 'e']) {
        Some(Command::Backspace)
    } else if key_is(key, &['e', 'n', 't', 'e', 'r']) {
        Some(Command::Confirm)
    } else {
        None
    }
}

} // verus!
