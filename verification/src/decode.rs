//! Decoding the characters that a terminal sends into keys.
//!
//! A terminal sends a printable key as the character itself, and a special
//! key as a control character or as an ANSI escape sequence: the escape
//! character, `[`, and one or two characters that name the key. The decoder
//! takes one character at a time and says which key, if any, it completes.

use vstd::prelude::*;
use crate::key::Key;

verus! {

/// Where the decoder stands within an escape sequence.
#[derive(Clone, Copy, Debug, PartialEq, Eq, Structural)]
pub enum KeyDecoder {
    /// Between keys.
    Ground,
    /// Behind the escape character.
    Escape,
    /// Behind the escape character and `[`.
    Bracket,
    /// Behind the escape character, `[` and this digit; `~` ends the
    /// sequence.
    Digit(char),
}

/// The escape character.
pub open spec fn escape() -> char {
    '\x1b'
}

/// A control character: one below the space, or the delete character.
pub open spec fn is_control(c: char) -> bool {
    (c as u32) < 0x20 || c == '\x7f'
}

/// The key of a single character outside an escape sequence.
pub open spec fn plain_key(c: char) -> Option<Key> {
    if c == '\r' || c == '\n' {
        Some(Key::Enter)
    } else if c == '\t' {
        Some(Key::Tab)
    } else if c == '\x7f' || c == '\x08' {
        Some(Key::Backspace)
    } else if is_control(c) {
        None
    } else {
        Some(Key::Char(c))
    }
}

/// The key of the letter that ends a sequence behind `[`.
pub open spec fn letter_key(c: char) -> Option<Key> {
    if c == 'A' {
        Some(Key::Up)
    } else if c == 'B' {
        Some(Key::Down)
    } else if c == 'C' {
        Some(Key::Right)
    } else if c == 'D' {
        Some(Key::Left)
    } else if c == 'H' {
        Some(Key::Home)
    } else if c == 'F' {
        Some(Key::End)
    } else {
        None
    }
}

/// The key of the digit in a sequence that `~` ends.
pub open spec fn digit_key(d: char) -> Option<Key> {
    if d == '1' || d == '7' {
        Some(Key::Home)
    } else if d == '3' {
        Some(Key::Delete)
    } else if d == '4' || d == '8' {
        Some(Key::End)
    } else {
        None
    }
}

/// A decimal digit.
pub open spec fn is_digit(c: char) -> bool {
    '0' <= c <= '9'
}

/// The characters that a terminal sends for `key`.
pub open spec fn encoding(key: Key) -> Seq<char> {
    match key {
        Key::Char(c) => seq![c],
        Key::Backspace => seq!['\x7f'],
        Key::Delete => seq![escape(), '[', '3', '~'],
        Key::Left => seq![escape(), '[', 'D'],
        Key::Right => seq![escape(), '[', 'C'],
        Key::Home => seq![escape(), '[', 'H'],
        Key::End => seq![escape(), '[', 'F'],
        Key::Up => seq![escape(), '[', 'A'],
        Key::Down => seq![escape(), '[', 'B'],
        Key::Tab => seq!['\t'],
        Key::Enter => seq!['\r'],
    }
}

impl KeyDecoder {
    /// The decoder after the character `c`, and the key that `c` completes.
    /// A sequence that names no key is dropped as a whole.
    pub open spec fn step(self, c: char) -> (KeyDecoder, Option<Key>) {
        match self {
            KeyDecoder::Ground => if c == escape() {
                (KeyDecoder::Escape, None)
            } else {
                (KeyDecoder::Ground, plain_key(c))
            },
            KeyDecoder::Escape => if c == '[' {
                (KeyDecoder::Bracket, None)
            } else {
                (KeyDecoder::Ground, None)
            },
            KeyDecoder::Bracket => if is_digit(c) {
                (KeyDecoder::Digit(c), None)
            } else {
                (KeyDecoder::Ground, letter_key(c))
            },
            KeyDecoder::Digit(d) => if c == '~' {
                (KeyDecoder::Ground, digit_key(d))
            } else {
                (KeyDecoder::Ground, None)
            },
        }
    }

    /// The decoder after the characters `chars`, and the keys they gave.
    pub open spec fn run(self, chars: Seq<char>) -> (KeyDecoder, Seq<Key>)
        decreases chars.len(),
    {
        if chars.len() == 0 {
            (self, Seq::empty())
        } else {
            let (before, keys) = self.run(chars.drop_last());
            let (after, key) = before.step(chars.last());
            match key {
                Some(k) => (after, keys.push(k)),
                None => (after, keys),
            }
        }
    }

    /// A decoder between keys.
    pub fn new() -> (decoder: KeyDecoder)
        ensures
            decoder == KeyDecoder::Ground,
    {
        KeyDecoder::Ground
    }

    /// Takes the next character from the terminal. Returns the key that it
    /// completes, or nothing where a sequence goes on or names no key.
    pub fn feed(&mut self, c: char) -> (key: Option<Key>)
        ensures
            (*final(self), key) == old(self).step(c),
    {
        let (next, key) = match *self {
            KeyDecoder::Ground => if c == '\x1b' {
                (KeyDecoder::Escape, None)
            } else {
                (KeyDecoder::Ground, key_of_char(c))
            },
            KeyDecoder::Escape => if c == '[' {
                (KeyDecoder::Bracket, None)
            } else {
                (KeyDecoder::Ground, None)
            },
            KeyDecoder::Bracket => if '0' <= c && c <= '9' {
                (KeyDecoder::Digit(c), None)
            } else {
                (KeyDecoder::Ground, key_of_letter(c))
            },
            KeyDecoder::Digit(d) => if c == '~' {
                (KeyDecoder::Ground, key_of_digit(d))
            } else {
                (KeyDecoder::Ground, None)
            },
        };
        *self = next;
        key
    }
}

fn key_of_char(c: char) -> (key: Option<Key>)
    ensures
        key == plain_key(c),
{
    match c {
        '\r' | '\n' => Some(Key::Enter),
        '\t' => Some(Key::Tab),
        '\x7f' | '\x08' => Some(Key::Backspace),
        _ => if (c as u32) < 0x20 {
            None
        } else {
            Some(Key::Char(c))
        },
    }
}

fn key_of_letter(c: char) -> (key: Option<Key>)
    ensures
        key == letter_key(c),
{
    match c {
        'A' => Some(Key::Up),
        'B' => Some(Key::Down),
        'C' => Some(Key::Right),
        'D' => Some(Key::Left),
        'H' => Some(Key::Home),
        'F' => Some(Key::End),
        _ => None,
    }
}

fn key_of_digit(d: char) -> (key: Option<Key>)
    ensures
        key == digit_key(d),
{
    match d {
        '1' | '7' => Some(Key::Home),
        '3' => Some(Key::Delete),
        '4' | '8' => Some(Key::End),
        _ => None,
    }
}

/// Decoding undoes encoding. The characters that a terminal sends for a
/// key, taken between keys, give that key and nothing else, and leave the
/// decoder between keys. A typed character is meant to be a printable one.
pub proof fn lemma_decode_encoding(key: Key)
    requires
        key matches Key::Char(c) ==> !is_control(c),
    ensures
        KeyDecoder::Ground.run(encoding(key)) == (KeyDecoder::Ground, seq![key]),
{
    reveal_with_fuel(KeyDecoder::run, 5);
}

} // verus!
