//! The key events that drive the editor.

use vstd::prelude::*;

verus! {

/// One decoded key press.
#[derive(Clone, Copy, Debug, PartialEq, Eq, Structural)]
pub enum Key {
    /// A printable character, inserted at the cursor.
    Char(char),
    /// Removes the character before the cursor.
    Backspace,
    /// Removes the character under the cursor.
    Delete,
    /// Moves the cursor one place towards the start of the line.
    Left,
    /// Moves the cursor one place towards the end of the line.
    Right,
    /// Moves the cursor to the start of the line.
    Home,
    /// Moves the cursor behind the last character.
    End,
    /// Steps to the next older history entry.
    Up,
    /// Steps to the next newer history entry.
    Down,
    /// Asks the completion callback for a replacement line.
    Tab,
    /// Commits the line.
    Enter,
}

impl Key {
    /// Keys that only move the cursor within the line.
    pub open spec fn is_motion(self) -> bool {
        self is Left || self is Right || self is Home || self is End
    }
}

} // verus!
