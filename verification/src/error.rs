//! The failures that end the editor.

use vstd::prelude::*;
use vstd::string::*;

verus! {

/// A failure of the terminal that the editor cannot work around.
#[derive(Clone, Copy, Debug, PartialEq, Eq, Structural)]
pub enum FatalError {
    /// The terminal could not be switched to ANSI escape codes.
    AnsiSupport,
    /// No terminal reports its size.
    TerminalSize,
}

impl FatalError {
    /// The text of the message that belongs to the failure.
    pub open spec fn text(self) -> Seq<char> {
        match self {
            FatalError::AnsiSupport => "could not enable ansi support"@,
            FatalError::TerminalSize =>
                "\rUnable to get terminal size. Please use different terminal"@,
        }
    }

    /// The message to end the process with.
    pub fn message(&self) -> (message: String)
        ensures
            message@ == self.text(),
    {
        match self {
            FatalError::AnsiSupport => String::from_str("could not enable ansi support"),
            FatalError::TerminalSize => String::from_str(
                "\rUnable to get terminal size. Please use different terminal",
            ),
        }
    }
}

} // verus!
