//! The size of the terminal.

use vstd::prelude::*;
use crate::error::FatalError;

verus! {

/// Calls `terminal_size::terminal_size`, which asks the operating system for
/// the size of the terminal behind the standard streams, and hands on its
/// answer as columns and rows. The answer depends on the terminal, so
/// nothing is claimed of it.
#[verifier::external_body]
fn query_terminal() -> (report: Option<(u16, u16)>) {
    match terminal_size::terminal_size() {
        Some((terminal_size::Width(w), terminal_size::Height(h))) => Some((w, h)),
        None => None,
    }
}

/// What a report of the terminal means: columns and rows, or the failure
/// of a terminal that reports nothing.
pub open spec fn size_of_report(report: Option<(u16, u16)>) -> Result<(usize, usize), FatalError> {
    match report {
        Some((w, h)) => Ok((w as usize, h as usize)),
        None => Err(FatalError::TerminalSize),
    }
}

/// Turns a report of the terminal into a size.
pub fn size_from(report: Option<(u16, u16)>) -> (size: Result<(usize, usize), FatalError>)
    ensures
        size == size_of_report(report),
{
    match report {
        Some((w, h)) => Ok((w as usize, h as usize)),
        None => Err(FatalError::TerminalSize),
    }
}

/// The width and height of the terminal, in columns and rows. Fails where
/// no terminal reports a size.
pub fn size() -> (size: Result<(usize, usize), FatalError>)
    ensures
        exists|report: Option<(u16, u16)>| size == #[trigger] size_of_report(report),
{
    let report = query_terminal();
    size_from(report)
}

} // verus!
