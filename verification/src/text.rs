//! Editing a line of text one character at a time.
//!
//! Positions count characters, not bytes.

use vstd::prelude::*;
use vstd::string::*;

verus! {

/// `String::push` of the standard library: the string afterwards holds the
/// characters it held before, followed by `ch`.
pub assume_specification[ String::push ](s: &mut String, ch: char)
    ensures
        final(s)@ == old(s)@.push(ch),
;

/// The number of characters in `line`.
pub fn char_len(line: &String) -> (n: usize)
    ensures
        n == line@.len(),
{
    line.as_str().unicode_len()
}

/// `line` with `c` put in front of the character at `at`.
pub fn insert_char(line: &String, at: usize, c: char) -> (out: String)
    requires
        at <= line@.len(),
    ensures
        out@ == line@.insert(at as int, c),
{
    let text = line.as_str();
    let n: usize = text.unicode_len();
    let mut out = String::from_str(text.substring_char(0, at));
    out.push(c);
    out.append(text.substring_char(at, n));
    out
}

/// `line` without the character at `at`.
pub fn remove_char(line: &String, at: usize) -> (out: String)
    requires
        at < line@.len(),
    ensures
        out@ == line@.remove(at as int),
{
    let text = line.as_str();
    let n: usize = text.unicode_len();
    let mut out = String::from_str(text.substring_char(0, at));
    out.append(text.substring_char(at + 1, n));
    out
}

} // verus!
