//! The tab-completion protocol.
//!
//! On every Tab press the editor builds a [`TabQuery`] and hands it to the
//! completion callback of the settings. The callback answers with a
//! [`TabResult`], or with nothing where it has no completion to offer. What
//! a callback needs to cycle through candidates is in the query, so a
//! callback keeps no state of its own.

use vstd::prelude::*;
use vstd::string::*;
use crate::model::{TabQueryView, TabResultView};

verus! {

/// What the editor tells the completion callback.
pub struct TabQuery {
    /// The line as it stands.
    pub input: String,
    /// The cursor, in characters from the start of the line.
    pub cursor_position: usize,
    /// Where the cursor stood at the first Tab of this streak.
    pub cursor_before: usize,
    /// The number of this Tab within its streak, starting at 1.
    pub tab_repeat: usize,
}

/// What the completion callback answers.
pub struct TabResult {
    /// The line that replaces the current one.
    pub output: String,
    /// How far the cursor moves, in characters; negative is leftwards.
    pub cursor_movement: isize,
}

impl View for TabQuery {
    type V = TabQueryView;

    open spec fn view(&self) -> TabQueryView {
        TabQueryView {
            input: self.input@,
            cursor_position: self.cursor_position as nat,
            cursor_before: self.cursor_before as nat,
            tab_repeat: self.tab_repeat as nat,
        }
    }
}

impl View for TabResult {
    type V = TabResultView;

    open spec fn view(&self) -> TabResultView {
        TabResultView { output: self.output@, cursor_movement: self.cursor_movement as int }
    }
}

/// The model of a callback's answer.
pub open spec fn answer_view(answer: Option<TabResult>) -> Option<TabResultView> {
    match answer {
        Some(r) => Some(r@),
        None => None,
    }
}

/// The four spaces that [`tab_spaces`] appends.
pub open spec fn indent() -> Seq<char> {
    seq![' ', ' ', ' ', ' ']
}

/// The completion that treats Tab as indentation: four spaces are appended
/// to the line and the cursor moves four places to the right.
pub fn tab_spaces(query: TabQuery) -> (answer: Option<TabResult>)
    ensures
        answer_view(answer) == Some(
            TabResultView { output: query@.input + indent(), cursor_movement: 4 },
        ),
{
    proof {
        reveal_strlit("    ");
    }
    Some(TabResult { output: query.input.concat("    "), cursor_movement: 4 })
}

/// The completion that never offers anything.
pub fn tab_nothing(query: TabQuery) -> (answer: Option<TabResult>)
    ensures
        answer is None,
{
    None
}

} // verus!
