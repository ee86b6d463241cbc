//! The mathematical model of the editor.
//!
//! Lines are sequences of characters, positions are natural numbers, and
//! every key is a total function from one [`EditorState`] to the next.

use vstd::prelude::*;
use crate::key::Key;

verus! {

/// What a completion callback is asked.
#[verifier::ext_equal]
pub struct TabQueryView {
    pub input: Seq<char>,
    pub cursor_position: nat,
    pub cursor_before: nat,
    pub tab_repeat: nat,
}

/// What a completion callback answers.
#[verifier::ext_equal]
pub struct TabResultView {
    pub output: Seq<char>,
    pub cursor_movement: int,
}

/// The settings, without the completion callback.
#[verifier::ext_equal]
pub struct SettingsView {
    pub history_enabled: bool,
    pub history_limit: nat,
    pub prompt: Seq<char>,
}

/// The editor's whole state.
#[verifier::ext_equal]
pub struct EditorState {
    /// The one-time terminal setup has been done.
    pub initialized: bool,
    /// The editor accepts input.
    pub active: bool,
    /// The input pump should go on reading keys.
    pub running: bool,
    /// Committed lines that the host has not fetched yet, oldest first.
    pub queued_inputs: Seq<Seq<char>>,
    /// The line being edited.
    pub input: Seq<char>,
    /// The cursor, as a number of characters from the start of the line.
    pub cursor: nat,
    /// The line as it was when history browsing began.
    pub temp_input: Option<Seq<char>>,
    /// Earlier lines, newest last.
    pub history: Seq<Seq<char>>,
    /// How far browsing has gone back: 0 when not browsing, `k` when the
    /// line shows the `k`-th newest entry.
    pub history_index: nat,
    /// The number of Tab presses in the current streak.
    pub tab_repeat: nat,
    /// Where the cursor stood when the current streak began.
    pub cursor_before_tab: nat,
}

/// `pos` moved into `0..=len`.
pub open spec fn clamp(pos: int, len: nat) -> nat {
    if pos < 0 {
        0
    } else if pos > len {
        len
    } else {
        pos as nat
    }
}

/// The newest `n` entries of `s`, or all of `s` where it holds no more.
pub open spec fn keep_last<A>(s: Seq<A>, n: nat) -> Seq<A> {
    if s.len() <= n {
        s
    } else {
        s.skip(s.len() - n)
    }
}

impl EditorState {
    /// The state of a new editor.
    pub open spec fn initial() -> EditorState {
        EditorState {
            initialized: false,
            active: false,
            running: false,
            queued_inputs: Seq::empty(),
            input: Seq::empty(),
            cursor: 0,
            temp_input: None,
            history: Seq::empty(),
            history_index: 0,
            tab_repeat: 0,
            cursor_before_tab: 0,
        }
    }

    /// The invariant that every transition keeps: the cursor stands within
    /// the line, the browsing position within the history, a line is saved
    /// exactly while browsing, only an active editor runs, and only an
    /// editor whose terminal is set up is active.
    pub open spec fn wf(self) -> bool {
        &&& self.cursor <= self.input.len()
        &&& self.history_index <= self.history.len()
        &&& (self.history_index > 0 <==> self.temp_input is Some)
        &&& (self.running ==> self.active)
        &&& (self.active ==> self.initialized)
    }

    /// The line shows a history entry.
    pub open spec fn browsing(self) -> bool {
        self.history_index > 0
    }

    /// The entry `depth` steps back from the newest one (1 is the newest).
    pub open spec fn entry(self, depth: nat) -> Seq<char>
        recommends
            1 <= depth <= self.history.len(),
    {
        self.history[self.history.len() - depth]
    }

    /// Leaves history browsing and drops the saved line.
    pub open spec fn end_browsing(self) -> EditorState {
        EditorState { temp_input: None, history_index: 0, ..self }
    }

    /// Ends the Tab streak.
    pub open spec fn end_streak(self) -> EditorState {
        EditorState { tab_repeat: 0, ..self }
    }

    /// A character typed at the cursor.
    pub open spec fn insert(self, c: char) -> EditorState {
        EditorState {
            input: self.input.insert(self.cursor as int, c),
            cursor: self.cursor + 1,
            ..self
        }.end_streak().end_browsing()
    }

    /// Backspace: removes the character before the cursor, if there is one.
    pub open spec fn backspace(self) -> EditorState {
        if self.cursor > 0 {
            EditorState {
                input: self.input.remove(self.cursor - 1),
                cursor: (self.cursor - 1) as nat,
                ..self
            }.end_streak().end_browsing()
        } else {
            self.end_streak().end_browsing()
        }
    }

    /// Delete: removes the character under the cursor, if there is one.
    pub open spec fn delete(self) -> EditorState {
        if self.cursor < self.input.len() {
            EditorState {
                input: self.input.remove(self.cursor as int),
                ..self
            }.end_streak().end_browsing()
        } else {
            self.end_streak().end_browsing()
        }
    }

    /// Puts the cursor at `pos`, moved into the line. The Tab streak goes on.
    pub open spec fn move_to(self, pos: int) -> EditorState {
        EditorState { cursor: clamp(pos, self.input.len()), ..self }.end_browsing()
    }

    /// Left, Right, Home and End.
    pub open spec fn motion(self, key: Key) -> EditorState
        recommends
            key.is_motion(),
    {
        match key {
            Key::Left => self.move_to(self.cursor as int - 1),
            Key::Right => self.move_to(self.cursor as int + 1),
            Key::Home => self.move_to(0),
            _ => self.move_to(self.input.len() as int),
        }
    }

    /// Up: one entry older, and no further than the oldest. The first step
    /// saves the line being edited. With an empty history there is nothing
    /// to show.
    pub open spec fn history_up(self) -> EditorState {
        if self.history.len() > 0 {
            let depth = if self.history_index < self.history.len() {
                self.history_index + 1
            } else {
                self.history.len()
            };
            let line = self.entry(depth);
            EditorState {
                temp_input: if self.history_index == 0 {
                    Some(self.input)
                } else {
                    self.temp_input
                },
                history_index: depth,
                input: line,
                cursor: line.len(),
                ..self
            }.end_streak()
        } else {
            self.end_streak()
        }
    }

    /// Down: one entry newer. Stepping past the newest entry brings the
    /// saved line back and leaves browsing.
    pub open spec fn history_down(self) -> EditorState {
        if self.history_index == 0 {
            self.end_streak()
        } else if self.history_index == 1 {
            let line = self.temp_input.unwrap();
            EditorState {
                input: line,
                cursor: line.len(),
                ..self
            }.end_streak().end_browsing()
        } else {
            let depth = (self.history_index - 1) as nat;
            let line = self.entry(depth);
            EditorState {
                history_index: depth,
                input: line,
                cursor: line.len(),
                ..self
            }.end_streak()
        }
    }

    /// The streak count after one more Tab. It stops at `usize::MAX`.
    pub open spec fn next_tab_repeat(self) -> nat {
        if self.tab_repeat < usize::MAX {
            self.tab_repeat + 1
        } else {
            self.tab_repeat
        }
    }

    /// The bookkeeping of a Tab press, before the callback is asked: the first
    /// Tab of a streak records the cursor, every Tab counts.
    pub open spec fn begin_tab(self) -> EditorState {
        EditorState {
            cursor_before_tab: if self.tab_repeat == 0 {
                self.cursor
            } else {
                self.cursor_before_tab
            },
            tab_repeat: self.next_tab_repeat(),
            ..self
        }
    }

    /// The query that a Tab press in this state hands to the callback.
    pub open spec fn tab_query(self) -> TabQueryView {
        let s = self.begin_tab();
        TabQueryView {
            input: s.input,
            cursor_position: s.cursor,
            cursor_before: s.cursor_before_tab,
            tab_repeat: s.tab_repeat,
        }
    }

    /// Takes the callback's answer: a replacement line with a cursor
    /// displacement, or nothing.
    pub open spec fn apply_tab(self, completion: Option<TabResultView>) -> EditorState {
        match completion {
            Some(r) => EditorState {
                input: r.output,
                cursor: clamp(self.cursor + r.cursor_movement, r.output.len()),
                ..self
            },
            None => self,
        }
    }

    /// A whole Tab press whose callback answered `completion`.
    pub open spec fn tab(self, completion: Option<TabResultView>) -> EditorState {
        self.begin_tab().apply_tab(completion)
    }

    /// The history after `line` was committed under `settings`.
    pub open spec fn history_after(self, settings: SettingsView, line: Seq<char>) -> Seq<
        Seq<char>,
    > {
        if settings.history_enabled && line.len() > 0 {
            keep_last(self.history.push(line), settings.history_limit)
        } else {
            self.history
        }
    }

    /// Enter: commits the line and starts an empty one.
    pub open spec fn enter(self, settings: SettingsView) -> EditorState {
        EditorState {
            queued_inputs: self.queued_inputs.push(self.input),
            history: self.history_after(settings, self.input),
            input: Seq::empty(),
            cursor: 0,
            temp_input: None,
            history_index: 0,
            tab_repeat: 0,
            cursor_before_tab: 0,
            ..self
        }
    }

    /// Empties the line. History and browsing stay as they are.
    pub open spec fn clear_input(self) -> EditorState {
        EditorState { input: Seq::empty(), cursor: 0, ..self }
    }

    /// Empties the history and leaves browsing.
    pub open spec fn clear_history(self) -> EditorState {
        EditorState { history: Seq::empty(), ..self }.end_browsing()
    }

    /// The state after the host fetched the committed lines.
    pub open spec fn drained(self) -> EditorState {
        EditorState { queued_inputs: Seq::empty(), ..self }
    }

    /// Activation. `setup_ok` says whether the one-time terminal setup
    /// succeeds; it is read only where the setup is still to be done.
    pub open spec fn activate(self, setup_ok: bool) -> EditorState {
        if !self.active && (self.initialized || setup_ok) {
            EditorState { initialized: true, active: true, running: true, ..self }
        } else {
            self
        }
    }

    /// Activation changes the state: the editor was inactive and its
    /// terminal setup is done or succeeds.
    pub open spec fn activates(self, setup_ok: bool) -> bool {
        !self.active && (self.initialized || setup_ok)
    }

    /// A deactivation that finds the pump running asks it to stop.
    pub open spec fn stops(self) -> bool {
        self.active && self.running
    }

    /// The first half of deactivation: the pump is asked to stop.
    pub open spec fn deactivate(self) -> EditorState {
        if self.stops() {
            EditorState { running: false, ..self }
        } else {
            self
        }
    }

    /// The second half of deactivation, after the pump has ended: the
    /// editor is inactive.
    pub open spec fn finish_deactivate(self) -> EditorState {
        if self.active && !self.running {
            EditorState { active: false, ..self }
        } else {
            self
        }
    }

    /// One key press. `completion` is the callback's answer and is read for
    /// Tab only.
    pub open spec fn step(
        self,
        settings: SettingsView,
        key: Key,
        completion: Option<TabResultView>,
    ) -> EditorState {
        match key {
            Key::Char(c) => self.insert(c),
            Key::Backspace => self.backspace(),
            Key::Delete => self.delete(),
            Key::Left | Key::Right | Key::Home | Key::End => self.motion(key),
            Key::Up => self.history_up(),
            Key::Down => self.history_down(),
            Key::Tab => self.tab(completion),
            Key::Enter => self.enter(settings),
        }
    }

    /// The keys of `keys` pressed in turn, with no completion on offer.
    pub open spec fn run(self, settings: SettingsView, keys: Seq<Key>) -> EditorState
        decreases keys.len(),
    {
        if keys.len() == 0 {
            self
        } else {
            self.run(settings, keys.drop_last()).step(settings, keys.last(), None)
        }
    }
}

} // verus!
