//! The editor: the executable state and its transitions.
//!
//! Every function here is stated over the model of [`crate::model`]: the
//! state after a call is the model's transition applied to the state before.

use std::collections::VecDeque;
use vstd::prelude::*;
use vstd::string::*;
use crate::key::Key;
use crate::model::{keep_last, EditorState, TabResultView};
use crate::settings::Settings;
use crate::tab::{answer_view, TabQuery, TabResult};
use crate::text::{char_len, insert_char, remove_char};

verus! {

/// The texts of a sequence of strings.
pub open spec fn texts(lines: Seq<String>) -> Seq<Seq<char>> {
    Seq::new(lines.len(), |i: int| lines[i]@)
}

/// The state of one line editor.
pub struct Konsole {
    initialized: bool,
    active: bool,
    running: bool,
    queued_inputs: Vec<String>,
    input: String,
    temp_input: Option<String>,
    cursor: usize,
    history: VecDeque<String>,
    history_index: usize,
    tab_repeat: usize,
    cursor_before_tab: usize,
}

impl View for Konsole {
    type V = EditorState;

    closed spec fn view(&self) -> EditorState {
        EditorState {
            initialized: self.initialized,
            active: self.active,
            running: self.running,
            queued_inputs: texts(self.queued_inputs@),
            input: self.input@,
            cursor: self.cursor as nat,
            temp_input: match self.temp_input {
                Some(line) => Some(line@),
                None => None,
            },
            history: texts(self.history@),
            history_index: self.history_index as nat,
            tab_repeat: self.tab_repeat as nat,
            cursor_before_tab: self.cursor_before_tab as nat,
        }
    }
}

/// `complete` accepts the query that a Tab press in state `s` builds.
pub open spec fn accepts_query<F: Fn(TabQuery) -> Option<TabResult>>(
    complete: F,
    s: EditorState,
) -> bool {
    forall|q: TabQuery| q@ == s.tab_query() ==> call_requires(complete, (q,))
}

/// `answer` is something that `complete` may say to the query that a Tab
/// press in state `s` builds.
pub open spec fn may_answer<F: Fn(TabQuery) -> Option<TabResult>>(
    complete: F,
    s: EditorState,
    answer: Option<TabResultView>,
) -> bool {
    exists|q: TabQuery, a: Option<TabResult>|
        q@ == s.tab_query() && #[trigger] call_ensures(complete, (q,), a) && answer_view(a)
            == answer
}

impl Konsole {
    /// A new editor: inactive, with an empty line, no history and nothing
    /// committed.
    pub fn new() -> (konsole: Konsole)
        ensures
            konsole@ == EditorState::initial(),
            konsole@.wf(),
    {
        Konsole {
            active: false,
            initialized: false,
            running: false,
            queued_inputs: Vec::new(),
            input: String::new(),
            temp_input: None,
            cursor: 0,
            history: VecDeque::new(),
            history_index: 0,
            tab_repeat: 0,
            cursor_before_tab: 0,
        }
    }

    /// Whether the one-time terminal setup has been done.
    pub fn is_initialized(&self) -> (initialized: bool)
        ensures
            initialized == self@.initialized,
    {
        self.initialized
    }

    /// Whether the pump should read another key. The pump asks before every
    /// read and ends when the answer is no.
    pub fn is_running(&self) -> (running: bool)
        ensures
            running == self@.running,
    {
        self.running
    }

    /// The line being edited.
    pub fn input(&self) -> (line: &String)
        ensures
            line@ == self@.input,
    {
        &self.input
    }

    /// The cursor, in characters from the start of the line.
    pub fn cursor(&self) -> (cursor: usize)
        ensures
            cursor == self@.cursor,
    {
        self.cursor
    }

    /// The number of Tab presses in the current streak.
    pub fn tab_repeat(&self) -> (count: usize)
        ensures
            count == self@.tab_repeat,
    {
        self.tab_repeat
    }

    /// Where the cursor stood when the current Tab streak began.
    pub fn cursor_before_tab(&self) -> (cursor: usize)
        ensures
            cursor == self@.cursor_before_tab,
    {
        self.cursor_before_tab
    }

    /// The number of lines in the history.
    pub fn history_len(&self) -> (n: usize)
        ensures
            n == self@.history.len(),
    {
        self.history.len()
    }

    /// The history entry `depth` steps back from the newest one; 1 is the
    /// newest. There is none at depth 0 or beyond the oldest entry.
    pub fn history_entry(&self, depth: usize) -> (line: Option<&String>)
        ensures
            line is Some <==> 1 <= depth <= self@.history.len(),
            line matches Some(text) ==> text@ == self@.entry(depth as nat),
    {
        let n: usize = self.history.len();
        if 1 <= depth && depth <= n {
            Some(&self.history[n - depth])
        } else {
            None
        }
    }

    /// How far history browsing has gone back; 0 when not browsing.
    pub fn history_index(&self) -> (depth: usize)
        ensures
            depth == self@.history_index,
    {
        self.history_index
    }

    /// The number of committed lines that wait for the host.
    pub fn queued_len(&self) -> (n: usize)
        ensures
            n == self@.queued_inputs.len(),
    {
        self.queued_inputs.len()
    }

    /// What the painter shows: the prompt followed by the line, and the
    /// column of the cursor within that text.
    pub fn frame<F>(&self, settings: &Settings<F>) -> (frame: (String, usize))
        requires
            self@.wf(),
        ensures
            frame.0@ == settings@.prompt + self@.input,
            frame.1 == settings@.prompt.len() + self@.cursor,
    {
        let mut text = settings.prompt.clone();
        let offset: usize = char_len(&text);
        text.append(self.input.as_str());
        // Counting the whole text shows that the column fits.
        let _room: usize = char_len(&text);
        (text, offset + self.cursor)
    }

    /// Leaves history browsing and drops the saved line.
    fn end_browsing(&mut self)
        ensures
            final(self)@ == old(self)@.end_browsing(),
    {
        self.temp_input = None;
        self.history_index = 0;
    }

    /// Ends the Tab streak.
    fn end_streak(&mut self)
        ensures
            final(self)@ == old(self)@.end_streak(),
    {
        self.tab_repeat = 0;
    }

    /// Types `c` at the cursor.
    pub fn insert(&mut self, c: char)
        requires
            old(self)@.wf(),
        ensures
            final(self)@ == old(self)@.insert(c),
            final(self)@.wf(),
    {
        let line = insert_char(&self.input, self.cursor, c);
        // Counting the new line shows that the cursor has room to advance.
        let _room: usize = char_len(&line);
        self.input = line;
        self.cursor = self.cursor + 1;
        self.end_streak();
        self.end_browsing();
    }

    /// Backspace: removes the character before the cursor. At the start of
    /// the line the text stays as it is.
    pub fn backspace(&mut self)
        requires
            old(self)@.wf(),
        ensures
            final(self)@ == old(self)@.backspace(),
            final(self)@.wf(),
    {
        if self.cursor > 0 {
            self.input = remove_char(&self.input, self.cursor - 1);
            self.cursor = self.cursor - 1;
        }
        self.end_streak();
        self.end_browsing();
    }

    /// Delete: removes the character under the cursor. At the end of the
    /// line the text stays as it is.
    pub fn delete(&mut self)
        requires
            old(self)@.wf(),
        ensures
            final(self)@ == old(self)@.delete(),
            final(self)@.wf(),
    {
        let n: usize = char_len(&self.input);
        if self.cursor < n {
            self.input = remove_char(&self.input, self.cursor);
        }
        self.end_streak();
        self.end_browsing();
    }

    /// Left, Right, Home or End: moves the cursor and stays within the line.
    /// The Tab streak goes on; history browsing ends.
    pub fn motion(&mut self, key: Key)
        requires
            old(self)@.wf(),
            key.is_motion(),
        ensures
            final(self)@ == old(self)@.motion(key),
            final(self)@.wf(),
    {
        let n: usize = char_len(&self.input);
        match key {
            Key::Left => {
                if self.cursor > 0 {
                    self.cursor = self.cursor - 1;
                }
            },
            Key::Right => {
                if self.cursor < n {
                    self.cursor = self.cursor + 1;
                }
            },
            Key::Home => {
                self.cursor = 0;
            },
            _ => {
                self.cursor = n;
            },
        }
        self.end_browsing();
    }

    /// Up: shows the next older history entry, with the cursor at its end.
    /// The first step saves the line being edited. At the oldest entry that
    /// entry is shown again; with an empty history the line stays as it is.
    pub fn history_up(&mut self)
        requires
            old(self)@.wf(),
        ensures
            final(self)@ == old(self)@.history_up(),
            final(self)@.wf(),
    {
        let n: usize = self.history.len();
        if n > 0 {
            let depth: usize = if self.history_index < n {
                self.history_index + 1
            } else {
                n
            };
            let mut line = self.history[n - depth].clone();
            let len: usize = char_len(&line);
            core::mem::swap(&mut self.input, &mut line);
            if self.history_index == 0 {
                // `line` now holds what was being edited.
                self.temp_input = Some(line);
            }
            self.history_index = depth;
            self.cursor = len;
        }
        self.end_streak();
    }

    /// Down: shows the next newer history entry, with the cursor at its end.
    /// A step past the newest entry brings the saved line back.
    pub fn history_down(&mut self)
        requires
            old(self)@.wf(),
        ensures
            final(self)@ == old(self)@.history_down(),
            final(self)@.wf(),
    {
        if self.history_index == 1 {
            let saved = self.temp_input.take();
            if let Some(line) = saved {
                let len: usize = char_len(&line);
                self.input = line;
                self.cursor = len;
            }
            self.history_index = 0;
        } else if self.history_index > 1 {
            let n: usize = self.history.len();
            let depth: usize = self.history_index - 1;
            let line = self.history[n - depth].clone();
            let len: usize = char_len(&line);
            self.history_index = depth;
            self.input = line;
            self.cursor = len;
        }
        self.end_streak();
    }

    /// The bookkeeping of a Tab press: counts it, records the cursor if it
    /// is the first of a streak, and builds the query for the completion
    /// callback. The count stops at `usize::MAX`.
    pub fn begin_tab(&mut self) -> (query: TabQuery)
        requires
            old(self)@.wf(),
        ensures
            final(self)@ == old(self)@.begin_tab(),
            query@ == old(self)@.tab_query(),
            final(self)@.wf(),
    {
        if self.tab_repeat == 0 {
            self.cursor_before_tab = self.cursor;
        }
        self.tab_repeat = self.tab_repeat.saturating_add(1);
        TabQuery {
            input: self.input.clone(),
            cursor_position: self.cursor,
            cursor_before: self.cursor_before_tab,
            tab_repeat: self.tab_repeat,
        }
    }

    /// Takes the answer of the completion callback. An answer replaces the
    /// line and moves the cursor by the displacement it names, as far as the
    /// new line reaches. Without an answer nothing changes.
    pub fn apply_tab(&mut self, answer: Option<TabResult>)
        requires
            old(self)@.wf(),
        ensures
            final(self)@ == old(self)@.apply_tab(answer_view(answer)),
            final(self)@.wf(),
    {
        if let Some(result) = answer {
            let len: usize = char_len(&result.output);
            let target: usize = match self.cursor.checked_add_signed(result.cursor_movement) {
                Some(pos) => if pos > len {
                    len
                } else {
                    pos
                },
                None => if result.cursor_movement < 0 {
                    0
                } else {
                    len
                },
            };
            self.input = result.output;
            self.cursor = target;
        }
    }

    /// Tab: asks `complete` and takes its answer.
    pub fn tab<F: Fn(TabQuery) -> Option<TabResult>>(&mut self, complete: &F)
        requires
            old(self)@.wf(),
            accepts_query(*complete, old(self)@),
        ensures
            exists|answer: Option<TabResultView>|
                #[trigger] may_answer(*complete, old(self)@, answer) && final(self)@ == old(
                    self,
                )@.tab(answer),
            final(self)@.wf(),
    {
        let query = self.begin_tab();
        let answer = complete(query);
        assert(may_answer(*complete, old(self)@, answer_view(answer)));
        self.apply_tab(answer);
    }

    /// Enter: commits the line. With history enabled a line that is not
    /// empty is appended to the history, and the oldest entries leave until
    /// the history fits the limit. The line joins the committed lines,
    /// and an empty line with the cursor at 0 takes its place.
    pub fn enter<F>(&mut self, settings: &Settings<F>)
        requires
            old(self)@.wf(),
        ensures
            final(self)@ == old(self)@.enter(settings@),
            final(self)@.wf(),
    {
        let mut line = String::new();
        core::mem::swap(&mut self.input, &mut line);
        if settings.history_enabled && !line.as_str().is_empty() {
            self.history.push_back(line.clone());
            let ghost full = texts(self.history@);
            let ghost rest = self@;
            while self.history.len() > settings.history_limit
                invariant
                    self@ == (EditorState { history: texts(self.history@), ..rest }),
                    self.history@.len() <= full.len(),
                    full.len() <= settings.history_limit ==> self.history@.len() == full.len(),
                    full.len() > settings.history_limit ==> self.history@.len()
                        >= settings.history_limit,
                    texts(self.history@) == full.skip(full.len() - self.history@.len()),
                decreases self.history@.len(),
            {
                let ghost before = texts(self.history@);
                self.history.pop_front();
                assert(before.skip(1) =~= full.skip(full.len() - self.history@.len()));
            }
        }
        self.queued_inputs.push(line);
        self.cursor = 0;
        self.temp_input = None;
        self.history_index = 0;
        self.tab_repeat = 0;
        self.cursor_before_tab = 0;
    }

    /// One key press: the transition that belongs to `key`. Tab asks the
    /// completion callback of `settings`.
    pub fn handle_key<F: Fn(TabQuery) -> Option<TabResult>>(
        &mut self,
        settings: &Settings<F>,
        key: Key,
    )
        requires
            old(self)@.wf(),
            key is Tab ==> accepts_query(settings.tab_complete, old(self)@),
        ensures
            key !is Tab ==> final(self)@ == old(self)@.step(settings@, key, None),
            key is Tab ==> exists|answer: Option<TabResultView>|
                #[trigger] may_answer(settings.tab_complete, old(self)@, answer) && final(self)@
                    == old(self)@.step(settings@, key, answer),
            final(self)@.wf(),
    {
        match key {
            Key::Char(c) => self.insert(c),
            Key::Backspace => self.backspace(),
            Key::Delete => self.delete(),
            Key::Left | Key::Right | Key::Home | Key::End => self.motion(key),
            Key::Up => self.history_up(),
            Key::Down => self.history_down(),
            Key::Tab => self.tab(&settings.tab_complete),
            Key::Enter => self.enter(settings),
        }
    }

    /// Activation, given the outcome of the one-time terminal setup. An
    /// active editor stays as it is. An inactive one becomes active and
    /// running where its setup was done before or `setup_ok` holds. The
    /// result says whether the editor was started by this call.
    pub(crate) fn start(&mut self, setup_ok: bool) -> (started: bool)
        requires
            old(self)@.wf(),
        ensures
            started == old(self)@.activates(setup_ok),
            final(self)@ == old(self)@.activate(setup_ok),
            final(self)@.wf(),
    {
        if !self.active && (self.initialized || setup_ok) {
            self.initialized = true;
            self.active = true;
            self.running = true;
            true
        } else {
            false
        }
    }

    /// The first half of deactivation: asks the pump to stop. The result
    /// says whether this call did so; it did not where the editor is
    /// inactive or was asked before.
    pub(crate) fn request_stop(&mut self) -> (stopping: bool)
        requires
            old(self)@.wf(),
        ensures
            stopping == old(self)@.stops(),
            final(self)@ == old(self)@.deactivate(),
            final(self)@.wf(),
    {
        if self.active && self.running {
            self.running = false;
            true
        } else {
            false
        }
    }

    /// The second half of deactivation, for the caller that asked the pump
    /// to stop and has seen it end: the editor becomes inactive. In any
    /// other state nothing changes.
    pub(crate) fn finish_stop(&mut self)
        requires
            old(self)@.wf(),
        ensures
            final(self)@ == old(self)@.finish_deactivate(),
            final(self)@.wf(),
    {
        if self.active && !self.running {
            self.active = false;
        }
    }
}

/// Whether the editor accepts input.
pub fn is_active(konsole: &Konsole) -> (active: bool)
    ensures
        active == konsole@.active,
{
    konsole.active
}

/// Hands out the lines committed since the last call, oldest first, and
/// leaves none behind.
pub fn queued_inputs(konsole: &mut Konsole) -> (lines: Vec<String>)
    ensures
        texts(lines@) == old(konsole)@.queued_inputs,
        final(konsole)@ == old(konsole)@.drained(),
        old(konsole)@.wf() ==> final(konsole)@.wf(),
{
    let mut lines: Vec<String> = Vec::new();
    core::mem::swap(&mut lines, &mut konsole.queued_inputs);
    lines
}

/// Empties the line and puts the cursor at 0. History, browsing and the
/// Tab streak stay as they are.
pub fn clear_input(konsole: &mut Konsole)
    ensures
        final(konsole)@ == old(konsole)@.clear_input(),
        old(konsole)@.wf() ==> final(konsole)@.wf(),
{
    konsole.cursor = 0;
    konsole.input = String::new();
}

/// Empties the history and leaves history browsing. The line stays as it
/// is.
pub fn clear_history(konsole: &mut Konsole)
    ensures
        final(konsole)@ == old(konsole)@.clear_history(),
        old(konsole)@.wf() ==> final(konsole)@.wf(),
{
    konsole.history.clear();
    konsole.history_index = 0;
    konsole.temp_input = None;
}

} // verus!
