//! Laws of the editor, proved over the model.
//!
//! The transitions of [`crate::editor`] are stated as equalities with the
//! model's functions, so what is proved here of the model holds of every
//! run of the executable editor.

use vstd::prelude::*;
use crate::key::Key;
use crate::model::{EditorState, SettingsView, TabResultView};

verus! {

/// `n` presses of `key`.
pub open spec fn presses(key: Key, n: nat) -> Seq<Key> {
    Seq::new(n, |i: int| key)
}

/// Where a cursor that starts at `start` stands after `keys`, if the line
/// has room: a typed character moves it one place on, a backspace one place
/// back unless it stands at 0.
pub open spec fn net_insertions(start: nat, keys: Seq<Key>) -> nat
    decreases keys.len(),
{
    if keys.len() == 0 {
        start
    } else {
        let before = net_insertions(start, keys.drop_last());
        match keys.last() {
            Key::Char(_) => before + 1,
            Key::Backspace => if before > 0 {
                (before - 1) as nat
            } else {
                0
            },
            _ => before,
        }
    }
}

/// `n` Tab presses in a row, the `i`-th answered by `answers[i]`.
pub open spec fn tabs(s: EditorState, answers: Seq<Option<TabResultView>>) -> EditorState
    decreases answers.len(),
{
    if answers.len() == 0 {
        s
    } else {
        tabs(s, answers.drop_last()).tab(answers.last())
    }
}

/// Every key keeps the invariant, whatever the completion callback answers:
/// the cursor stays within the line, the browsing position within the
/// history, and a line is saved exactly while browsing.
pub proof fn lemma_step_wf(
    s: EditorState,
    settings: SettingsView,
    key: Key,
    completion: Option<TabResultView>,
)
    requires
        s.wf(),
    ensures
        s.step(settings, key, completion).wf(),
        s.step(settings, key, completion).cursor <= s.step(settings, key, completion).input.len(),
{
}

/// Pressing one more key continues a run.
pub proof fn lemma_run_push(s: EditorState, settings: SettingsView, keys: Seq<Key>, key: Key)
    ensures
        s.run(settings, keys.push(key)) == s.run(settings, keys).step(settings, key, None),
{
    assert(keys.push(key).drop_last() =~= keys);
}

/// A run of two sequences of keys is the run of the second from where the
/// first ended.
pub proof fn lemma_run_concat(s: EditorState, settings: SettingsView, a: Seq<Key>, b: Seq<Key>)
    ensures
        s.run(settings, a + b) == s.run(settings, a).run(settings, b),
    decreases b.len(),
{
    if b.len() > 0 {
        lemma_run_concat(s, settings, a, b.drop_last());
        assert((a + b).drop_last() =~= a + b.drop_last());
    }
}

/// Every run keeps the invariant: the cursor stays within the line, the
/// browsing position within the history.
pub proof fn lemma_run_wf(s: EditorState, settings: SettingsView, keys: Seq<Key>)
    requires
        s.wf(),
    ensures
        s.run(settings, keys).wf(),
        s.run(settings, keys).cursor <= s.run(settings, keys).input.len(),
    decreases keys.len(),
{
    if keys.len() > 0 {
        lemma_run_wf(s, settings, keys.drop_last());
    }
}

/// The host's requests and the two halves of the life cycle keep the
/// invariant.
pub proof fn lemma_requests_wf(s: EditorState, setup_ok: bool)
    requires
        s.wf(),
    ensures
        s.clear_input().wf(),
        s.clear_history().wf(),
        s.drained().wf(),
        s.activate(setup_ok).wf(),
        s.deactivate().wf(),
        s.finish_deactivate().wf(),
{
}

/// Typing and backspacing. Under any sequence of typed characters and
/// backspaces the cursor stays within the line, and the line grows by as
/// much as the cursor advances: by one for each character, less one for each
/// backspace that finds a character before the cursor.
pub proof fn lemma_typing(s: EditorState, settings: SettingsView, keys: Seq<Key>)
    requires
        s.wf(),
        forall|i: int| 0 <= i < keys.len() ==> keys[i] is Char || keys[i] is Backspace,
    ensures
        s.run(settings, keys).cursor <= s.run(settings, keys).input.len(),
        s.run(settings, keys).cursor == net_insertions(s.cursor, keys),
        s.run(settings, keys).input.len() - s.run(settings, keys).cursor == s.input.len()
            - s.cursor,
    decreases keys.len(),
{
    if keys.len() > 0 {
        lemma_typing(s, settings, keys.drop_last());
        lemma_run_wf(s, settings, keys.drop_last());
    }
}

/// Typing and backspacing on an empty line: the length of the line is the
/// number of net insertions, and the cursor stands at its end.
pub proof fn lemma_typing_from_empty(s: EditorState, settings: SettingsView, keys: Seq<Key>)
    requires
        s.wf(),
        s.input.len() == 0,
        forall|i: int| 0 <= i < keys.len() ==> keys[i] is Char || keys[i] is Backspace,
    ensures
        s.run(settings, keys).input.len() == net_insertions(0, keys),
        s.run(settings, keys).cursor == net_insertions(0, keys),
{
    lemma_typing(s, settings, keys);
}

/// Browsing back. From a state that is not browsing, `n` presses of Up show
/// the `n`-th newest entry with the cursor at its end, and keep the line
/// that was being edited.
pub proof fn lemma_ups(s: EditorState, settings: SettingsView, n: nat)
    requires
        s.wf(),
        !s.browsing(),
        1 <= n <= s.history.len(),
    ensures
        s.run(settings, presses(Key::Up, n)) == (EditorState {
            temp_input: Some(s.input),
            history_index: n,
            input: s.entry(n),
            cursor: s.entry(n).len(),
            tab_repeat: 0,
            ..s
        }),
    decreases n,
{
    let before = presses(Key::Up, (n - 1) as nat);
    assert(presses(Key::Up, n) =~= before.push(Key::Up));
    lemma_run_push(s, settings, before, Key::Up);
    if n > 1 {
        lemma_ups(s, settings, (n - 1) as nat);
    }
}

/// Browsing forward. From a state that shows an entry, `n` presses of Down
/// show the entry `n` steps newer; the step past the newest entry brings
/// the saved line back, with the cursor at its end, and leaves browsing.
pub proof fn lemma_downs(s: EditorState, settings: SettingsView, n: nat)
    requires
        s.wf(),
        1 <= n <= s.history_index,
    ensures
        n < s.history_index ==> s.run(settings, presses(Key::Down, n)) == (EditorState {
            history_index: (s.history_index - n) as nat,
            input: s.entry((s.history_index - n) as nat),
            cursor: s.entry((s.history_index - n) as nat).len(),
            tab_repeat: 0,
            ..s
        }),
        n == s.history_index ==> s.run(settings, presses(Key::Down, n)) == (EditorState {
            history_index: 0,
            temp_input: None,
            input: s.temp_input.unwrap(),
            cursor: s.temp_input.unwrap().len(),
            tab_repeat: 0,
            ..s
        }),
    decreases n,
{
    let before = presses(Key::Down, (n - 1) as nat);
    assert(presses(Key::Down, n) =~= before.push(Key::Down));
    lemma_run_push(s, settings, before, Key::Down);
    if n > 1 {
        lemma_downs(s, settings, (n - 1) as nat);
    }
}

/// The round trip through the history. From a state that is not browsing,
/// `n` presses of Up followed by `n` presses of Down, for an `n` from 1 to
/// the number of entries, bring back the line that was being edited, with
/// the cursor at its end. The history is as before and browsing is over.
pub proof fn lemma_history_round_trip(s: EditorState, settings: SettingsView, n: nat)
    requires
        s.wf(),
        !s.browsing(),
        1 <= n <= s.history.len(),
    ensures
        s.run(settings, presses(Key::Up, n) + presses(Key::Down, n)) == (EditorState {
            cursor: s.input.len(),
            tab_repeat: 0,
            ..s
        }),
{
    lemma_run_concat(s, settings, presses(Key::Up, n), presses(Key::Down, n));
    lemma_ups(s, settings, n);
    let top = s.run(settings, presses(Key::Up, n));
    lemma_downs(top, settings, n);
}

/// Committing to the history. Enter on a line that is not empty, with
/// history enabled, appends that line and then drops the oldest entries
/// until the limit is met: the history never ends longer than the limit,
/// what stays are the newest entries in their order, and, unless the limit
/// is 0, the line just committed is the newest of them.
pub proof fn lemma_enter_history(s: EditorState, settings: SettingsView)
    requires
        settings.history_enabled,
        s.input.len() > 0,
    ensures
        ({
            let full = s.history.push(s.input);
            let kept = s.enter(settings).history;
            &&& kept.len() <= settings.history_limit
            &&& kept.len() == if full.len() <= settings.history_limit {
                full.len()
            } else {
                settings.history_limit
            }
            &&& forall|i: int|
                0 <= i < kept.len() ==> #[trigger] kept[i] == full[full.len() - kept.len() + i]
            &&& settings.history_limit > 0 ==> kept.last() == s.input
            &&& s.history.len() < settings.history_limit ==> kept == full
        }),
{
}

/// Enter leaves the history alone where history is disabled or the line
/// is empty. The line is committed all the same.
pub proof fn lemma_enter_without_history(s: EditorState, settings: SettingsView)
    requires
        !settings.history_enabled || s.input.len() == 0,
    ensures
        s.enter(settings).history == s.history,
        s.enter(settings).queued_inputs == s.queued_inputs.push(s.input),
{
}

/// Keys other than Enter commit nothing, and no key touches the flags of
/// the life cycle.
pub proof fn lemma_step_frame(
    s: EditorState,
    settings: SettingsView,
    key: Key,
    completion: Option<TabResultView>,
)
    ensures
        key !is Enter ==> s.step(settings, key, completion).queued_inputs == s.queued_inputs,
        key !is Enter ==> s.step(settings, key, completion).history == s.history,
        key is Enter ==> s.step(settings, key, completion).queued_inputs == s.queued_inputs.push(
            s.input,
        ),
        s.step(settings, key, completion).initialized == s.initialized,
        s.step(settings, key, completion).active == s.active,
        s.step(settings, key, completion).running == s.running,
{
}

/// Fetching the committed lines twice. The second fetch finds nothing, and
/// changes nothing.
pub proof fn lemma_drain_twice(s: EditorState)
    ensures
        s.drained().queued_inputs == Seq::<Seq<char>>::empty(),
        s.drained().drained() == s.drained(),
{
}

/// The Tab streak under one key. Tab counts one up, whatever the callback
/// answers, and the callback is told the new count. Left, Right, Home and
/// End leave the count as it is. Every other key sets it to 0.
pub proof fn lemma_streak_step(
    s: EditorState,
    settings: SettingsView,
    key: Key,
    completion: Option<TabResultView>,
)
    requires
        s.tab_repeat < usize::MAX,
    ensures
        key is Tab ==> s.step(settings, key, completion).tab_repeat == s.tab_repeat + 1,
        key is Tab ==> s.tab_query().tab_repeat == s.tab_repeat + 1,
        key.is_motion() ==> s.step(settings, key, completion).tab_repeat == s.tab_repeat,
        key !is Tab && !key.is_motion() ==> s.step(settings, key, completion).tab_repeat == 0,
{
}

/// A streak of Tab presses. After a key that ended the streak before, the
/// `n`-th Tab in a row is counted as `n`; the callback is told so, and is
/// told where the cursor stood at the first Tab, whatever it answered in
/// between.
pub proof fn lemma_streak(s: EditorState, answers: Seq<Option<TabResultView>>)
    requires
        s.tab_repeat == 0,
        answers.len() < usize::MAX,
    ensures
        tabs(s, answers).tab_repeat == answers.len(),
        tabs(s, answers).tab_query().tab_repeat == answers.len() + 1,
        tabs(s, answers).tab_query().cursor_before == s.cursor,
        answers.len() > 0 ==> tabs(s, answers).cursor_before_tab == s.cursor,
    decreases answers.len(),
{
    if answers.len() > 0 {
        lemma_streak(s, answers.drop_last());
    }
}

/// One cycle of the life of an editor. An activation that starts the
/// editor leaves it active and running, and a second activation changes
/// nothing. The first deactivation asks the pump to stop, a second one finds
/// nothing to do, and the second half of the deactivation leaves the editor
/// inactive.
pub proof fn lemma_life_cycle(s: EditorState, setup_ok: bool)
    requires
        s.wf(),
        s.activates(setup_ok),
    ensures
        ({
            let started = s.activate(setup_ok);
            let stopping = started.deactivate();
            let stopped = stopping.finish_deactivate();
            &&& started.active && started.running && started.initialized
            &&& forall|again: bool| #[trigger] started.activate(again) == started
            &&& started.stops()
            &&& stopping.active && !stopping.running
            &&& !stopping.stops()
            &&& stopping.deactivate() == stopping
            &&& !stopped.active && !stopped.running
            &&& stopped.activates(setup_ok)
        }),
{
}

} // verus!
