//! The settings that the editor reads on every key press.

use vstd::prelude::*;
use vstd::string::*;
use crate::editor::{is_active, Konsole};
use crate::model::SettingsView;
use crate::tab::{TabQuery, TabResult};

verus! {

/// The editor's configuration. `F` is the type of the completion callback.
#[derive(Debug, Clone)]
pub struct Settings<F> {
    /// Whether committed lines are remembered.
    pub history_enabled: bool,
    /// The largest number of lines that the history keeps.
    pub history_limit: usize,
    /// The text painted in front of the line.
    pub prompt: String,
    /// Asked on every Tab press.
    pub tab_complete: F,
}

impl<F> View for Settings<F> {
    type V = SettingsView;

    open spec fn view(&self) -> SettingsView {
        SettingsView {
            history_enabled: self.history_enabled,
            history_limit: self.history_limit as nat,
            prompt: self.prompt@,
        }
    }
}

/// The prompt of new settings.
pub open spec fn default_prompt() -> Seq<char> {
    seq!['>']
}

impl<F: Fn(TabQuery) -> Option<TabResult>> Settings<F> {
    /// The default settings around the callback `tab_complete`: history
    /// switched off, room for 256 lines, and `>` as the prompt.
    pub fn new(tab_complete: F) -> (settings: Self)
        ensures
            settings@ == (SettingsView {
                history_enabled: false,
                history_limit: 256,
                prompt: default_prompt(),
            }),
            settings.tab_complete == tab_complete,
    {
        proof {
            reveal_strlit(">");
        }
        Settings {
            history_enabled: false,
            history_limit: 256,
            prompt: String::from_str(">"),
            tab_complete,
        }
    }
}

/// `edit` can be applied to the settings `before`.
pub open spec fn accepts_settings<F, E: Fn(&mut Settings<F>)>(
    edit: E,
    before: Settings<F>,
) -> bool {
    forall|target: &mut Settings<F>| *target == before ==> call_requires(edit, (target,))
}

/// Applies `edit` to the settings in place. Returns whether the prompt has
/// to be painted again, which is so while the editor is active.
pub fn edit_settings<F, E: Fn(&mut Settings<F>)>(
    settings: &mut Settings<F>,
    konsole: &Konsole,
    edit: E,
) -> (repaint: bool)
    requires
        accepts_settings(edit, *old(settings)),
    ensures
        exists|target: &mut Settings<F>|
            *target == *old(settings) && *final(target) == *final(settings)
                && #[trigger] call_ensures(edit, (target,), ()),
        repaint == konsole@.active,
{
    edit(settings);
    is_active(konsole)
}

} // verus!
