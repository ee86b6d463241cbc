//! A line-editing engine for terminal applications.
//!
//! The crate holds the editor's state machine: an input line with a cursor,
//! a bounded history, a queue of committed lines, the bookkeeping for
//! cycling tab completion, and the flags of the editor's life cycle. Every
//! transition is stated over a mathematical model ([`model::EditorState`])
//! and proved against it; [`laws`] holds what follows for whole runs.
//!
//! The crate reads no keys and paints nothing. Its caller runs the input
//! pump: it feeds what the terminal sends to a [`KeyDecoder`], hands each
//! key to [`Konsole::handle_key`], and paints the [`Konsole::frame`].

pub mod decode;
pub mod editor;
pub mod error;
pub mod key;
pub mod laws;
pub mod lifecycle;
pub mod model;
pub mod settings;
pub mod tab;
pub mod terminal;
pub mod text;

pub use decode::KeyDecoder;
pub use editor::{clear_history, clear_input, is_active, queued_inputs, Konsole};
pub use error::FatalError;
pub use key::Key;
pub use lifecycle::{activate, activate_with, deactivate, finish_deactivate, is_locked, Activation};
pub use model::{EditorState, SettingsView, TabQueryView, TabResultView};
pub use settings::{edit_settings, Settings};
pub use tab::{tab_nothing, tab_spaces, TabQuery, TabResult};
pub use terminal::{size, size_from};
