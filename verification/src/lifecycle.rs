//! Starting and stopping the editor.
//!
//! The editor is started once and stopped once per cycle. The functions
//! here decide; the caller owns the pump, starts it when [`activate`] says
//! so, and waits for it between [`deactivate`] and [`finish_deactivate`].

use std::sync::Mutex;
use vstd::prelude::*;
use crate::editor::{is_active, Konsole};
use crate::model::EditorState;
use crate::error::FatalError;

verus! {

/// The standard library's mutual-exclusion lock, carried through as an
/// opaque value.
#[verifier::external_type_specification]
#[verifier::external_body]
#[verifier::reject_recursive_types(T)]
pub struct ExMutex<T: ?Sized>(Mutex<T>);

/// Calls `enable_ansi_support::enable_ansi_support`, which switches the
/// console to ANSI escape codes where the platform needs that, and says
/// whether it succeeded. The outcome depends on the console, so nothing is
/// claimed of it.
#[verifier::external_body]
fn enable_ansi() -> (ok: bool) {
    match enable_ansi_support::enable_ansi_support() {
        Ok(()) => true,
        Err(_) => false,
    }
}

/// What an activation did.
#[derive(Clone, Copy, Debug, PartialEq, Eq, Structural)]
pub enum Activation {
    /// The editor was active before; nothing changed.
    AlreadyActive,
    /// The editor is active and running: the caller starts the pump and
    /// paints the prompt.
    Started,
}

/// The result of an activation in state `s` whose terminal setup, where it
/// is needed, ends as `setup_ok` says.
pub open spec fn activation(s: EditorState, setup_ok: bool) -> Result<
    Activation,
    FatalError,
> {
    if s.active {
        Ok(Activation::AlreadyActive)
    } else if s.initialized || setup_ok {
        Ok(Activation::Started)
    } else {
        Err(FatalError::AnsiSupport)
    }
}

/// Activation with the outcome of the terminal setup given.
pub fn activate_with(konsole: &mut Konsole, setup_ok: bool) -> (outcome: Result<
    Activation,
    FatalError,
>)
    requires
        old(konsole)@.wf(),
    ensures
        outcome == activation(old(konsole)@, setup_ok),
        final(konsole)@ == old(konsole)@.activate(setup_ok),
        final(konsole)@.wf(),
{
    if is_active(konsole) {
        Ok(Activation::AlreadyActive)
    } else if konsole.start(setup_ok) {
        Ok(Activation::Started)
    } else {
        Err(FatalError::AnsiSupport)
    }
}

/// Activates the editor. An active editor stays as it is. Otherwise the
/// one-time terminal setup is done if it is still due; where it fails the
/// editor stays inactive and the failure is returned. An editor whose setup
/// was done before always starts.
pub fn activate(konsole: &mut Konsole) -> (outcome: Result<Activation, FatalError>)
    requires
        old(konsole)@.wf(),
    ensures
        exists|setup_ok: bool|
            outcome == #[trigger] activation(old(konsole)@, setup_ok) && final(konsole)@ == old(
                konsole,
            )@.activate(setup_ok),
        old(konsole)@.active ==> outcome == Ok::<Activation, FatalError>(
            Activation::AlreadyActive,
        ),
        !old(konsole)@.active && old(konsole)@.initialized ==> outcome == Ok::<
            Activation,
            FatalError,
        >(Activation::Started),
        final(konsole)@.wf(),
{
    if is_active(konsole) {
        assert(activation(konsole@, true) == Ok::<Activation, FatalError>(
            Activation::AlreadyActive,
        ));
        return Ok(Activation::AlreadyActive);
    }
    let setup_ok = konsole.is_initialized() || enable_ansi();
    activate_with(konsole, setup_ok)
}

/// The first half of deactivation: asks the pump to stop. Returns whether
/// the caller now has to wait for the pump and call [`finish_deactivate`];
/// it has not where the editor is inactive or is being stopped already.
pub fn deactivate(konsole: &mut Konsole) -> (stopping: bool)
    requires
        old(konsole)@.wf(),
    ensures
        stopping == old(konsole)@.stops(),
        final(konsole)@ == old(konsole)@.deactivate(),
        final(konsole)@.wf(),
{
    konsole.request_stop()
}

/// The second half of deactivation, once the pump has ended: the editor
/// becomes inactive.
pub fn finish_deactivate(konsole: &mut Konsole)
    requires
        old(konsole)@.wf(),
    ensures
        final(konsole)@ == old(konsole)@.finish_deactivate(),
        final(konsole)@.wf(),
{
    konsole.finish_stop()
}

/// Whether the lock around the editor is held at this moment, found out
/// without waiting. Calls `Mutex::try_lock`; the answer depends on what
/// other threads do, so nothing is claimed of it.
#[verifier::external_body]
pub fn is_locked(lock: &Mutex<Konsole>) -> (held: bool) {
    lock.try_lock().is_err()
}

} // verus!
