//! What the update window is told, and how it is told.
//!
//! The window pulls its state when it mounts and is pushed every later
//! change, so each change is cached before it is presented.

use crate::state::{PendingUpdate, PendingUpdateView, UpdateWindowState, UpdateWindowStateView, UpdateWindowType};
use vstd::prelude::*;

verus! {

/// Label of the update window.
pub const UPDATE_WINDOW_LABEL: &'static str = "updates";

/// Name of the event that carries a new state to an open update window.
pub const UPDATE_WINDOW_EVENT: &'static str = "update-window-state";

/// How a state reaches the update window.
#[derive(Clone, Copy, Debug, PartialEq, Eq, Structural)]
pub enum Presentation {
    /// The window is open: send it the state. A failure to send is fatal.
    Emit,
    /// No window yet: create it, then send the state. The new window may not
    /// listen yet and pulls the cached state instead, so a failure to send
    /// is only worth a warning.
    CreateThenEmit,
}

/// Chooses how to present a state, given whether the update window is open.
pub fn present(window_open: bool) -> (how: Presentation)
    ensures
        how == if window_open {
            Presentation::Emit
        } else {
            Presentation::CreateThenEmit
        },
{
    if window_open {
        Presentation::Emit
    } else {
        Presentation::CreateThenEmit
    }
}

/// `before` with its cached window state replaced by `shown`.
pub open spec fn cache_shown(before: PendingUpdateView, shown: UpdateWindowStateView) -> PendingUpdateView {
    PendingUpdateView {
        pending_update: before.pending_update,
        pending_update_window_state: Some(shown),
    }
}

/// Makes the state that the update window is to show, caches it for the
/// window to pull, and returns it for the push. The pending update is left
/// alone.
pub fn show_update_window(
    pending: &mut PendingUpdate,
    update_window_type: UpdateWindowType,
    version: String,
    current_version: String,
    release_notes: String,
    error: String,
    progress: usize,
) -> (shown: UpdateWindowState)
    ensures
        shown@ == (UpdateWindowStateView {
            update_window_type,
            version: version@,
            current_version: current_version@,
            release_notes: release_notes@,
            error: error@,
            progress: progress as nat,
        }),
        final(pending)@ == cache_shown(old(pending)@, shown@),
        progress <= 100 ==> shown@.wf() && final(pending)@.wf(),
{
    let shown = UpdateWindowState {
        update_window_type,
        version,
        current_version,
        release_notes,
        error,
        progress,
    };
    pending.pending_update_window_state = Some(shown.clone());
    shown
}

} // verus!
