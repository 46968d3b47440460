//! Shared state of the supervisor and the record shown in the update window.

use vstd::prelude::*;

verus! {

/// What the update window is currently showing.
#[derive(Clone, Copy, Debug, PartialEq, Eq, Structural)]
pub enum UpdateWindowType {
    Checking,
    /// A check ran and found nothing newer.
    NoUpdate,
    Available,
    Downloading,
    Error,
    Failed,
}

/// The last state handed to the update window. The window pulls it on demand,
/// because it may come up after the event that produced the state.
#[derive(Debug, PartialEq, Eq)]
pub struct UpdateWindowState {
    pub update_window_type: UpdateWindowType,
    pub version: String,
    pub current_version: String,
    pub release_notes: String,
    pub error: String,
    pub progress: usize,
}

/// Mathematical content of an [`UpdateWindowState`].
pub struct UpdateWindowStateView {
    pub update_window_type: UpdateWindowType,
    pub version: Seq<char>,
    pub current_version: Seq<char>,
    pub release_notes: Seq<char>,
    pub error: Seq<char>,
    pub progress: nat,
}

impl View for UpdateWindowState {
    type V = UpdateWindowStateView;

    open spec fn view(&self) -> UpdateWindowStateView {
        UpdateWindowStateView {
            update_window_type: self.update_window_type,
            version: self.version@,
            current_version: self.current_version@,
            release_notes: self.release_notes@,
            error: self.error@,
            progress: self.progress as nat,
        }
    }
}

impl UpdateWindowStateView {
    /// A window state with no text beyond the running version and no progress.
    pub open spec fn bare(kind: UpdateWindowType, current_version: Seq<char>) -> Self {
        UpdateWindowStateView {
            update_window_type: kind,
            version: Seq::empty(),
            current_version,
            release_notes: Seq::empty(),
            error: Seq::empty(),
            progress: 0,
        }
    }

    /// Progress is a percentage.
    pub open spec fn wf(self) -> bool {
        self.progress <= 100
    }
}

/// Mathematical content of a window state that may be absent.
pub open spec fn view_of_shown(shown: Option<UpdateWindowState>) -> Option<UpdateWindowStateView> {
    match shown {
        Some(state) => Some(state@),
        None => None,
    }
}

impl Clone for UpdateWindowState {
    fn clone(&self) -> (copy: Self)
        ensures
            copy == *self,
    {
        UpdateWindowState {
            update_window_type: self.update_window_type,
            version: self.version.clone(),
            current_version: self.current_version.clone(),
            release_notes: self.release_notes.clone(),
            error: self.error.clone(),
            progress: self.progress,
        }
    }
}

/// An update that a check found and that the user has not yet resolved.
#[derive(Debug, PartialEq, Eq)]
pub struct UpdateRecord {
    pub version: String,
    pub current_version: String,
    pub release_notes: Option<String>,
}

/// Mathematical content of an [`UpdateRecord`].
pub struct UpdateRecordView {
    pub version: Seq<char>,
    pub current_version: Seq<char>,
    pub release_notes: Option<Seq<char>>,
}

impl View for UpdateRecord {
    type V = UpdateRecordView;

    open spec fn view(&self) -> UpdateRecordView {
        UpdateRecordView {
            version: self.version@,
            current_version: self.current_version@,
            release_notes: match self.release_notes {
                Some(notes) => Some(notes@),
                None => None,
            },
        }
    }
}

impl Clone for UpdateRecord {
    fn clone(&self) -> (copy: Self)
        ensures
            copy == *self,
    {
        UpdateRecord {
            version: self.version.clone(),
            current_version: self.current_version.clone(),
            release_notes: match &self.release_notes {
                Some(notes) => Some(notes.clone()),
                None => None,
            },
        }
    }
}

/// Remembers the one version for which automatic update prompts are withheld.
/// The empty string withholds nothing a real release would be called.
#[derive(Debug, PartialEq, Eq)]
pub struct AppState {
    pub prevent_auto_update_check_for_version: String,
}

impl View for AppState {
    type V = Seq<char>;

    open spec fn view(&self) -> Seq<char> {
        self.prevent_auto_update_check_for_version@
    }
}

impl Clone for AppState {
    fn clone(&self) -> (copy: Self)
        ensures
            copy == *self,
    {
        AppState {
            prevent_auto_update_check_for_version:
                self.prevent_auto_update_check_for_version.clone(),
        }
    }
}

impl Default for AppState {
    fn default() -> (state: Self)
        ensures
            state@ == Seq::<char>::empty(),
    {
        AppState { prevent_auto_update_check_for_version: String::new() }
    }
}

/// The update awaiting the user's answer and the window state last shown.
/// At most one update is pending: a later find replaces an earlier one.
#[derive(Debug, PartialEq, Eq)]
pub struct PendingUpdate {
    pub pending_update: Option<UpdateRecord>,
    pub pending_update_window_state: Option<UpdateWindowState>,
}

/// Mathematical content of a [`PendingUpdate`].
pub struct PendingUpdateView {
    pub pending_update: Option<UpdateRecordView>,
    pub pending_update_window_state: Option<UpdateWindowStateView>,
}

impl View for PendingUpdate {
    type V = PendingUpdateView;

    open spec fn view(&self) -> PendingUpdateView {
        PendingUpdateView {
            pending_update: match self.pending_update {
                Some(record) => Some(record@),
                None => None,
            },
            pending_update_window_state: match self.pending_update_window_state {
                Some(state) => Some(state@),
                None => None,
            },
        }
    }
}

impl Clone for PendingUpdate {
    fn clone(&self) -> (copy: Self)
        ensures
            copy == *self,
    {
        PendingUpdate {
            pending_update: match &self.pending_update {
                Some(record) => Some(record.clone()),
                None => None,
            },
            pending_update_window_state: match &self.pending_update_window_state {
                Some(state) => Some(state.clone()),
                None => None,
            },
        }
    }
}

impl PendingUpdateView {
    /// The cached window state, if any, is well formed.
    pub open spec fn wf(self) -> bool {
        self.pending_update_window_state matches Some(state) ==> state.wf()
    }
}

impl PendingUpdate {
    /// Nothing pending and nothing shown yet.
    pub fn new() -> (fresh: Self)
        ensures
            fresh@.pending_update is None,
            fresh@.pending_update_window_state is None,
            fresh@.wf(),
    {
        PendingUpdate { pending_update: None, pending_update_window_state: None }
    }
}

} // verus!
