//! The update check: what a finished check changes and what it shows.
//!
//! A check the user asked for always reports back. A check made in the
//! background speaks up only for a version the user has not declined, and
//! keeps failures to itself.

use crate::state::{
    view_of_shown, AppState, PendingUpdate, PendingUpdateView, UpdateRecord, UpdateRecordView,
    UpdateWindowState, UpdateWindowStateView, UpdateWindowType,
};
use crate::windows::{cache_shown, show_update_window};
use vstd::prelude::*;
use vstd::string::*;

verus! {

/// Seconds between two background checks.
pub const CHECK_INTERVAL_SECONDS: u64 = 3600;

/// Release notes shown for an update that brings none.
pub const NO_RELEASE_NOTES: &'static str = "No release notes available";

/// What precedes the error detail in the message of a failed check.
pub const CHECK_FAILED_PREFIX: &'static str =
    "Failed to check for updates.\nPlease try again later.\n\nError: ";

/// A turn of the background loop.
#[derive(Clone, Copy, Debug, PartialEq, Eq, Structural)]
pub enum PeriodicStep {
    /// Run one background check to its end.
    Check,
    /// Sleep for `seconds`.
    Sleep { seconds: u64 },
}

/// The first turn of the background loop: it opens with a check, at once.
pub fn first_periodic_step() -> (first: PeriodicStep)
    ensures
        first == PeriodicStep::Check,
{
    PeriodicStep::Check
}

/// The turn that follows `done` in the background loop: a check, the pause,
/// a check, and so on for the life of the process. Checks never overlap, and
/// how a check ended has no say in what follows.
pub fn next_periodic_step(done: PeriodicStep) -> (next: PeriodicStep)
    ensures
        done is Check ==> next == (PeriodicStep::Sleep { seconds: CHECK_INTERVAL_SECONDS }),
        done is Sleep ==> next == PeriodicStep::Check,
{
    match done {
        PeriodicStep::Check => PeriodicStep::Sleep { seconds: CHECK_INTERVAL_SECONDS },
        PeriodicStep::Sleep { .. } => PeriodicStep::Check,
    }
}

/// How the query of the update source ended.
#[derive(Debug, PartialEq, Eq)]
pub enum CheckOutcome {
    /// A newer version is on offer.
    Found(UpdateRecord),
    /// The running version is the newest.
    UpToDate,
    /// The query failed; the text says why.
    Failed(String),
}

/// Mathematical content of a [`CheckOutcome`].
pub enum CheckOutcomeView {
    Found(UpdateRecordView),
    UpToDate,
    Failed(Seq<char>),
}

impl View for CheckOutcome {
    type V = CheckOutcomeView;

    open spec fn view(&self) -> CheckOutcomeView {
        match self {
            CheckOutcome::Found(record) => CheckOutcomeView::Found(record@),
            CheckOutcome::UpToDate => CheckOutcomeView::UpToDate,
            CheckOutcome::Failed(detail) => CheckOutcomeView::Failed(detail@),
        }
    }
}

/// Whether a found `version` is to be shown: always to a user who asked, and
/// otherwise unless it is the version whose prompts are suppressed.
pub open spec fn surfaces(manual: bool, suppressed: Seq<char>, version: Seq<char>) -> bool {
    manual || suppressed != version
}

/// The window state that announces `record`.
pub open spec fn available_state(record: UpdateRecordView) -> UpdateWindowStateView {
    UpdateWindowStateView {
        update_window_type: UpdateWindowType::Available,
        version: record.version,
        current_version: record.current_version,
        release_notes: match record.release_notes {
            Some(notes) => notes,
            None => NO_RELEASE_NOTES@,
        },
        error: Seq::empty(),
        progress: 0,
    }
}

/// The window state that reports a failed check.
pub open spec fn check_error_state(current_version: Seq<char>, detail: Seq<char>) -> UpdateWindowStateView {
    UpdateWindowStateView {
        update_window_type: UpdateWindowType::Error,
        version: Seq::empty(),
        current_version,
        release_notes: Seq::empty(),
        error: CHECK_FAILED_PREFIX@ + detail,
        progress: 0,
    }
}

/// What a finished check shows, if anything.
pub open spec fn check_shows(
    suppressed: Seq<char>,
    current_version: Seq<char>,
    manual: bool,
    outcome: CheckOutcomeView,
) -> Option<UpdateWindowStateView> {
    match outcome {
        CheckOutcomeView::Found(record) => if surfaces(manual, suppressed, record.version) {
            Some(available_state(record))
        } else {
            None
        },
        CheckOutcomeView::UpToDate => if manual {
            Some(UpdateWindowStateView::bare(UpdateWindowType::NoUpdate, current_version))
        } else {
            None
        },
        CheckOutcomeView::Failed(detail) => if manual {
            Some(check_error_state(current_version, detail))
        } else {
            None
        },
    }
}

/// The shared state after a finished check: a shown state is cached, and a
/// shown update becomes the pending one, in place of any earlier one. A
/// silent check changes nothing.
pub open spec fn check_leaves(
    before: PendingUpdateView,
    suppressed: Seq<char>,
    current_version: Seq<char>,
    manual: bool,
    outcome: CheckOutcomeView,
) -> PendingUpdateView {
    match check_shows(suppressed, current_version, manual, outcome) {
        Some(shown) => PendingUpdateView {
            pending_update: match outcome {
                CheckOutcomeView::Found(record) => Some(record),
                _ => before.pending_update,
            },
            pending_update_window_state: Some(shown),
        },
        None => before,
    }
}

/// What the start of a check shows: a user who asked sees the check begin.
pub open spec fn check_announces(current_version: Seq<char>, manual: bool) -> Option<UpdateWindowStateView> {
    if manual {
        Some(UpdateWindowStateView::bare(UpdateWindowType::Checking, current_version))
    } else {
        None
    }
}

/// Opens a check, before the update source is queried. Returns the state to
/// present, if any, which is then also the cached one.
pub fn begin_check(pending: &mut PendingUpdate, current_version: &str, manual: bool) -> (shown: Option<
    UpdateWindowState,
>)
    ensures
        view_of_shown(shown) == check_announces(current_version@, manual),
        final(pending)@ == match check_announces(current_version@, manual) {
            Some(state) => cache_shown(old(pending)@, state),
            None => old(pending)@,
        },
        shown matches Some(state) ==> state@.wf(),
        old(pending)@.wf() ==> final(pending)@.wf(),
{
    if manual {
        Some(
            show_update_window(
                pending,
                UpdateWindowType::Checking,
                String::new(),
                current_version.to_owned(),
                String::new(),
                String::new(),
                0,
            ),
        )
    } else {
        None
    }
}

/// Closes a check with the `outcome` of the query. Returns the state to
/// present, if any; `None` means the check stays silent.
pub fn check_for_updates(
    app_state: &AppState,
    pending: &mut PendingUpdate,
    current_version: &str,
    manual: bool,
    outcome: CheckOutcome,
) -> (shown: Option<UpdateWindowState>)
    ensures
        view_of_shown(shown) == check_shows(app_state@, current_version@, manual, outcome@),
        final(pending)@ == check_leaves(
            old(pending)@,
            app_state@,
            current_version@,
            manual,
            outcome@,
        ),
        shown matches Some(state) ==> state@.wf(),
        old(pending)@.wf() ==> final(pending)@.wf(),
{
    match outcome {
        CheckOutcome::Found(update) => {
            let should_show = manual || !(app_state.prevent_auto_update_check_for_version
                == update.version);
            if !should_show {
                return None;
            }
            let notes = match &update.release_notes {
                Some(notes) => notes.clone(),
                None => NO_RELEASE_NOTES.to_owned(),
            };
            let shown = show_update_window(
                pending,
                UpdateWindowType::Available,
                update.version.clone(),
                update.current_version.clone(),
                notes,
                String::new(),
                0,
            );
            pending.pending_update = Some(update);
            Some(shown)
        },
        CheckOutcome::UpToDate => {
            if manual {
                Some(
                    show_update_window(
                        pending,
                        UpdateWindowType::NoUpdate,
                        String::new(),
                        current_version.to_owned(),
                        String::new(),
                        String::new(),
                        0,
                    ),
                )
            } else {
                None
            }
        },
        CheckOutcome::Failed(detail) => {
            if manual {
                let mut message = CHECK_FAILED_PREFIX.to_owned();
                message.append(detail.as_str());
                Some(
                    show_update_window(
                        pending,
                        UpdateWindowType::Error,
                        String::new(),
                        current_version.to_owned(),
                        String::new(),
                        message,
                        0,
                    ),
                )
            } else {
                None
            }
        },
    }
}

/// A version whose prompts are suppressed is passed over by a background
/// check, which leaves the shared state as it was. A check the user asked
/// for announces it all the same and makes it the pending update.
pub proof fn lemma_suppressed_version_stays_silent(
    before: PendingUpdateView,
    current_version: Seq<char>,
    found: UpdateRecordView,
)
    ensures
        check_shows(found.version, current_version, false, CheckOutcomeView::Found(found)) is None,
        check_leaves(before, found.version, current_version, false, CheckOutcomeView::Found(found))
            == before,
        check_shows(found.version, current_version, true, CheckOutcomeView::Found(found)) == Some(
            available_state(found),
        ),
        available_state(found).update_window_type == UpdateWindowType::Available,
        available_state(found).version == found.version,
        check_leaves(before, found.version, current_version, true, CheckOutcomeView::Found(found))
            == (PendingUpdateView {
            pending_update: Some(found),
            pending_update_window_state: Some(available_state(found)),
        }),
{
}

/// A background check that finds a version other than the suppressed one
/// announces it and makes it the pending update, in place of any other.
pub proof fn lemma_other_version_surfaces(
    before: PendingUpdateView,
    suppressed: Seq<char>,
    current_version: Seq<char>,
    manual: bool,
    found: UpdateRecordView,
)
    requires
        found.version != suppressed,
    ensures
        check_shows(suppressed, current_version, manual, CheckOutcomeView::Found(found)) == Some(
            available_state(found),
        ),
        check_leaves(before, suppressed, current_version, manual, CheckOutcomeView::Found(found))
            == (PendingUpdateView {
            pending_update: Some(found),
            pending_update_window_state: Some(available_state(found)),
        }),
{
}

/// A failed background check shows nothing and changes nothing. The same
/// failure of a check the user asked for is shown as an error whose message
/// is not empty and ends with the failure's own text; the pending update
/// stays as it was.
pub proof fn lemma_background_failure_is_silent(
    before: PendingUpdateView,
    suppressed: Seq<char>,
    current_version: Seq<char>,
    detail: Seq<char>,
)
    ensures
        check_shows(suppressed, current_version, false, CheckOutcomeView::Failed(detail)) is None,
        check_leaves(before, suppressed, current_version, false, CheckOutcomeView::Failed(detail))
            == before,
        check_shows(suppressed, current_version, true, CheckOutcomeView::Failed(detail)) == Some(
            check_error_state(current_version, detail),
        ),
        check_error_state(current_version, detail).update_window_type == UpdateWindowType::Error,
        check_error_state(current_version, detail).error.len() > 0,
        check_error_state(current_version, detail).error.len() >= detail.len(),
        check_error_state(current_version, detail).error.subrange(
            check_error_state(current_version, detail).error.len() - detail.len(),
            check_error_state(current_version, detail).error.len() as int,
        ) == detail,
        check_leaves(before, suppressed, current_version, true, CheckOutcomeView::Failed(detail))
            == cache_shown(before, check_error_state(current_version, detail)),
{
    reveal_strlit("Failed to check for updates.\nPlease try again later.\n\nError: ");
    let message = check_error_state(current_version, detail).error;
    assert(message.subrange(message.len() - detail.len(), message.len() as int) =~= detail);
}

/// A background check that finds nothing newer shows nothing and changes
/// nothing; a check the user asked for says so.
pub proof fn lemma_background_no_update_is_silent(
    before: PendingUpdateView,
    suppressed: Seq<char>,
    current_version: Seq<char>,
)
    ensures
        check_shows(suppressed, current_version, false, CheckOutcomeView::UpToDate) is None,
        check_leaves(before, suppressed, current_version, false, CheckOutcomeView::UpToDate)
            == before,
        check_shows(suppressed, current_version, true, CheckOutcomeView::UpToDate) == Some(
            UpdateWindowStateView::bare(UpdateWindowType::NoUpdate, current_version),
        ),
{
}

/// Every state a check shows is well formed.
pub proof fn lemma_check_shows_well_formed(
    suppressed: Seq<char>,
    current_version: Seq<char>,
    manual: bool,
    outcome: CheckOutcomeView,
)
    ensures
        check_shows(suppressed, current_version, manual, outcome) matches Some(state)
            ==> state.wf(),
        check_announces(current_version, manual) matches Some(state) ==> state.wf(),
{
}

} // verus!
