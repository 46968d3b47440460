//! The user's answer to an update, the download that may follow, and the
//! window's pull of its state.

use crate::state::{
    view_of_shown, AppState, PendingUpdate, PendingUpdateView, UpdateRecord, UpdateRecordView,
    UpdateWindowState, UpdateWindowStateView, UpdateWindowType,
};
use crate::updates::{available_state, check_leaves, check_shows, CheckOutcomeView};
use crate::windows::{cache_shown, show_update_window};
use vstd::prelude::*;
use vstd::string::*;

verus! {

/// What precedes the error detail in the message of a failed install.
pub const INSTALL_FAILED_PREFIX: &'static str =
    "Failed to download and install update.\nPlease try again later.\n\nError: ";

/// Whole percent of `total` bytes that `downloaded` bytes are, rounded down
/// and never above 100. Of a total of nothing, nothing is 0 percent and
/// anything is all of it.
pub open spec fn percent_of(downloaded: nat, total: nat) -> nat {
    if total == 0 {
        if downloaded == 0 {
            0
        } else {
            100
        }
    } else if downloaded >= total {
        100
    } else {
        downloaded * 100 / total
    }
}

/// Bytes counted after `chunk_length` more arrive; the count stops at the
/// largest 64-bit number.
pub open spec fn bytes_after(downloaded: u64, chunk_length: usize) -> u64 {
    if downloaded + chunk_length > u64::MAX {
        u64::MAX
    } else {
        (downloaded + chunk_length) as u64
    }
}

/// Percent reached once `chunk_length` more bytes arrive. A download of
/// unknown length counts as complete at every chunk.
pub open spec fn percent_after(downloaded: u64, chunk_length: usize, content_length: Option<u64>) -> nat {
    let now = bytes_after(downloaded, chunk_length);
    percent_of(
        now as nat,
        match content_length {
            Some(total) => total as nat,
            None => now as nat,
        },
    )
}

/// Computes [`percent_of`] for byte counts.
pub fn percent(downloaded: u64, total: u64) -> (whole: u8)
    ensures
        whole == percent_of(downloaded as nat, total as nat),
        whole <= 100,
{
    if total == 0 {
        if downloaded == 0 {
            0
        } else {
            100
        }
    } else if downloaded >= total {
        100
    } else {
        let scaled: u128 = (downloaded as u128) * 100;
        let whole: u128 = scaled / (total as u128);
        assert(whole < 100) by (nonlinear_arith)
            requires
                whole == scaled / (total as u128),
                scaled == downloaded * 100,
                downloaded < total,
                total > 0,
        ;
        whole as u8
    }
}

/// Progress of one download, and the filter that lets a percentage through
/// to the window only when it is higher than the last one shown.
#[derive(Debug, PartialEq, Eq)]
pub struct DownloadProgress {
    /// Bytes received so far.
    pub downloaded: u64,
    /// Percentage last shown; -1 before the first.
    pub last_shown_percent: i32,
    /// Version being installed.
    pub version: String,
    /// Version being replaced.
    pub current_version: String,
}

/// The window state that reports `percent` of a download.
pub open spec fn downloading_state(
    version: Seq<char>,
    current_version: Seq<char>,
    percent: nat,
) -> UpdateWindowStateView {
    UpdateWindowStateView {
        update_window_type: UpdateWindowType::Downloading,
        version,
        current_version,
        release_notes: Seq::empty(),
        error: Seq::empty(),
        progress: percent,
    }
}

/// The window state that reports a failed install.
pub open spec fn install_failed_state(
    version: Seq<char>,
    current_version: Seq<char>,
    detail: Seq<char>,
) -> UpdateWindowStateView {
    UpdateWindowStateView {
        update_window_type: UpdateWindowType::Failed,
        version,
        current_version,
        release_notes: Seq::empty(),
        error: INSTALL_FAILED_PREFIX@ + detail,
        progress: 0,
    }
}

impl DownloadProgress {
    /// Progress of a download of `record` that has not begun.
    pub fn new(record: &UpdateRecord) -> (fresh: Self)
        ensures
            fresh.downloaded == 0,
            fresh.last_shown_percent == -1,
            fresh.version@ == record.version@,
            fresh.current_version@ == record.current_version@,
    {
        DownloadProgress {
            downloaded: 0,
            last_shown_percent: -1,
            version: record.version.clone(),
            current_version: record.current_version.clone(),
        }
    }

    /// What the arrival of a chunk shows, if anything: the percentage now
    /// reached, when it is above the last one shown.
    pub open spec fn chunk_shows(self, chunk_length: usize, content_length: Option<u64>) -> Option<
        UpdateWindowStateView,
    > {
        let reached = percent_after(self.downloaded, chunk_length, content_length);
        if reached > self.last_shown_percent {
            Some(downloading_state(self.version@, self.current_version@, reached))
        } else {
            None
        }
    }

    /// The percentage last shown once a chunk has arrived.
    pub open spec fn shown_after(self, chunk_length: usize, content_length: Option<u64>) -> int {
        let reached = percent_after(self.downloaded, chunk_length, content_length);
        if reached > self.last_shown_percent {
            reached as int
        } else {
            self.last_shown_percent as int
        }
    }

    /// The progress once a chunk has arrived.
    pub open spec fn after_chunk(self, chunk_length: usize, content_length: Option<u64>) -> Self {
        DownloadProgress {
            downloaded: bytes_after(self.downloaded, chunk_length),
            last_shown_percent: self.shown_after(chunk_length, content_length) as i32,
            version: self.version,
            current_version: self.current_version,
        }
    }

    /// Number of states shown while `chunks` arrive, oldest first. Each chunk
    /// comes with its length and the length of the whole download, if known.
    pub open spec fn shown_during(self, chunks: Seq<(usize, Option<u64>)>) -> nat
        decreases chunks.len(),
    {
        if chunks.len() == 0 {
            0
        } else {
            let (chunk_length, content_length) = chunks.first();
            (if self.chunk_shows(chunk_length, content_length) is Some {
                1nat
            } else {
                0nat
            }) + self.after_chunk(chunk_length, content_length).shown_during(chunks.drop_first())
        }
    }

    /// Counts a chunk of `chunk_length` bytes of a download that is
    /// `content_length` bytes long, if that is known. Returns the state to
    /// present when the whole percentage has risen since the last one shown,
    /// and `None` otherwise, so that the window hears of each percentage at
    /// most once.
    pub fn on_chunk(
        &mut self,
        pending: &mut PendingUpdate,
        chunk_length: usize,
        content_length: Option<u64>,
    ) -> (shown: Option<UpdateWindowState>)
        ensures
            *final(self) == old(self).after_chunk(chunk_length, content_length),
            view_of_shown(shown) == old(self).chunk_shows(chunk_length, content_length),
            final(pending)@ == match old(self).chunk_shows(chunk_length, content_length) {
                Some(state) => cache_shown(old(pending)@, state),
                None => old(pending)@,
            },
            shown matches Some(state) ==> state@.wf(),
            old(pending)@.wf() ==> final(pending)@.wf(),
    {
        let chunk: u64 = chunk_length as u64;
        if chunk > u64::MAX - self.downloaded {
            self.downloaded = u64::MAX;
        } else {
            self.downloaded = self.downloaded + chunk;
        }
        let total = match content_length {
            Some(total) => total,
            None => self.downloaded,
        };
        let reached = percent(self.downloaded, total);
        if (reached as i32) > self.last_shown_percent {
            self.last_shown_percent = reached as i32;
            Some(
                show_update_window(
                    pending,
                    UpdateWindowType::Downloading,
                    self.version.clone(),
                    self.current_version.clone(),
                    String::new(),
                    String::new(),
                    reached as usize,
                ),
            )
        } else {
            None
        }
    }

    /// Reports that the install failed, for the reason in `detail`. The
    /// shell keeps running; the user may check again later.
    pub fn on_failure(&self, pending: &mut PendingUpdate, detail: &str) -> (shown: UpdateWindowState)
        ensures
            shown@ == install_failed_state(self.version@, self.current_version@, detail@),
            final(pending)@ == cache_shown(old(pending)@, shown@),
            shown@.wf(),
            final(pending)@.wf(),
    {
        let mut message = INSTALL_FAILED_PREFIX.to_owned();
        message.append(detail);
        show_update_window(
            pending,
            UpdateWindowType::Failed,
            self.version.clone(),
            self.current_version.clone(),
            String::new(),
            message,
            0,
        )
    }
}

/// The window is told of a percentage only when it is above the last one
/// shown, and that percentage is then the last one shown; otherwise nothing
/// is shown and nothing changes but the byte count. No percentage is above
/// 100.
pub proof fn lemma_progress_only_rises(
    progress: DownloadProgress,
    chunk_length: usize,
    content_length: Option<u64>,
)
    ensures
        percent_after(progress.downloaded, chunk_length, content_length) <= 100,
        match progress.chunk_shows(chunk_length, content_length) {
            Some(state) => {
                &&& state.update_window_type == UpdateWindowType::Downloading
                &&& state.progress == percent_after(
                    progress.downloaded,
                    chunk_length,
                    content_length,
                )
                &&& state.progress > progress.last_shown_percent
                &&& state.progress == progress.shown_after(chunk_length, content_length)
                &&& state.wf()
            },
            None => {
                &&& percent_after(progress.downloaded, chunk_length, content_length)
                    <= progress.last_shown_percent
                &&& progress.shown_after(chunk_length, content_length)
                    == progress.last_shown_percent
            },
        },
{
    lemma_percent_bounds(
        bytes_after(progress.downloaded, chunk_length) as nat,
        match content_length {
            Some(total) => total as nat,
            None => bytes_after(progress.downloaded, chunk_length) as nat,
        },
    );
}

/// A percentage is at most 100, and exactly 100 once all bytes are in.
pub proof fn lemma_percent_bounds(downloaded: nat, total: nat)
    ensures
        percent_of(downloaded, total) <= 100,
        downloaded >= total && downloaded > 0 ==> percent_of(downloaded, total) == 100,
        downloaded < total ==> percent_of(downloaded, total) < 100,
        downloaded == 0 ==> percent_of(downloaded, total) == 0,
{
    if total > 0 && downloaded < total {
        assert(downloaded * 100 / total < 100) by (nonlinear_arith)
            requires
                downloaded < total,
                total > 0,
        ;
        assert(0 * 100 / total == 0) by (nonlinear_arith)
            requires
                total > 0,
        ;
    }
}

/// With the total fixed, more bytes never mean a lower percentage.
pub proof fn lemma_percent_monotone(fewer: nat, more: nat, total: nat)
    requires
        fewer <= more,
    ensures
        percent_of(fewer, total) <= percent_of(more, total),
{
    lemma_percent_bounds(fewer, total);
    lemma_percent_bounds(more, total);
    if total > 0 && more < total {
        assert(fewer * 100 / total <= more * 100 / total) by (nonlinear_arith)
            requires
                fewer <= more,
                total > 0,
        ;
    }
}

/// However many chunks arrive and whatever they claim, the window hears of a
/// download at most once per percentage still above the last one shown: at
/// most 101 times from the start.
pub proof fn lemma_shown_at_most_once_per_percent(
    progress: DownloadProgress,
    chunks: Seq<(usize, Option<u64>)>,
)
    requires
        progress.last_shown_percent >= -1,
    ensures
        progress.last_shown_percent <= 100 ==> progress.shown_during(chunks) <= 100
            - progress.last_shown_percent,
        progress.last_shown_percent >= 100 ==> progress.shown_during(chunks) == 0,
    decreases chunks.len(),
{
    if chunks.len() > 0 {
        let (chunk_length, content_length) = chunks.first();
        lemma_progress_only_rises(progress, chunk_length, content_length);
        lemma_shown_at_most_once_per_percent(
            progress.after_chunk(chunk_length, content_length),
            chunks.drop_first(),
        );
    }
}

/// How an install ends for the shell.
#[derive(Debug, PartialEq, Eq)]
pub enum InstallEnd {
    /// The update is in place: restart the shell.
    Restart,
    /// The install failed: keep running and present this state.
    Stay(UpdateWindowState),
}

impl DownloadProgress {
    /// Closes the install with its outcome: `None` for success, or the reason
    /// of the failure. Success changes nothing here and calls for a restart;
    /// a failure is reported as by [`DownloadProgress::on_failure`].
    pub fn finish(&self, pending: &mut PendingUpdate, failure: Option<&str>) -> (end: InstallEnd)
        ensures
            match failure {
                None => end is Restart && final(pending)@ == old(pending)@,
                Some(detail) => {
                    &&& end matches InstallEnd::Stay(shown)
                    &&& shown@ == install_failed_state(
                        self.version@,
                        self.current_version@,
                        detail@,
                    )
                    &&& final(pending)@ == cache_shown(old(pending)@, shown@)
                    &&& final(pending)@.wf()
                },
            },
    {
        match failure {
            None => InstallEnd::Restart,
            Some(detail) => InstallEnd::Stay(self.on_failure(pending, detail)),
        }
    }
}

/// What follows from the user's answer to an update.
#[derive(Debug, PartialEq, Eq)]
pub enum UpdateResponse {
    /// No update was pending: nothing happens.
    Nothing,
    /// The user declined; the version's automatic prompts are now withheld.
    Declined,
    /// The user accepted: download and install, reporting chunks to the
    /// progress given, then restart the shell.
    Install(DownloadProgress),
}

/// The suppressed version after the user's answer: the pending version when
/// one is declined, and the same as before otherwise.
pub open spec fn suppressed_after(
    suppressed: Seq<char>,
    pending: Option<UpdateRecordView>,
    install_update: bool,
) -> Seq<char> {
    match pending {
        Some(record) => if install_update {
            suppressed
        } else {
            record.version
        },
        None => suppressed,
    }
}

/// The shared state after the user's answer: the answer resolves the pending
/// update, accepted or declined, so none is pending any more. The cached
/// window state is as before.
pub open spec fn pending_after_response(before: PendingUpdateView) -> PendingUpdateView {
    PendingUpdateView {
        pending_update: None,
        pending_update_window_state: before.pending_update_window_state,
    }
}

/// Takes the user's answer to the update offered, which resolves that update:
/// it is no longer pending afterwards. Declining records the offered version,
/// so that no background check brings it up again; accepting hands out the
/// progress of the download to come. With no update pending either answer
/// does nothing, so a second answer to one offer is silently dropped. An
/// install that fails can only be tried again after a new check.
pub fn update_window_response(
    app_state: &mut AppState,
    pending: &mut PendingUpdate,
    install_update: bool,
) -> (response: UpdateResponse)
    ensures
        final(app_state)@ == suppressed_after(
            old(app_state)@,
            old(pending)@.pending_update,
            install_update,
        ),
        final(pending)@ == pending_after_response(old(pending)@),
        final(pending)@.pending_update is None,
        final(pending)@.pending_update_window_state == old(pending)@.pending_update_window_state,
        old(pending)@.wf() ==> final(pending)@.wf(),
        match old(pending)@.pending_update {
            None => response is Nothing,
            Some(record) => if install_update {
                &&& response matches UpdateResponse::Install(progress)
                &&& progress.downloaded == 0
                &&& progress.last_shown_percent == -1
                &&& progress.version@ == record.version
                &&& progress.current_version@ == record.current_version
            } else {
                response is Declined
            },
        },
{
    match pending.pending_update.take() {
        None => UpdateResponse::Nothing,
        Some(update) => {
            if install_update {
                UpdateResponse::Install(DownloadProgress::new(&update))
            } else {
                app_state.prevent_auto_update_check_for_version = update.version;
                UpdateResponse::Declined
            }
        },
    }
}

/// Once the user has declined the pending update, a background check that
/// finds that version again shows nothing and changes nothing, while one
/// that finds any other version announces it and makes it the pending
/// update.
pub proof fn lemma_declined_version_is_suppressed(
    suppressed: Seq<char>,
    pending: PendingUpdateView,
    declined: UpdateRecordView,
    current_version: Seq<char>,
    found: UpdateRecordView,
)
    requires
        pending.pending_update == Some(declined),
    ensures
        suppressed_after(suppressed, pending.pending_update, false) == declined.version,
        found.version == declined.version ==> {
            &&& check_shows(
                suppressed_after(suppressed, pending.pending_update, false),
                current_version,
                false,
                CheckOutcomeView::Found(found),
            ) is None
            &&& check_leaves(
                pending_after_response(pending),
                suppressed_after(suppressed, pending.pending_update, false),
                current_version,
                false,
                CheckOutcomeView::Found(found),
            ) == pending_after_response(pending)
        },
        found.version != declined.version ==> {
            &&& check_shows(
                suppressed_after(suppressed, pending.pending_update, false),
                current_version,
                false,
                CheckOutcomeView::Found(found),
            ) == Some(available_state(found))
            &&& check_leaves(
                pending_after_response(pending),
                suppressed_after(suppressed, pending.pending_update, false),
                current_version,
                false,
                CheckOutcomeView::Found(found),
            ).pending_update == Some(found)
        },
{
}

/// An answer given while no update is pending changes nothing, and accepting
/// an update leaves the suppressed version alone.
pub proof fn lemma_response_without_effect(
    suppressed: Seq<char>,
    pending: PendingUpdateView,
    install_update: bool,
)
    ensures
        pending.pending_update is None ==> pending_after_response(pending) == pending,
        pending.pending_update is None || install_update ==> suppressed_after(
            suppressed,
            pending.pending_update,
            install_update,
        ) == suppressed,
{
}

/// An update is answered once: whatever the first answer was, a second
/// answer without a new check in between changes nothing.
pub proof fn lemma_second_answer_is_dropped(
    suppressed: Seq<char>,
    pending: PendingUpdateView,
    first: bool,
    second: bool,
)
    ensures
        suppressed_after(
            suppressed_after(suppressed, pending.pending_update, first),
            pending_after_response(pending).pending_update,
            second,
        ) == suppressed_after(suppressed, pending.pending_update, first),
        pending_after_response(pending_after_response(pending)) == pending_after_response(pending),
{
}

/// The state the update window shows when it asks: the cached one, or, before
/// anything was shown, a check in progress for the running version.
pub open spec fn window_state_of(pending: PendingUpdateView, current_version: Seq<char>) -> UpdateWindowStateView {
    match pending.pending_update_window_state {
        Some(state) => state,
        None => UpdateWindowStateView::bare(UpdateWindowType::Checking, current_version),
    }
}

/// Answers the update window's pull of its state.
pub fn get_window_state(pending: &PendingUpdate, current_version: &str) -> (state: UpdateWindowState)
    ensures
        state@ == window_state_of(pending@, current_version@),
        pending@.wf() ==> state@.wf(),
{
    match &pending.pending_update_window_state {
        Some(state) => state.clone(),
        None => UpdateWindowState {
            update_window_type: UpdateWindowType::Checking,
            version: String::new(),
            current_version: current_version.to_owned(),
            release_notes: String::new(),
            error: String::new(),
            progress: 0,
        },
    }
}

} // verus!
