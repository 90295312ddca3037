//! The state of the terminal client: what it knows of the backend, what it shows,
//! and what it makes of keys, events and answers. Times are readings of a
//! monotonic clock in milliseconds.

use vstd::prelude::*;

use crate::api::{BackendStatus, SearchJobStatus, SearchJobSummary, StateSnapshot};
use crate::domain::{AudioSettings, PlaybackState, PlaybackStatus, QueueItem, Song};
use crate::text::str_eq;
use crate::tui_client::{
    BackendEvent, BackendEventKind, CommandAction, CommandActionView, CommandOutcome,
    SearchResultsOutcome, SnapshotSeed,
};
use crate::tui_input::{InputState, InputView, KeyCode, KeyEvent};

verus! {

/// How many results of a search are offered.
pub const MAX_SEARCH_RESULTS: usize = 5;

/// Something that the client has to deal with.
#[derive(Debug)]
pub enum AppEvent {
    Input(KeyEvent),
    Backend(BackendEvent),
    Snapshot(SnapshotSeed),
    CommandResult(Result<CommandOutcome, String>),
    SearchResults(SearchResultsOutcome),
    ConnectionStatus(String),
}

/// What lies over the main view.
#[derive(Debug, Clone, Copy, PartialEq, Eq, Structural)]
pub enum Overlay {
    Closed,
    Queue,
    Search,
    Help,
}

/// How far a search has come.
#[derive(Debug, Clone, Copy, PartialEq, Eq, Structural)]
pub enum SearchOverlayState {
    Loading,
    Results,
    Empty,
    Error,
}

/// A search that was submitted.
#[derive(Debug, PartialEq, Eq)]
pub struct SearchOverlay {
    pub job_id: String,
    pub query: String,
    pub state: SearchOverlayState,
    pub results: Vec<Song>,
    pub selected: usize,
    pub error_message: Option<String>,
    pub closed: bool,
}

/// The contents of a [`SearchOverlay`].
#[verifier::ext_equal]
pub struct SearchOverlayView {
    pub job_id: Seq<char>,
    pub query: Seq<char>,
    pub state: SearchOverlayState,
    pub results: Seq<Song>,
    pub selected: int,
    pub error_message: Option<Seq<char>>,
    pub closed: bool,
}

impl View for SearchOverlay {
    type V = SearchOverlayView;

    open spec fn view(&self) -> SearchOverlayView {
        SearchOverlayView {
            job_id: self.job_id@,
            query: self.query@,
            state: self.state,
            results: self.results@,
            selected: self.selected as int,
            error_message: crate::text::opt_view(self.error_message),
            closed: self.closed,
        }
    }
}

/// How a search ended that the client has not been told of yet.
#[derive(Debug, PartialEq, Eq)]
pub enum PendingSearchTerminalState {
    Completed(Vec<Song>),
    Failed(String),
}

/// The contents of a [`PendingSearchTerminalState`].
#[verifier::ext_equal]
pub enum PendingView {
    Completed(Seq<Song>),
    Failed(Seq<char>),
}

impl View for PendingSearchTerminalState {
    type V = PendingView;

    open spec fn view(&self) -> PendingView {
        match *self {
            PendingSearchTerminalState::Completed(results) => PendingView::Completed(results@),
            PendingSearchTerminalState::Failed(message) => PendingView::Failed(message@),
        }
    }
}

/// How grave a message is.
#[derive(Debug, Clone, Copy, PartialEq, Eq, Structural)]
pub enum StatusLevel {
    Info,
    Warning,
    Error,
}

/// What a key leads to outside the client.
#[derive(Debug, PartialEq, Eq)]
pub enum AppAction {
    Nothing,
    Quit,
    Command(CommandAction),
}

/// The contents of an [`AppAction`].
#[verifier::ext_equal]
pub enum AppActionView {
    Nothing,
    Quit,
    Command(CommandActionView),
}

impl View for AppAction {
    type V = AppActionView;

    open spec fn view(&self) -> AppActionView {
        match *self {
            AppAction::Nothing => AppActionView::Nothing,
            AppAction::Quit => AppActionView::Quit,
            AppAction::Command(action) => AppActionView::Command(action@),
        }
    }
}

/// The client.
pub struct App {
    pub backend_addr: String,
    pub backend: BackendStatus,
    pub playback: PlaybackState,
    pub audio: AudioSettings,
    pub current_song: Option<Song>,
    pub queue: Vec<QueueItem>,
    pub search_jobs: Vec<SearchJobSummary>,
    pub overlay: Overlay,
    pub queue_selection: usize,
    pub pending_delete_confirmation: bool,
    pub input: InputState,
    pub search_overlay: Option<SearchOverlay>,
    pub pending_search_terminal: Option<(String, PendingSearchTerminalState)>,
    pub pending_search_results_request: Option<String>,
    pub status_message: String,
    pub status_level: StatusLevel,
    pub last_event_id: Option<String>,
    pub display_position_ms: u64,
    pub playback_anchor_ms: u64,
    pub playback_anchor_at: u64,
    pub playback_progress_confirmed: bool,
}

/// The contents of an [`App`].
#[verifier::ext_equal]
pub struct AppView {
    pub backend_addr: Seq<char>,
    pub backend: BackendStatus,
    pub playback: PlaybackState,
    pub audio: AudioSettings,
    pub current_song: Option<Song>,
    pub queue: Seq<QueueItem>,
    pub search_jobs: Seq<SearchJobSummary>,
    pub overlay: Overlay,
    pub queue_selection: int,
    pub pending_delete_confirmation: bool,
    pub input: InputView,
    pub search_overlay: Option<SearchOverlayView>,
    pub pending_search_terminal: Option<(Seq<char>, PendingView)>,
    pub pending_search_results_request: Option<Seq<char>>,
    pub status_message: Seq<char>,
    pub status_level: StatusLevel,
    pub last_event_id: Option<Seq<char>>,
    pub display_position_ms: u64,
    pub playback_anchor_ms: u64,
    pub playback_anchor_at: u64,
    pub playback_progress_confirmed: bool,
}

impl View for App {
    type V = AppView;

    open spec fn view(&self) -> AppView {
        AppView {
            backend_addr: self.backend_addr@,
            backend: self.backend,
            playback: self.playback,
            audio: self.audio,
            current_song: self.current_song,
            queue: self.queue@,
            search_jobs: self.search_jobs@,
            overlay: self.overlay,
            queue_selection: self.queue_selection as int,
            pending_delete_confirmation: self.pending_delete_confirmation,
            input: self.input@,
            search_overlay: match self.search_overlay {
                Some(search) => Some(search@),
                None => None,
            },
            pending_search_terminal: match self.pending_search_terminal {
                Some((job_id, state)) => Some((job_id@, state@)),
                None => None,
            },
            pending_search_results_request: crate::text::opt_view(
                self.pending_search_results_request,
            ),
            status_message: self.status_message@,
            status_level: self.status_level,
            last_event_id: crate::text::opt_view(self.last_event_id),
            display_position_ms: self.display_position_ms,
            playback_anchor_ms: self.playback_anchor_ms,
            playback_anchor_at: self.playback_anchor_at,
            playback_progress_confirmed: self.playback_progress_confirmed,
        }
    }
}

// ---------------------------------------------------------------------------
// Jobs
// ---------------------------------------------------------------------------

/// The position of the first job with the given id.
pub open spec fn job_position(jobs: Seq<SearchJobSummary>, job_id: Seq<char>) -> Option<int>
    decreases jobs.len(),
{
    if jobs.len() == 0 {
        None
    } else if jobs[0].job_id@ == job_id {
        Some(0)
    } else {
        match job_position(jobs.drop_first(), job_id) {
            Some(i) => Some(i + 1),
            None => None,
        }
    }
}

proof fn lemma_job_position(jobs: Seq<SearchJobSummary>, job_id: Seq<char>)
    ensures
        match job_position(jobs, job_id) {
            Some(i) => 0 <= i < jobs.len() && jobs[i].job_id@ == job_id && forall|j: int|
                0 <= j < i ==> (#[trigger] jobs[j]).job_id@ != job_id,
            None => forall|j: int| 0 <= j < jobs.len() ==> (#[trigger] jobs[j]).job_id@ != job_id,
        },
    decreases jobs.len(),
{
    if jobs.len() > 0 && jobs[0].job_id@ != job_id {
        let rest = jobs.drop_first();
        lemma_job_position(rest, job_id);
        assert forall|j: int| 0 < j < jobs.len() implies #[trigger] jobs[j] == rest[j - 1] by {}
    }
}

fn find_job(jobs: &Vec<SearchJobSummary>, job_id: &str) -> (position: Option<usize>)
    ensures
        match position {
            Some(i) => job_position(jobs@, job_id@) == Some(i as int) && i < jobs@.len(),
            None => job_position(jobs@, job_id@) is None,
        },
{
    proof {
        lemma_job_position(jobs@, job_id@);
    }
    let count = jobs.len();
    for i in 0..count
        invariant
            count == jobs@.len(),
            forall|j: int| 0 <= j < i ==> (#[trigger] jobs@[j]).job_id@ != job_id@,
            match job_position(jobs@, job_id@) {
                Some(i) => 0 <= i < jobs.len() && jobs[i].job_id@ == job_id@ && forall|j: int|
                    0 <= j < i ==> (#[trigger] jobs@[j]).job_id@ != job_id@,
                None => forall|j: int|
                    0 <= j < jobs.len() ==> (#[trigger] jobs@[j]).job_id@ != job_id@,
            },
    {
        if str_eq(jobs[i].job_id.as_str(), job_id) {
            assert(jobs@[i as int].job_id@ == job_id@);
            return Some(i);
        }
    }
    None
}

fn find_item(queue: &Vec<QueueItem>, id: &str) -> (position: Option<usize>)
    ensures
        match position {
            Some(i) => crate::core_state::item_index(queue@, id@) == Some(i as int) && i
                < queue@.len(),
            None => crate::core_state::item_index(queue@, id@) is None,
        },
{
    let count = queue.len();
    for i in 0..count
        invariant
            count == queue@.len(),
            forall|j: int| 0 <= j < i ==> (#[trigger] queue@[j]).id@ != id@,
    {
        if str_eq(queue[i].id.as_str(), id) {
            proof {
                crate::core_state::lemma_item_index_is(queue@, id@, i as int);
            }
            return Some(i);
        }
    }
    proof {
        crate::core_state::lemma_item_index(queue@, id@);
    }
    None
}

/// The jobs with one put in, in the place of one with the same id.
pub open spec fn upserted(jobs: Seq<SearchJobSummary>, job: SearchJobSummary) -> Seq<
    SearchJobSummary,
> {
    match job_position(jobs, job.job_id@) {
        Some(i) => jobs.update(i, job),
        None => jobs.push(job),
    }
}

/// The jobs, with the one of the given id failed.
pub open spec fn with_failed_job(jobs: Seq<SearchJobSummary>, job_id: Seq<char>) -> Seq<
    SearchJobSummary,
> {
    match job_position(jobs, job_id) {
        Some(i) => jobs.update(i, SearchJobSummary { status: SearchJobStatus::Failed, ..jobs[i] }),
        None => jobs,
    }
}

// ---------------------------------------------------------------------------
// The model
// ---------------------------------------------------------------------------

/// `value`, brought between `low` and `high`.
pub open spec fn clamped(value: int, low: int, high: int) -> int {
    if value < low {
        low
    } else if value > high {
        high
    } else {
        value
    }
}

/// A selection among `count` entries, moved by `delta`.
pub open spec fn moved_selection(selected: int, count: int, delta: int) -> int {
    if count == 0 {
        0
    } else {
        clamped(selected + delta, 0, count - 1)
    }
}

fn move_selection_by(selected: usize, count: usize, delta: isize) -> (moved: usize)
    ensures
        moved == moved_selection(selected as int, count as int, delta as int),
{
    if count == 0 {
        return 0;
    }
    let last: i128 = count as i128 - 1;
    let next: i128 = selected as i128 + delta as i128;
    if next < 0 {
        0
    } else if next > last {
        count - 1
    } else {
        next as usize
    }
}

impl SearchOverlayView {
    /// Whether what is selected is among the results on offer.
    pub open spec fn valid(self) -> bool {
        self.state == SearchOverlayState::Results ==> 0 <= self.selected < self.results.len()
            <= MAX_SEARCH_RESULTS
    }

    /// The search, closed.
    pub open spec fn shut(self) -> Self {
        SearchOverlayView { closed: true, ..self }
    }

    /// The search with the selection moved.
    pub open spec fn moved(self, delta: int) -> Self {
        SearchOverlayView {
            selected: moved_selection(self.selected, self.results.len() as int, delta),
            ..self
        }
    }
}

impl AppView {
    /// Whether the client is in order: its cursor stands in its input, and its
    /// selections are among what can be selected.
    pub open spec fn valid(self) -> bool {
        &&& self.input.valid()
        &&& 0 <= self.queue_selection
        &&& self.queue.len() > 0 ==> self.queue_selection < self.queue.len()
        &&& self.search_overlay matches Some(search) ==> search.valid()
    }

    /// The client with a new message.
    pub open spec fn status(self, level: StatusLevel, message: Seq<char>) -> Self {
        AppView { status_level: level, status_message: message, ..self }
    }

    /// The client with the position of playback known at a time.
    pub open spec fn anchored(self, position_ms: u64, now_ms: u64) -> Self {
        AppView {
            playback_anchor_ms: position_ms,
            display_position_ms: position_ms,
            playback_anchor_at: now_ms,
            ..self
        }
    }

    /// The position of the current item in the queue.
    pub open spec fn current_index(self) -> Option<int> {
        match self.playback.current_queue_item_id {
            Some(id) => crate::core_state::item_index(self.queue, id@),
            None => None,
        }
    }

    /// Whether an item is the current one.
    pub open spec fn is_current(self, queue_item_id: Seq<char>) -> bool {
        crate::text::opt_is(self.playback.current_queue_item_id, queue_item_id)
    }

    /// The client with the song of the current item.
    pub open spec fn song_synced(self) -> Self {
        AppView {
            current_song: match self.current_index() {
                Some(i) => Some(self.queue[i].song),
                None => None,
            },
            ..self
        }
    }

    /// The client with a selection that is in the queue.
    pub open spec fn selection_reconciled(self) -> Self {
        if self.queue.len() == 0 {
            AppView { queue_selection: 0, pending_delete_confirmation: false, ..self }
        } else if self.queue_selection >= self.queue.len() {
            AppView { queue_selection: self.queue.len() - 1, ..self }
        } else {
            self
        }
    }

    /// The selection with which the queue is opened: the item behind the current
    /// one, the current one where it is the last, else the first.
    pub open spec fn initial_selection(self) -> int {
        match self.current_index() {
            Some(i) => if i + 1 < self.queue.len() {
                i + 1
            } else {
                i
            },
            None => 0,
        }
    }

    /// The client once a search has come back with songs. A search that the user
    /// has closed stays closed; songs of an unknown search are kept for later.
    pub open spec fn completed(self, job_id: Seq<char>, results: Seq<Song>) -> Self {
        match self.search_overlay {
            Some(search) if search.job_id == job_id => if search.closed {
                self
            } else {
                let shown = if results.len() > MAX_SEARCH_RESULTS {
                    results.take(MAX_SEARCH_RESULTS as int)
                } else {
                    results
                };
                (AppView {
                    search_overlay: Some(
                        SearchOverlayView {
                            results: shown,
                            selected: 0,
                            error_message: None,
                            state: if shown.len() == 0 {
                                SearchOverlayState::Empty
                            } else {
                                SearchOverlayState::Results
                            },
                            ..search
                        },
                    ),
                    overlay: Overlay::Search,
                    pending_search_terminal: None,
                    pending_search_results_request: None,
                    ..self
                }).status(
                    StatusLevel::Info,
                    if shown.len() == 0 {
                        "No matches found."@
                    } else {
                        "Found "@ + crate::text::decimal(shown.len()) + " candidate(s)."@
                    },
                )
            },
            _ => AppView {
                pending_search_terminal: Some((job_id, PendingView::Completed(results))),
                ..self
            },
        }
    }

    /// The client once a search has failed, in the same way.
    pub open spec fn failed(self, job_id: Seq<char>, message: Seq<char>) -> Self {
        match self.search_overlay {
            Some(search) if search.job_id == job_id => if search.closed {
                self
            } else {
                (AppView {
                    search_overlay: Some(
                        SearchOverlayView {
                            results: Seq::empty(),
                            error_message: Some(message),
                            state: SearchOverlayState::Error,
                            ..search
                        },
                    ),
                    overlay: Overlay::Search,
                    pending_search_terminal: None,
                    pending_search_results_request: None,
                    ..self
                }).status(StatusLevel::Error, message)
            },
            _ => AppView {
                pending_search_terminal: Some((job_id, PendingView::Failed(message))),
                ..self
            },
        }
    }

    /// The client with what it had kept of the search that it shows.
    pub open spec fn pending_applied(self) -> Self {
        match (self.pending_search_terminal, self.search_overlay) {
            (Some((job_id, state)), Some(search)) => if search.job_id != job_id || search.closed {
                self
            } else {
                match state {
                    PendingView::Completed(results) => self.completed(job_id, results),
                    PendingView::Failed(message) => self.failed(job_id, message),
                }
            },
            _ => self,
        }
    }

    /// The client with its search brought in line with what the backend knows.
    pub open spec fn search_reconciled(self) -> Self {
        match self.search_overlay {
            Some(search) => if search.closed {
                self
            } else {
                match job_position(self.search_jobs, search.job_id) {
                    None => self,
                    Some(i) => match self.search_jobs[i].status {
                        SearchJobStatus::Completed => if search.state
                            == SearchOverlayState::Loading {
                            (AppView {
                                pending_search_results_request: Some(search.job_id),
                                ..self
                            }).status(StatusLevel::Info, "Refreshing search results..."@)
                        } else {
                            self
                        },
                        SearchJobStatus::Failed => self.failed(
                            search.job_id,
                            "Search failed. Reconnect completed without a detailed error."@,
                        ),
                        _ => self.pending_applied(),
                    },
                }
            },
            None => self,
        }
    }

    /// The client with a whole state taken over.
    pub open spec fn loaded(self, snapshot: StateSnapshot, now_ms: u64) -> Self {
        (AppView {
            backend: snapshot.backend,
            playback: snapshot.playback,
            audio: snapshot.audio,
            queue: snapshot.queue@,
            search_jobs: snapshot.search_jobs@,
            playback_progress_confirmed: snapshot.playback.state == PlaybackStatus::Playing
                && snapshot.playback.position_ms > 0,
            ..self
        }).anchored(snapshot.playback.position_ms, now_ms).song_synced().selection_reconciled()
    }

    /// The client after a whole state was read.
    pub open spec fn snapshot_applied(
        self,
        snapshot: StateSnapshot,
        current_event_id: Option<Seq<char>>,
        now_ms: u64,
    ) -> Self {
        (AppView { last_event_id: current_event_id, ..self }).loaded(snapshot, now_ms).status(
            StatusLevel::Info,
            "Connected to backend on http://"@ + self.backend_addr,
        ).search_reconciled()
    }

    /// The client after playback has told its position. A session that the client
    /// does not know yet is taken over; the position of another one is not.
    pub open spec fn progressed(self, session: String, position_ms: u64, now_ms: u64) -> Self {
        let known = match self.playback.playback_session_id {
            Some(known) => known,
            None => session,
        };
        if known@ != session@ {
            self
        } else {
            (AppView {
                playback: PlaybackState {
                    playback_session_id: Some(known),
                    position_ms,
                    ..self.playback
                },
                playback_progress_confirmed: true,
                ..self
            }).anchored(position_ms, now_ms)
        }
    }

    /// The client after a search has started.
    pub open spec fn search_started(self, job_id: Seq<char>) -> Self {
        match self.search_overlay {
            Some(search) if search.job_id == job_id && !search.closed => AppView {
                search_overlay: Some(
                    SearchOverlayView {
                        state: SearchOverlayState::Loading,
                        error_message: None,
                        ..search
                    },
                ),
                ..self
            },
            _ => self,
        }
    }

    /// The client after an event of the backend.
    pub open spec fn evented(self, event: BackendEvent, now_ms: u64) -> Self {
        let noted = AppView { last_event_id: Some(event.event_id@), ..self };
        match event.kind {
            BackendEventKind::StateUpdated(snapshot) => noted.loaded(
                snapshot,
                now_ms,
            ).search_reconciled(),
            BackendEventKind::PlaybackProgress(payload) => noted.progressed(
                payload.playback_session_id,
                payload.position_ms,
                now_ms,
            ),
            BackendEventKind::SearchJobStarted(job) => (AppView {
                search_jobs: upserted(noted.search_jobs, job),
                ..noted
            }).search_started(job.job_id@),
            BackendEventKind::SearchJobCompleted(payload) => (AppView {
                search_jobs: upserted(noted.search_jobs, payload.job),
                ..noted
            }).completed(payload.job.job_id@, payload.results@),
            BackendEventKind::SearchJobFailed(payload) => (AppView {
                search_jobs: with_failed_job(noted.search_jobs, payload.job_id@),
                ..noted
            }).failed(payload.job_id@, payload.message@),
            BackendEventKind::SystemError(payload) => noted.status(
                match payload.severity {
                    crate::api::SystemErrorSeverity::Warning => StatusLevel::Warning,
                    crate::api::SystemErrorSeverity::Error => StatusLevel::Error,
                },
                payload.message@,
            ),
        }
    }

    /// The client with a search opened.
    pub open spec fn search_opened(self, job_id: Seq<char>, query: Seq<char>) -> Self {
        AppView {
            search_overlay: Some(
                SearchOverlayView {
                    job_id,
                    query,
                    state: SearchOverlayState::Loading,
                    results: Seq::empty(),
                    selected: 0,
                    error_message: None,
                    closed: false,
                },
            ),
            overlay: Overlay::Search,
            ..self
        }
    }

    /// The client after the answer to a command.
    pub open spec fn answered(self, result: Result<CommandOutcome, String>) -> Self {
        match result {
            Ok(CommandOutcome::StatusMessage(message)) => self.status(StatusLevel::Info, message@),
            Ok(CommandOutcome::SearchSubmitted { job_id, query }) => {
                let opened = self.search_opened(
                    job_id@,
                    query@,
                ).pending_applied().search_reconciled();
                if opened.search_overlay matches Some(search) && search.state
                    == SearchOverlayState::Loading {
                    opened.status(StatusLevel::Info, "Searching backend..."@)
                } else {
                    opened
                }
            },
            Ok(CommandOutcome::SongQueued(message)) => (AppView {
                overlay: Overlay::Closed,
                search_overlay: None,
                input: InputView::cleared(),
                ..self
            }).status(StatusLevel::Info, message@),
            Err(message) => self.status(StatusLevel::Error, message@),
        }
    }

    /// The client after the results of a search were asked for.
    pub open spec fn results_applied(self, outcome: SearchResultsOutcome) -> Self {
        let asked = AppView { pending_search_results_request: None, ..self };
        match outcome {
            SearchResultsOutcome::Loaded { job, results } => (AppView {
                search_jobs: upserted(asked.search_jobs, job),
                ..asked
            }).completed(job.job_id@, results@),
            SearchResultsOutcome::Failed { job_id, message } => asked.failed(job_id@, message@),
        }
    }

    /// The position that is shown at a time: that of the last report, moved on by
    /// the time since then while it plays, at most to the end of the song.
    pub open spec fn position_shown(self, now_ms: u64) -> u64 {
        if self.playback.state != PlaybackStatus::Playing || !self.playback_progress_confirmed {
            self.playback_anchor_ms
        } else {
            let elapsed = if now_ms >= self.playback_anchor_at {
                now_ms - self.playback_anchor_at
            } else {
                0
            };
            let duration = match self.current_song {
                Some(song) => song.duration_ms,
                None => u64::MAX,
            };
            if self.playback_anchor_ms + elapsed < duration {
                (self.playback_anchor_ms + elapsed) as u64
            } else {
                duration
            }
        }
    }

    // -- keys ------------------------------------------------------------------

    /// The client with its search closed.
    pub open spec fn search_dismissed(self) -> Self {
        AppView {
            search_overlay: match self.search_overlay {
                Some(search) => Some(search.shut()),
                None => None,
            },
            ..self
        }
    }

    /// The client with the queue opened.
    pub open spec fn queue_opened(self) -> Self {
        AppView {
            overlay: Overlay::Queue,
            pending_delete_confirmation: false,
            queue_selection: self.initial_selection(),
            ..self.search_dismissed()
        }
    }

    /// The client with the help opened, or closed if it was open.
    pub open spec fn help_toggled(self) -> Self {
        if self.overlay == Overlay::Help {
            AppView { overlay: Overlay::Closed, ..self }
        } else {
            AppView { overlay: Overlay::Help, ..self.search_dismissed() }
        }
    }

    /// The client with the volume moved, and the command that sets it; none where
    /// it stays.
    pub open spec fn volume_adjusted(self, delta: int) -> (Self, AppActionView) {
        let next = clamped(self.audio.volume_percent + delta, 0, 100) as u8;
        if next == self.audio.volume_percent {
            (self, AppActionView::Nothing)
        } else {
            (
                AppView { audio: AudioSettings { volume_percent: next }, ..self },
                AppActionView::Command(CommandActionView::SetVolume(next)),
            )
        }
    }

    /// What a slash command leads to.
    pub open spec fn slashed(self, command: Seq<char>) -> (Self, AppActionView) {
        if command == "exit"@ {
            (self, AppActionView::Quit)
        } else if command == "help"@ {
            (AppView { overlay: Overlay::Help, ..self }, AppActionView::Nothing)
        } else {
            (
                self.status(
                    StatusLevel::Warning,
                    "Unknown slash command. Try /help or /exit."@,
                ),
                AppActionView::Nothing,
            )
        }
    }

    /// What submitting the input leads to.
    pub open spec fn submitted(self) -> (Self, AppActionView) {
        let text = crate::text::trimmed(self.input.text);
        if text.len() == 0 {
            (
                self.status(StatusLevel::Warning, "Enter a search query first."@),
                AppActionView::Nothing,
            )
        } else if text[0] == '/' {
            self.slashed(crate::text::trimmed(text.skip(1)))
        } else {
            (self, AppActionView::Command(CommandActionView::Search(text)))
        }
    }

    /// What a key leads to while nothing lies over the main view.
    pub open spec fn input_keyed(self, key: KeyEvent) -> (Self, AppActionView) {
        if key.code == KeyCode::Enter {
            self.submitted()
        } else {
            (AppView { input: self.input.keyed(key), ..self }, AppActionView::Nothing)
        }
    }

    /// What a key leads to in the queue.
    pub open spec fn queue_keyed(self, key: KeyEvent) -> (Self, AppActionView) {
        let in_queue = self.queue_selection < self.queue.len();
        match key.code {
            KeyCode::Esc | KeyCode::Char('q') => (
                AppView { overlay: Overlay::Closed, pending_delete_confirmation: false, ..self },
                AppActionView::Nothing,
            ),
            KeyCode::Up | KeyCode::Char('k') => (
                AppView {
                    pending_delete_confirmation: false,
                    queue_selection: moved_selection(
                        self.queue_selection,
                        self.queue.len() as int,
                        -1,
                    ),
                    ..self
                },
                AppActionView::Nothing,
            ),
            KeyCode::Down | KeyCode::Char('j') => (
                AppView {
                    pending_delete_confirmation: false,
                    queue_selection: moved_selection(
                        self.queue_selection,
                        self.queue.len() as int,
                        1,
                    ),
                    ..self
                },
                AppActionView::Nothing,
            ),
            KeyCode::Char('d') => if !in_queue {
                (self, AppActionView::Nothing)
            } else if self.is_current(self.queue[self.queue_selection].id@) {
                (
                    self.status(
                        StatusLevel::Warning,
                        "The currently playing item cannot be removed."@,
                    ),
                    AppActionView::Nothing,
                )
            } else {
                (
                    (AppView { pending_delete_confirmation: true, ..self }).status(
                        StatusLevel::Warning,
                        "Press Enter to remove '"@ + self.queue[self.queue_selection].song.title@
                            + "'."@,
                    ),
                    AppActionView::Nothing,
                )
            },
            KeyCode::Enter => (
                AppView { pending_delete_confirmation: false, ..self },
                if self.pending_delete_confirmation && in_queue {
                    AppActionView::Command(
                        CommandActionView::RemoveQueueItem(self.queue[self.queue_selection].id@),
                    )
                } else {
                    AppActionView::Nothing
                },
            ),
            _ => (self, AppActionView::Nothing),
        }
    }

    /// The client with its search closed and nothing over the main view.
    pub open spec fn search_shut(self) -> Self {
        AppView { overlay: Overlay::Closed, ..self.search_dismissed() }
    }

    /// What a key leads to in a search.
    pub open spec fn search_keyed(self, key: KeyEvent) -> (Self, AppActionView) {
        match self.search_overlay {
            None => (AppView { overlay: Overlay::Closed, ..self }, AppActionView::Nothing),
            Some(search) => {
                let closes = key.code == KeyCode::Esc || key.code == KeyCode::Char('q');
                match search.state {
                    SearchOverlayState::Loading => if closes {
                        (self.search_shut(), AppActionView::Nothing)
                    } else {
                        (self, AppActionView::Nothing)
                    },
                    SearchOverlayState::Results => if closes {
                        (self.search_shut(), AppActionView::Nothing)
                    } else if key.code == KeyCode::Up || key.code == KeyCode::Char('k') {
                        (
                            AppView { search_overlay: Some(search.moved(-1)), ..self },
                            AppActionView::Nothing,
                        )
                    } else if key.code == KeyCode::Down || key.code == KeyCode::Char('j') {
                        (
                            AppView { search_overlay: Some(search.moved(1)), ..self },
                            AppActionView::Nothing,
                        )
                    } else if key.code == KeyCode::Enter && search.selected < search.results.len() {
                        (
                            self,
                            AppActionView::Command(
                                CommandActionView::AddSong(search.results[search.selected].id@),
                            ),
                        )
                    } else {
                        (self, AppActionView::Nothing)
                    },
                    _ => if closes || key.code == KeyCode::Enter {
                        (
                            AppView { input: InputView::cleared(), ..self.search_shut() },
                            AppActionView::Nothing,
                        )
                    } else {
                        (self, AppActionView::Nothing)
                    },
                }
            },
        }
    }

    /// What a key leads to in the help.
    pub open spec fn help_keyed(self, key: KeyEvent) -> (Self, AppActionView) {
        if key.code == KeyCode::Esc || key.code == KeyCode::Char('q') || key.code == KeyCode::F(1) {
            (AppView { overlay: Overlay::Closed, ..self }, AppActionView::Nothing)
        } else {
            (self, AppActionView::Nothing)
        }
    }

    /// What a key leads to where it is no shortcut.
    pub open spec fn overlay_keyed(self, key: KeyEvent) -> (Self, AppActionView) {
        if key.code == KeyCode::F(1) {
            (self.help_toggled(), AppActionView::Nothing)
        } else {
            match self.overlay {
                Overlay::Closed => self.input_keyed(key),
                Overlay::Queue => self.queue_keyed(key),
                Overlay::Search => self.search_keyed(key),
                Overlay::Help => self.help_keyed(key),
            }
        }
    }

    /// Whether the client comes from what has happened to `after`, and wants
    /// `action` done.
    pub open spec fn handles(
        self,
        event: AppEvent,
        now_ms: u64,
        after: Self,
        action: AppActionView,
    ) -> bool {
        match event {
            AppEvent::Input(key) => {
                &&& after == self.keyed(key).0
                &&& action == self.keyed(key).1
            },
            AppEvent::Backend(event) => {
                &&& after == self.evented(event, now_ms)
                &&& action == AppActionView::Nothing
            },
            AppEvent::Snapshot(seed) => {
                &&& after == self.snapshot_applied(
                    seed.snapshot,
                    crate::text::opt_view(seed.current_event_id),
                    now_ms,
                )
                &&& action == AppActionView::Nothing
            },
            AppEvent::CommandResult(result) => {
                &&& after == self.answered(result)
                &&& action == AppActionView::Nothing
            },
            AppEvent::SearchResults(outcome) => {
                &&& after == self.results_applied(outcome)
                &&& action == AppActionView::Nothing
            },
            AppEvent::ConnectionStatus(message) => {
                &&& after == self.status(StatusLevel::Warning, message@)
                &&& action == AppActionView::Nothing
            },
        }
    }

    /// What a key leads to.
    pub open spec fn keyed(self, key: KeyEvent) -> (Self, AppActionView) {
        if key.modifiers.control {
            match key.code {
                KeyCode::Char('c') => (self, AppActionView::Quit),
                KeyCode::Char('q') => (self.queue_opened(), AppActionView::Nothing),
                KeyCode::Char('p') => (
                    self,
                    AppActionView::Command(CommandActionView::PlayPause),
                ),
                KeyCode::Up => self.volume_adjusted(5),
                KeyCode::Down => self.volume_adjusted(-5),
                KeyCode::Left => (self, AppActionView::Command(CommandActionView::Previous)),
                KeyCode::Right => (self, AppActionView::Command(CommandActionView::Next)),
                _ => self.overlay_keyed(key),
            }
        } else {
            self.overlay_keyed(key)
        }
    }
}

// ---------------------------------------------------------------------------
// The client
// ---------------------------------------------------------------------------

impl SearchOverlay {
    /// Moves the selection.
    pub fn move_selection(&mut self, delta: isize)
        ensures
            final(self)@ == old(self)@.moved(delta as int),
    {
        self.selected = move_selection_by(self.selected, self.results.len(), delta);
    }

    /// The song that is selected.
    pub fn selected_song(&self) -> (song: Option<&Song>)
        ensures
            match song {
                Some(song) => self@.selected < self@.results.len() && *song
                    == self@.results[self@.selected],
                None => self@.selected >= self@.results.len(),
            },
    {
        if self.selected < self.results.len() {
            Some(&self.results[self.selected])
        } else {
            None
        }
    }
}

impl App {
    /// A client that knows nothing of its backend yet.
    pub fn new(backend_addr: String) -> (app: Self)
        ensures
            app@.backend_addr == backend_addr@,
            app@.backend == (BackendStatus { ready: false, version: None, yt_dlp_version: None }),
            app@.playback == (PlaybackState {
                state: PlaybackStatus::Stopped,
                position_ms: 0,
                current_queue_item_id: None,
                playback_session_id: None,
            }),
            app@.audio.volume_percent == AudioSettings::DEFAULT_VOLUME_PERCENT,
            app@.current_song is None,
            app@.queue.len() == 0,
            app@.search_jobs.len() == 0,
            app@.overlay == Overlay::Closed,
            app@.queue_selection == 0,
            !app@.pending_delete_confirmation,
            app@.input == InputView::cleared(),
            app@.search_overlay is None,
            app@.pending_search_terminal is None,
            app@.pending_search_results_request is None,
            app@.status_message == "Starting backend..."@,
            app@.status_level == StatusLevel::Info,
            app@.last_event_id is None,
            app@.display_position_ms == 0,
            app@.playback_anchor_ms == 0,
            !app@.playback_progress_confirmed,
            app@.valid(),
    {
        App {
            backend_addr,
            backend: BackendStatus { ready: false, version: None, yt_dlp_version: None },
            playback: PlaybackState {
                state: PlaybackStatus::Stopped,
                position_ms: 0,
                current_queue_item_id: None,
                playback_session_id: None,
            },
            audio: AudioSettings::default(),
            current_song: None,
            queue: Vec::new(),
            search_jobs: Vec::new(),
            overlay: Overlay::Closed,
            queue_selection: 0,
            pending_delete_confirmation: false,
            input: InputState::default(),
            search_overlay: None,
            pending_search_terminal: None,
            pending_search_results_request: None,
            status_message: "Starting backend...".to_owned(),
            status_level: StatusLevel::Info,
            last_event_id: None,
            display_position_ms: 0,
            playback_anchor_ms: 0,
            playback_anchor_at: 0,
            playback_progress_confirmed: false,
        }
    }

    fn set_status(&mut self, level: StatusLevel, message: String)
        ensures
            final(self)@ == old(self)@.status(level, message@),
    {
        self.status_level = level;
        self.status_message = message;
    }

    fn sync_playback_anchor(&mut self, position_ms: u64, now_ms: u64)
        ensures
            final(self)@ == old(self)@.anchored(position_ms, now_ms),
    {
        self.playback_anchor_ms = position_ms;
        self.display_position_ms = position_ms;
        self.playback_anchor_at = now_ms;
    }

    /// The position of the current item in the queue.
    pub fn current_queue_index(&self) -> (index: Option<usize>)
        ensures
            match index {
                Some(i) => self@.current_index() == Some(i as int) && i < self@.queue.len(),
                None => self@.current_index() is None,
            },
    {
        match &self.playback.current_queue_item_id {
            Some(id) => find_item(&self.queue, id.as_str()),
            None => None,
        }
    }

    /// Whether an item is the current one.
    pub fn is_current_item(&self, queue_item_id: &str) -> (r: bool)
        ensures
            r == self@.is_current(queue_item_id@),
    {
        crate::text::opt_eq(&self.playback.current_queue_item_id, queue_item_id)
    }

    fn sync_current_song_from_queue(&mut self)
        ensures
            final(self)@ == old(self)@.song_synced(),
    {
        self.current_song = match self.current_queue_index() {
            Some(index) => Some(self.queue[index].song.clone()),
            None => None,
        };
    }

    /// Brings the selection into the queue.
    pub fn reconcile_queue_selection(&mut self)
        ensures
            final(self)@ == old(self)@.selection_reconciled(),
    {
        let len = self.queue.len();
        if len == 0 {
            self.queue_selection = 0;
            self.pending_delete_confirmation = false;
        } else if self.queue_selection >= len {
            self.queue_selection = len - 1;
        }
    }

    fn load(&mut self, snapshot: StateSnapshot, now_ms: u64)
        ensures
            final(self)@ == old(self)@.loaded(snapshot, now_ms),
    {
        let position_ms = snapshot.playback.position_ms;
        self.playback_progress_confirmed = match snapshot.playback.state {
            PlaybackStatus::Playing => position_ms > 0,
            _ => false,
        };
        self.backend = snapshot.backend;
        self.playback = snapshot.playback;
        self.audio = snapshot.audio;
        self.queue = snapshot.queue;
        self.search_jobs = snapshot.search_jobs;
        self.sync_playback_anchor(position_ms, now_ms);
        self.sync_current_song_from_queue();
        self.reconcile_queue_selection();
    }

    /// Takes over a whole state that was read.
    #[verifier::spinoff_prover]
    pub fn apply_snapshot(
        &mut self,
        snapshot: StateSnapshot,
        current_event_id: Option<String>,
        now_ms: u64,
    )
        ensures
            final(self)@ == old(self)@.snapshot_applied(
                snapshot,
                crate::text::opt_view(current_event_id),
                now_ms,
            ),
    {
        let ghost before = self@;
        let ghost cursor = crate::text::opt_view(current_event_id);
        self.last_event_id = current_event_id;
        assert(self@ == (AppView { last_event_id: cursor, ..before }));
        self.load(snapshot, now_ms);
        let mut message = "Connected to backend on http://".to_owned();
        message.append(self.backend_addr.as_str());
        self.set_status(StatusLevel::Info, message);
        assert(self@ == (AppView { last_event_id: cursor, ..before }).loaded(
            snapshot,
            now_ms,
        ).status(StatusLevel::Info, "Connected to backend on http://"@ + before.backend_addr));
        self.reconcile_search_overlay_from_jobs();
    }

    /// Takes an event of the backend over.
    #[verifier::spinoff_prover]
    pub fn apply_backend_event(&mut self, event: BackendEvent, now_ms: u64)
        ensures
            final(self)@ == old(self)@.evented(event, now_ms),
    {
        self.last_event_id = Some(event.event_id);
        match event.kind {
            BackendEventKind::StateUpdated(snapshot) => {
                self.load(snapshot, now_ms);
                self.reconcile_search_overlay_from_jobs();
            },
            BackendEventKind::PlaybackProgress(payload) => {
                let known = match &self.playback.playback_session_id {
                    Some(known) => str_eq(known.as_str(), payload.playback_session_id.as_str()),
                    None => true,
                };
                if !known {
                    return;
                }
                if self.playback.playback_session_id.is_none() {
                    self.playback.playback_session_id = Some(payload.playback_session_id);
                }
                self.playback.position_ms = payload.position_ms;
                self.playback_progress_confirmed = true;
                self.sync_playback_anchor(payload.position_ms, now_ms);
            },
            BackendEventKind::SearchJobStarted(job) => {
                let job_id = job.job_id.clone();
                self.upsert_search_job(job);
                self.apply_search_job_started(job_id.as_str());
            },
            BackendEventKind::SearchJobCompleted(payload) => {
                let job_id = payload.job.job_id.clone();
                self.upsert_search_job(payload.job);
                self.apply_search_job_completed(job_id, payload.results);
            },
            BackendEventKind::SearchJobFailed(payload) => {
                match find_job(&self.search_jobs, payload.job_id.as_str()) {
                    Some(index) => {
                        let mut job = self.search_jobs[index].clone();
                        job.status = SearchJobStatus::Failed;
                        self.search_jobs.set(index, job);
                    },
                    None => {},
                }
                self.apply_search_job_failed(payload.job_id, payload.message);
            },
            BackendEventKind::SystemError(payload) => {
                let level = match payload.severity {
                    crate::api::SystemErrorSeverity::Warning => StatusLevel::Warning,
                    crate::api::SystemErrorSeverity::Error => StatusLevel::Error,
                };
                self.set_status(level, payload.message);
            },
        }
    }

    /// Takes the answer to a command over.
    #[verifier::spinoff_prover]
    pub fn apply_command_result(&mut self, result: Result<CommandOutcome, String>)
        ensures
            final(self)@ == old(self)@.answered(result),
    {
        match result {
            Ok(CommandOutcome::StatusMessage(message)) => {
                self.set_status(StatusLevel::Info, message);
            },
            Ok(CommandOutcome::SearchSubmitted { job_id, query }) => {
                self.open_search_overlay(job_id, query);
                self.apply_pending_terminal_state();
                self.reconcile_search_overlay_from_jobs();
                let loading = match &self.search_overlay {
                    Some(search) => search.state == SearchOverlayState::Loading,
                    None => false,
                };
                if loading {
                    self.set_status(StatusLevel::Info, "Searching backend...".to_owned());
                }
            },
            Ok(CommandOutcome::SongQueued(message)) => {
                self.overlay = Overlay::Closed;
                self.search_overlay = None;
                self.input.clear();
                self.set_status(StatusLevel::Info, message);
            },
            Err(message) => {
                self.set_status(StatusLevel::Error, message);
            },
        }
    }

    /// Shows how the connection stands.
    pub fn note_connection_status(&mut self, message: String)
        ensures
            final(self)@ == old(self)@.status(StatusLevel::Warning, message@),
    {
        self.set_status(StatusLevel::Warning, message);
    }

    /// Takes the results of a search over that were asked for.
    pub fn apply_search_results(&mut self, outcome: SearchResultsOutcome)
        ensures
            final(self)@ == old(self)@.results_applied(outcome),
    {
        self.pending_search_results_request = None;
        match outcome {
            SearchResultsOutcome::Loaded { job, results } => {
                let job_id = job.job_id.clone();
                self.upsert_search_job(job);
                self.apply_search_job_completed(job_id, results);
            },
            SearchResultsOutcome::Failed { job_id, message } => {
                self.apply_search_job_failed(job_id, message);
            },
        }
    }

    /// Deals with whatever has come.
    pub fn handle_event(&mut self, event: AppEvent, now_ms: u64) -> (action: AppAction)
        requires
            event is Input ==> old(self)@.input.valid(),
        ensures
            old(self)@.handles(event, now_ms, final(self)@, action@),
    {
        match event {
            AppEvent::Input(key) => {
                return self.handle_key(key);
            },
            AppEvent::Backend(event) => {
                self.apply_backend_event(event, now_ms);
            },
            AppEvent::Snapshot(seed) => {
                self.apply_snapshot(seed.snapshot, seed.current_event_id, now_ms);
            },
            AppEvent::CommandResult(result) => {
                self.apply_command_result(result);
            },
            AppEvent::SearchResults(outcome) => {
                self.apply_search_results(outcome);
            },
            AppEvent::ConnectionStatus(message) => {
                self.note_connection_status(message);
            },
        }
        AppAction::Nothing
    }

    /// Moves the position that is shown on to a time.
    pub fn tick(&mut self, now_ms: u64)
        ensures
            final(self)@ == (AppView {
                display_position_ms: old(self)@.position_shown(now_ms),
                ..old(self)@
            }),
    {
        self.display_position_ms = self.current_display_position_ms(now_ms);
    }

    /// The position that is shown at a time.
    pub fn current_display_position_ms(&self, now_ms: u64) -> (position_ms: u64)
        ensures
            position_ms == self@.position_shown(now_ms),
    {
        let playing = match self.playback.state {
            PlaybackStatus::Playing => true,
            _ => false,
        };
        if !playing || !self.playback_progress_confirmed {
            return self.playback_anchor_ms;
        }
        let elapsed = now_ms.saturating_sub(self.playback_anchor_at);
        let position = self.playback_anchor_ms.saturating_add(elapsed);
        let duration = match &self.current_song {
            Some(song) => song.duration_ms,
            None => u64::MAX,
        };
        if position < duration {
            position
        } else {
            duration
        }
    }

    /// The event that the client has seen last.
    pub fn last_event_id(&self) -> (id: Option<String>)
        ensures
            crate::text::opt_view(id) == self@.last_event_id,
    {
        self.last_event_id.clone()
    }

    /// The search whose results are to be asked for, if there is one; it is handed
    /// out once.
    pub fn take_search_results_request(&mut self) -> (job_id: Option<String>)
        ensures
            crate::text::opt_view(job_id) == old(self)@.pending_search_results_request,
            final(self)@ == (AppView { pending_search_results_request: None, ..old(self)@ }),
    {
        self.pending_search_results_request.take()
    }

    // -- searches --------------------------------------------------------------

    fn upsert_search_job(&mut self, job: SearchJobSummary)
        ensures
            final(self)@ == (AppView {
                search_jobs: upserted(old(self)@.search_jobs, job),
                ..old(self)@
            }),
    {
        match find_job(&self.search_jobs, job.job_id.as_str()) {
            Some(index) => {
                self.search_jobs.set(index, job);
            },
            None => {
                self.search_jobs.push(job);
            },
        }
    }

    fn apply_search_job_started(&mut self, job_id: &str)
        ensures
            final(self)@ == old(self)@.search_started(job_id@),
    {
        match self.search_overlay.take() {
            Some(mut search) => {
                if str_eq(search.job_id.as_str(), job_id) && !search.closed {
                    search.state = SearchOverlayState::Loading;
                    search.error_message = None;
                }
                self.search_overlay = Some(search);
            },
            None => {},
        }
    }

    /// Takes over that a search has come back with songs.
    pub fn apply_search_job_completed(&mut self, job_id: String, results: Vec<Song>)
        ensures
            final(self)@ == old(self)@.completed(job_id@, results@),
    {
        let shown = match &self.search_overlay {
            Some(search) => str_eq(search.job_id.as_str(), job_id.as_str()),
            None => false,
        };
        if !shown {
            self.pending_search_terminal = Some(
                (job_id, PendingSearchTerminalState::Completed(results)),
            );
            return;
        }
        match self.search_overlay.take() {
            Some(mut search) => {
                if search.closed {
                    self.search_overlay = Some(search);
                    return;
                }
                let mut results = results;
                results.truncate(MAX_SEARCH_RESULTS);
                let count = results.len();
                search.results = results;
                search.selected = 0;
                search.error_message = None;
                search.state = if count == 0 {
                    SearchOverlayState::Empty
                } else {
                    SearchOverlayState::Results
                };
                self.search_overlay = Some(search);
                self.overlay = Overlay::Search;
                self.pending_search_terminal = None;
                self.pending_search_results_request = None;
                let message = if count == 0 {
                    "No matches found.".to_owned()
                } else {
                    let mut message = "Found ".to_owned();
                    let number = crate::text::format_decimal(count as u64);
                    message.append(number.as_str());
                    message.append(" candidate(s).");
                    message
                };
                self.set_status(StatusLevel::Info, message);
            },
            None => {},
        }
    }

    /// Takes over that a search has failed.
    pub fn apply_search_job_failed(&mut self, job_id: String, message: String)
        ensures
            final(self)@ == old(self)@.failed(job_id@, message@),
    {
        let shown = match &self.search_overlay {
            Some(search) => str_eq(search.job_id.as_str(), job_id.as_str()),
            None => false,
        };
        if !shown {
            self.pending_search_terminal = Some(
                (job_id, PendingSearchTerminalState::Failed(message)),
            );
            return;
        }
        match self.search_overlay.take() {
            Some(mut search) => {
                if search.closed {
                    self.search_overlay = Some(search);
                    return;
                }
                search.results = Vec::new();
                search.error_message = Some(message.clone());
                search.state = SearchOverlayState::Error;
                self.search_overlay = Some(search);
                self.overlay = Overlay::Search;
                self.pending_search_terminal = None;
                self.pending_search_results_request = None;
                self.set_status(StatusLevel::Error, message);
            },
            None => {},
        }
    }

    /// Opens a search that was submitted.
    pub fn open_search_overlay(&mut self, job_id: String, query: String)
        ensures
            final(self)@ == old(self)@.search_opened(job_id@, query@),
    {
        self.search_overlay = Some(
            SearchOverlay {
                job_id,
                query,
                state: SearchOverlayState::Loading,
                results: Vec::new(),
                selected: 0,
                error_message: None,
                closed: false,
            },
        );
        self.overlay = Overlay::Search;
    }

    fn dismiss_search_overlay(&mut self)
        ensures
            final(self)@ == old(self)@.search_dismissed(),
    {
        match self.search_overlay.take() {
            Some(mut search) => {
                search.closed = true;
                self.search_overlay = Some(search);
            },
            None => {},
        }
    }

    fn apply_pending_terminal_state(&mut self)
        ensures
            final(self)@ == old(self)@.pending_applied(),
    {
        let due = match (&self.pending_search_terminal, &self.search_overlay) {
            (Some((job_id, _)), Some(search)) => str_eq(search.job_id.as_str(), job_id.as_str())
                && !search.closed,
            _ => false,
        };
        if !due {
            return;
        }
        match self.pending_search_terminal.take() {
            Some((job_id, PendingSearchTerminalState::Completed(results))) => {
                self.apply_search_job_completed(job_id, results);
            },
            Some((job_id, PendingSearchTerminalState::Failed(message))) => {
                self.apply_search_job_failed(job_id, message);
            },
            None => {},
        }
    }

    fn reconcile_search_overlay_from_jobs(&mut self)
        ensures
            final(self)@ == old(self)@.search_reconciled(),
    {
        let (job_id, loading) = match &self.search_overlay {
            Some(search) => {
                if search.closed {
                    return;
                }
                (search.job_id.clone(), search.state == SearchOverlayState::Loading)
            },
            None => return,
        };
        let status = match find_job(&self.search_jobs, job_id.as_str()) {
            Some(index) => self.search_jobs[index].status,
            None => return,
        };
        match status {
            SearchJobStatus::Completed => {
                if loading {
                    self.pending_search_results_request = Some(job_id);
                    self.set_status(
                        StatusLevel::Info,
                        "Refreshing search results...".to_owned(),
                    );
                }
            },
            SearchJobStatus::Failed => {
                self.apply_search_job_failed(
                    job_id,
                    "Search failed. Reconnect completed without a detailed error.".to_owned(),
                );
            },
            _ => {
                self.apply_pending_terminal_state();
            },
        }
    }

    // -- keys ------------------------------------------------------------------

    /// Takes a key over.
    pub fn handle_key(&mut self, key: KeyEvent) -> (action: AppAction)
        requires
            old(self)@.input.valid(),
        ensures
            final(self)@ == old(self)@.keyed(key).0,
            action@ == old(self)@.keyed(key).1,
    {
        if key.modifiers.control {
            match key.code {
                KeyCode::Char('c') => {
                    return AppAction::Quit;
                },
                KeyCode::Char('q') => {
                    self.open_queue_overlay();
                    return AppAction::Nothing;
                },
                KeyCode::Char('p') => {
                    return AppAction::Command(CommandAction::PlayPause);
                },
                KeyCode::Up => {
                    return self.adjust_volume(5);
                },
                KeyCode::Down => {
                    return self.adjust_volume(-5);
                },
                KeyCode::Left => {
                    return AppAction::Command(CommandAction::Previous);
                },
                KeyCode::Right => {
                    return AppAction::Command(CommandAction::Next);
                },
                _ => {},
            }
        }
        match key.code {
            KeyCode::F(1) => {
                self.toggle_help_overlay();
                return AppAction::Nothing;
            },
            _ => {},
        }
        match self.overlay {
            Overlay::Closed => self.handle_input_key(key),
            Overlay::Queue => self.handle_queue_overlay_key(key),
            Overlay::Search => self.handle_search_overlay_key(key),
            Overlay::Help => self.handle_help_overlay_key(key),
        }
    }

    fn handle_input_key(&mut self, key: KeyEvent) -> (action: AppAction)
        requires
            old(self)@.input.valid(),
        ensures
            final(self)@ == old(self)@.input_keyed(key).0,
            action@ == old(self)@.input_keyed(key).1,
    {
        match key.code {
            KeyCode::Enter => {
                return self.submit_input();
            },
            KeyCode::Backspace => {
                self.input.delete_before_cursor();
            },
            KeyCode::Delete => {
                self.input.delete_at_cursor();
            },
            KeyCode::Left => {
                self.input.move_left();
            },
            KeyCode::Right => {
                self.input.move_right();
            },
            KeyCode::Home => {
                self.input.move_home();
            },
            KeyCode::End => {
                self.input.move_end();
            },
            KeyCode::Char(ch) => {
                if key.modifiers.is_plain() {
                    self.input.insert(ch);
                }
            },
            _ => {},
        }
        AppAction::Nothing
    }

    fn handle_queue_overlay_key(&mut self, key: KeyEvent) -> (action: AppAction)
        ensures
            final(self)@ == old(self)@.queue_keyed(key).0,
            action@ == old(self)@.queue_keyed(key).1,
    {
        match key.code {
            KeyCode::Esc | KeyCode::Char('q') => {
                self.overlay = Overlay::Closed;
                self.pending_delete_confirmation = false;
                AppAction::Nothing
            },
            KeyCode::Up | KeyCode::Char('k') => {
                self.pending_delete_confirmation = false;
                self.move_queue_selection(-1);
                AppAction::Nothing
            },
            KeyCode::Down | KeyCode::Char('j') => {
                self.pending_delete_confirmation = false;
                self.move_queue_selection(1);
                AppAction::Nothing
            },
            KeyCode::Char('d') => {
                if self.queue_selection < self.queue.len() {
                    let id = self.queue[self.queue_selection].id.clone();
                    if self.is_current_item(id.as_str()) {
                        self.set_status(
                            StatusLevel::Warning,
                            "The currently playing item cannot be removed.".to_owned(),
                        );
                    } else {
                        let mut message = "Press Enter to remove '".to_owned();
                        message.append(self.queue[self.queue_selection].song.title.as_str());
                        message.append("'.");
                        self.pending_delete_confirmation = true;
                        self.set_status(StatusLevel::Warning, message);
                    }
                }
                AppAction::Nothing
            },
            KeyCode::Enter => {
                if self.pending_delete_confirmation {
                    self.pending_delete_confirmation = false;
                    if self.queue_selection < self.queue.len() {
                        return AppAction::Command(
                            CommandAction::RemoveQueueItem(
                                self.queue[self.queue_selection].id.clone(),
                            ),
                        );
                    }
                }
                AppAction::Nothing
            },
            _ => AppAction::Nothing,
        }
    }

    fn handle_search_overlay_key(&mut self, key: KeyEvent) -> (action: AppAction)
        ensures
            final(self)@ == old(self)@.search_keyed(key).0,
            action@ == old(self)@.search_keyed(key).1,
    {
        let mut search = match self.search_overlay.take() {
            Some(search) => search,
            None => {
                self.overlay = Overlay::Closed;
                return AppAction::Nothing;
            },
        };
        let mut action = AppAction::Nothing;
        match search.state {
            SearchOverlayState::Loading => match key.code {
                KeyCode::Esc | KeyCode::Char('q') => {
                    search.closed = true;
                    self.overlay = Overlay::Closed;
                },
                _ => {},
            },
            SearchOverlayState::Results => match key.code {
                KeyCode::Esc | KeyCode::Char('q') => {
                    search.closed = true;
                    self.overlay = Overlay::Closed;
                },
                KeyCode::Up | KeyCode::Char('k') => {
                    search.move_selection(-1);
                },
                KeyCode::Down | KeyCode::Char('j') => {
                    search.move_selection(1);
                },
                KeyCode::Enter => {
                    match search.selected_song() {
                        Some(song) => {
                            action = AppAction::Command(CommandAction::AddSong(song.id.clone()));
                        },
                        None => {},
                    }
                },
                _ => {},
            },
            SearchOverlayState::Empty | SearchOverlayState::Error => match key.code {
                KeyCode::Enter | KeyCode::Esc | KeyCode::Char('q') => {
                    search.closed = true;
                    self.overlay = Overlay::Closed;
                    self.input.clear();
                },
                _ => {},
            },
        }
        self.search_overlay = Some(search);
        action
    }

    fn handle_help_overlay_key(&mut self, key: KeyEvent) -> (action: AppAction)
        ensures
            final(self)@ == old(self)@.help_keyed(key).0,
            action@ == old(self)@.help_keyed(key).1,
    {
        match key.code {
            KeyCode::Esc | KeyCode::Char('q') | KeyCode::F(1) => {
                self.overlay = Overlay::Closed;
                AppAction::Nothing
            },
            _ => AppAction::Nothing,
        }
    }

    /// Opens the queue.
    pub fn open_queue_overlay(&mut self)
        ensures
            final(self)@ == old(self)@.queue_opened(),
    {
        self.dismiss_search_overlay();
        self.overlay = Overlay::Queue;
        self.pending_delete_confirmation = false;
        self.queue_selection = self.initial_queue_selection();
    }

    fn toggle_help_overlay(&mut self)
        ensures
            final(self)@ == old(self)@.help_toggled(),
    {
        match self.overlay {
            Overlay::Help => {
                self.overlay = Overlay::Closed;
            },
            _ => {
                self.dismiss_search_overlay();
                self.overlay = Overlay::Help;
            },
        }
    }

    fn initial_queue_selection(&self) -> (selection: usize)
        ensures
            selection == self@.initial_selection(),
    {
        let len = self.queue.len();
        match self.current_queue_index() {
            Some(index) => {
                if index < len - 1 {
                    index + 1
                } else {
                    index
                }
            },
            None => 0,
        }
    }

    fn move_queue_selection(&mut self, delta: isize)
        ensures
            final(self)@ == (AppView {
                queue_selection: moved_selection(
                    old(self)@.queue_selection,
                    old(self)@.queue.len() as int,
                    delta as int,
                ),
                ..old(self)@
            }),
    {
        self.queue_selection = move_selection_by(self.queue_selection, self.queue.len(), delta);
    }

    fn submit_input(&mut self) -> (action: AppAction)
        ensures
            final(self)@ == old(self)@.submitted().0,
            action@ == old(self)@.submitted().1,
    {
        let text = crate::text::trim(self.input.text.as_str());
        let chars = crate::text::chars_of(text.as_str());
        if chars.len() == 0 {
            self.set_status(StatusLevel::Warning, "Enter a search query first.".to_owned());
            return AppAction::Nothing;
        }
        if chars[0] == '/' {
            let command = crate::text::trim_range(&chars, 1, chars.len());
            assert(chars@.subrange(1, chars@.len() as int) =~= chars@.skip(1));
            return self.handle_slash_command(command.as_str());
        }
        AppAction::Command(CommandAction::Search(text))
    }

    fn handle_slash_command(&mut self, command: &str) -> (action: AppAction)
        ensures
            final(self)@ == old(self)@.slashed(command@).0,
            action@ == old(self)@.slashed(command@).1,
    {
        if str_eq(command, "exit") {
            AppAction::Quit
        } else if str_eq(command, "help") {
            self.overlay = Overlay::Help;
            AppAction::Nothing
        } else {
            self.set_status(
                StatusLevel::Warning,
                "Unknown slash command. Try /help or /exit.".to_owned(),
            );
            AppAction::Nothing
        }
    }

    fn adjust_volume(&mut self, delta: i16) -> (action: AppAction)
        ensures
            final(self)@ == old(self)@.volume_adjusted(delta as int).0,
            action@ == old(self)@.volume_adjusted(delta as int).1,
    {
        let wanted: i32 = self.audio.volume_percent as i32 + delta as i32;
        let next: u8 = if wanted < 0 {
            0
        } else if wanted > 100 {
            100
        } else {
            wanted as u8
        };
        if next == self.audio.volume_percent {
            return AppAction::Nothing;
        }
        self.audio = AudioSettings::new(next);
        AppAction::Command(CommandAction::SetVolume(next))
    }
}

// ---------------------------------------------------------------------------
// Laws
// ---------------------------------------------------------------------------

/// Whatever key comes, the client stays in order.
pub proof fn keys_keep_the_client_in_order(app: AppView, key: KeyEvent)
    requires
        app.valid(),
    ensures
        app.keyed(key).0.valid(),
{
    crate::core_state::lemma_item_index(app.queue, app.playback.current_queue_item_id->0@);
}

proof fn lemma_reconciling_keeps_order(app: AppView)
    requires
        app.valid(),
    ensures
        app.pending_applied().valid(),
        app.search_reconciled().valid(),
{
}

/// Whatever event of the backend comes, the client stays in order.
pub proof fn events_keep_the_client_in_order(app: AppView, event: BackendEvent, now_ms: u64)
    requires
        app.valid(),
    ensures
        app.evented(event, now_ms).valid(),
{
    let noted = AppView { last_event_id: Some(event.event_id@), ..app };
    match event.kind {
        BackendEventKind::StateUpdated(snapshot) => {
            lemma_reconciling_keeps_order(noted.loaded(snapshot, now_ms));
        },
        _ => {},
    }
}

/// Whatever comes back for a command or a request, the client stays in order.
pub proof fn answers_keep_the_client_in_order(
    app: AppView,
    result: Result<CommandOutcome, String>,
    outcome: SearchResultsOutcome,
    snapshot: StateSnapshot,
    current_event_id: Option<Seq<char>>,
    now_ms: u64,
)
    requires
        app.valid(),
    ensures
        app.answered(result).valid(),
        app.results_applied(outcome).valid(),
        app.snapshot_applied(snapshot, current_event_id, now_ms).valid(),
{
    match result {
        Ok(CommandOutcome::SearchSubmitted { job_id, query }) => {
            let opened = app.search_opened(job_id@, query@);
            lemma_reconciling_keeps_order(opened);
            lemma_reconciling_keeps_order(opened.pending_applied());
        },
        _ => {},
    }
    let loaded = (AppView { last_event_id: current_event_id, ..app }).loaded(
        snapshot,
        now_ms,
    ).status(StatusLevel::Info, "Connected to backend on http://"@ + app.backend_addr);
    lemma_reconciling_keeps_order(loaded);
}

/// A search that the user has closed stays closed: neither results nor a failure
/// that come late change anything of what is shown.
pub proof fn a_closed_search_stays_closed(
    app: AppView,
    job_id: Seq<char>,
    results: Seq<Song>,
    message: Seq<char>,
)
    requires
        app.search_overlay matches Some(search) && search.job_id == job_id && search.closed,
    ensures
        app.completed(job_id, results) == app,
        app.failed(job_id, message) == app,
        app.search_started(job_id) == app,
        app.search_reconciled() == app,
        app.pending_applied() == app,
{
}

/// It makes no difference whether the results of a search come before or after
/// the answer to its submission: they are shown either way.
pub proof fn early_results_are_not_lost(
    app: AppView,
    job_id: String,
    query: String,
    results: Seq<Song>,
)
    requires
        job_position(app.search_jobs, job_id@) is None,
        app.search_overlay matches Some(search) ==> search.job_id != job_id@,
    ensures
        ({
            let result = Ok::<CommandOutcome, String>(
                CommandOutcome::SearchSubmitted { job_id, query },
            );
            let early = app.completed(job_id@, results).answered(result);
            let late = app.answered(result).completed(job_id@, results);
            &&& early.search_overlay == late.search_overlay
            &&& early.overlay == Overlay::Search
            &&& late.overlay == Overlay::Search
            &&& early.status_message == late.status_message
            &&& early.status_level == late.status_level
            &&& early.pending_search_terminal is None
            &&& early.search_overlay matches Some(search) && !(search.state
                == SearchOverlayState::Loading)
        }),
{
    let result = Ok::<CommandOutcome, String>(CommandOutcome::SearchSubmitted { job_id, query });
    let kept = app.completed(job_id@, results);
    assert(kept.pending_search_terminal == Some((job_id@, PendingView::Completed(results))));
    let opened = kept.search_opened(job_id@, query@);
    let applied = opened.pending_applied();
    assert(applied.search_reconciled() == applied);
}

/// The client is left only by its two ways out: the shortcut, or the slash
/// command in its input.
pub proof fn only_two_ways_out(app: AppView, key: KeyEvent)
    ensures
        app.keyed(key).1 == AppActionView::Quit ==> {
            ||| key.modifiers.control && key.code == KeyCode::Char('c')
            ||| app.overlay == Overlay::Closed && key.code == KeyCode::Enter
        },
{
}

/// In the queue, no key marks the current item for removal or removes it.
pub proof fn the_current_item_is_not_marked_for_removal(app: AppView, key: KeyEvent)
    requires
        app.overlay == Overlay::Queue,
        0 <= app.queue_selection < app.queue.len(),
        app.is_current(app.queue[app.queue_selection].id@),
        !app.pending_delete_confirmation,
    ensures
        !app.queue_keyed(key).0.pending_delete_confirmation,
        !(app.queue_keyed(key).1 is Command),
{
}

/// The position that is shown never goes past the end of the song while it plays,
/// never goes back on its own, and stands still while nothing plays.
pub proof fn the_shown_position_advances(app: AppView, earlier_ms: u64, later_ms: u64)
    requires
        earlier_ms <= later_ms,
    ensures
        app.position_shown(earlier_ms) <= app.position_shown(later_ms),
        app.playback.state != PlaybackStatus::Playing ==> app.position_shown(later_ms)
            == app.playback_anchor_ms,
        app.playback.state == PlaybackStatus::Playing && app.playback_progress_confirmed && (
        app.current_song matches Some(song)) ==> app.position_shown(later_ms)
            <= app.current_song->0.duration_ms,
{
}

/// A volume in range stays in range.
pub proof fn the_volume_stays_in_range(app: AppView, delta: int)
    requires
        app.audio.volume_percent <= 100,
    ensures
        app.volume_adjusted(delta).0.audio.volume_percent <= 100,
{
}

} // verus!
