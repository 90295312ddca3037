//! Records, events and snapshots of the orchestration core.

use vstd::prelude::*;

use crate::domain::{
    clone_items, clone_opt_song, clone_songs, AudioSettings, PlaybackState, PlaybackStatus,
    QueueItem, Song,
};

verus! {

pub type CoreId = String;

pub type CoreTimestamp = String;

/// What is known of the backend process.
#[derive(Debug, PartialEq, Eq)]
pub struct BackendState {
    pub ready: bool,
    pub version: Option<String>,
    pub yt_dlp_version: Option<String>,
}

impl Clone for BackendState {
    fn clone(&self) -> (copy: Self)
        ensures
            copy == *self,
    {
        BackendState {
            ready: self.ready,
            version: self.version.clone(),
            yt_dlp_version: self.yt_dlp_version.clone(),
        }
    }
}

#[derive(Debug, Clone, Copy, PartialEq, Eq, Structural)]
pub enum SearchJobStatus {
    Queued,
    Running,
    Completed,
    Failed,
}

/// A search job and how far it has come.
#[derive(Debug, PartialEq, Eq)]
pub struct SearchJobRecord {
    pub job_id: CoreId,
    pub status: SearchJobStatus,
    pub query: String,
    pub created_at: CoreTimestamp,
    pub completed_at: Option<CoreTimestamp>,
    pub result_count: Option<u64>,
}

impl Clone for SearchJobRecord {
    fn clone(&self) -> (copy: Self)
        ensures
            copy == *self,
    {
        SearchJobRecord {
            job_id: self.job_id.clone(),
            status: self.status,
            query: self.query.clone(),
            created_at: self.created_at.clone(),
            completed_at: self.completed_at.clone(),
            result_count: self.result_count,
        }
    }
}

/// A search job together with the songs that it found.
#[derive(Debug, PartialEq, Eq)]
pub struct SearchResultsRecord {
    pub job: SearchJobRecord,
    pub results: Vec<Song>,
}

#[derive(Debug, Clone, Copy, PartialEq, Eq, Structural)]
pub enum YoutubeImportJobStatus {
    Running,
    Completed,
    Failed,
}

/// An import of songs from a YouTube URL and how far it has come.
#[derive(Debug, PartialEq, Eq)]
pub struct YoutubeImportJobRecord {
    pub job_id: CoreId,
    pub status: YoutubeImportJobStatus,
    pub url: String,
    pub total_count: u64,
    pub queued_count: u64,
    pub failed_count: u64,
    pub created_at: CoreTimestamp,
    pub completed_at: Option<CoreTimestamp>,
    pub error_code: Option<String>,
    pub error_message: Option<String>,
}

impl Clone for YoutubeImportJobRecord {
    fn clone(&self) -> (copy: Self)
        ensures
            copy == *self,
    {
        YoutubeImportJobRecord {
            job_id: self.job_id.clone(),
            status: self.status,
            url: self.url.clone(),
            total_count: self.total_count,
            queued_count: self.queued_count,
            failed_count: self.failed_count,
            created_at: self.created_at.clone(),
            completed_at: self.completed_at.clone(),
            error_code: self.error_code.clone(),
            error_message: self.error_message.clone(),
        }
    }
}

/// The whole state of the core at one moment.
#[derive(Debug, PartialEq, Eq)]
pub struct CoreSnapshot {
    pub backend: BackendState,
    pub playback: PlaybackState,
    pub audio: AudioSettings,
    pub current_song: Option<Song>,
    pub queue: Vec<QueueItem>,
    pub search_jobs: Vec<SearchJobRecord>,
    pub youtube_import_jobs: Vec<YoutubeImportJobRecord>,
    pub revision: u64,
    pub snapshot_id: CoreId,
    pub timestamp: CoreTimestamp,
}

/// The contents of a [`CoreSnapshot`], with its lists as sequences.
pub struct CoreSnapshotView {
    pub backend: BackendState,
    pub playback: PlaybackState,
    pub audio: AudioSettings,
    pub current_song: Option<Song>,
    pub queue: Seq<QueueItem>,
    pub search_jobs: Seq<SearchJobRecord>,
    pub youtube_import_jobs: Seq<YoutubeImportJobRecord>,
    pub revision: u64,
    pub snapshot_id: CoreId,
    pub timestamp: CoreTimestamp,
}

impl View for CoreSnapshot {
    type V = CoreSnapshotView;

    open spec fn view(&self) -> CoreSnapshotView {
        CoreSnapshotView {
            backend: self.backend,
            playback: self.playback,
            audio: self.audio,
            current_song: self.current_song,
            queue: self.queue@,
            search_jobs: self.search_jobs@,
            youtube_import_jobs: self.youtube_import_jobs@,
            revision: self.revision,
            snapshot_id: self.snapshot_id,
            timestamp: self.timestamp,
        }
    }
}

impl Clone for CoreSnapshot {
    fn clone(&self) -> (copy: Self)
        ensures
            copy@ == self@,
    {
        CoreSnapshot {
            backend: self.backend.clone(),
            playback: self.playback.clone(),
            audio: self.audio,
            current_song: clone_opt_song(&self.current_song),
            queue: clone_items(&self.queue),
            search_jobs: clone_jobs(&self.search_jobs),
            youtube_import_jobs: clone_imports(&self.youtube_import_jobs),
            revision: self.revision,
            snapshot_id: self.snapshot_id.clone(),
            timestamp: self.timestamp.clone(),
        }
    }
}

/// A copy of a list of search jobs.
pub fn clone_jobs(jobs: &Vec<SearchJobRecord>) -> (copy: Vec<SearchJobRecord>)
    ensures
        copy@ == jobs@,
{
    jobs.clone()
}

/// A copy of a list of import jobs.
pub fn clone_imports(jobs: &Vec<YoutubeImportJobRecord>) -> (copy: Vec<YoutubeImportJobRecord>)
    ensures
        copy@ == jobs@,
{
    jobs.clone()
}

/// The answer to an accepted command.
#[derive(Debug, PartialEq, Eq)]
pub struct CommandReceipt {
    pub command_id: CoreId,
    pub accepted_at: CoreTimestamp,
    pub job_id: Option<CoreId>,
    pub queue_item_id: Option<CoreId>,
}

#[derive(Debug, Clone, Copy, PartialEq, Eq, Structural)]
pub enum SystemErrorSeverity {
    Warning,
    Error,
}

/// Why the queue changed.
#[derive(Debug, Clone, Copy, PartialEq, Eq, Structural)]
pub enum QueueUpdateReason {
    Add,
    Remove,
    Move,
    Clear,
    CurrentChanged,
}

#[derive(Debug, PartialEq, Eq)]
pub struct StateUpdatedEvent {
    pub snapshot: CoreSnapshot,
}

#[derive(Debug, PartialEq, Eq)]
pub struct PlaybackProgressEvent {
    pub playback_session_id: CoreId,
    pub position_ms: u64,
}

#[derive(Debug, PartialEq, Eq)]
pub struct PlaybackStateChangedEvent {
    pub state: PlaybackStatus,
    pub current_queue_item_id: Option<CoreId>,
    pub position_ms: u64,
}

#[derive(Debug, PartialEq, Eq)]
pub struct PlaybackTrackChangedEvent {
    pub queue_item_id: CoreId,
    pub song: Song,
}

#[derive(Debug, Clone, Copy, PartialEq, Eq, Structural)]
pub struct PlaybackPositionUpdatedEvent {
    pub position_ms: u64,
}

#[derive(Debug, PartialEq, Eq)]
pub struct QueueUpdatedEvent {
    pub reason: QueueUpdateReason,
    pub items: Vec<QueueItem>,
}

#[derive(Debug, PartialEq, Eq)]
pub struct SearchJobCompletedEvent {
    pub job: SearchJobRecord,
    pub results: Vec<Song>,
}

#[derive(Debug, PartialEq, Eq)]
pub struct SearchJobFailedEvent {
    pub job_id: CoreId,
    pub code: String,
    pub message: String,
}

#[derive(Debug, PartialEq, Eq)]
pub struct YoutubeImportCompletedEvent {
    pub job: YoutubeImportJobRecord,
}

#[derive(Debug, PartialEq, Eq)]
pub struct YoutubeImportFailedEvent {
    pub job_id: CoreId,
    pub code: String,
    pub message: String,
}

#[derive(Debug, PartialEq, Eq)]
pub struct SystemErrorEvent {
    pub code: String,
    pub message: String,
    pub severity: SystemErrorSeverity,
}

/// Something that happened in the core.
#[derive(Debug, PartialEq, Eq)]
pub enum CoreEvent {
    StateUpdated(StateUpdatedEvent),
    PlaybackProgress(PlaybackProgressEvent),
    PlaybackStateChanged(PlaybackStateChangedEvent),
    PlaybackTrackChanged(PlaybackTrackChangedEvent),
    PlaybackPositionUpdated(PlaybackPositionUpdatedEvent),
    QueueUpdated(QueueUpdatedEvent),
    SearchJobStarted(SearchJobRecord),
    SearchJobCompleted(SearchJobCompletedEvent),
    SearchJobFailed(SearchJobFailedEvent),
    YoutubeImportStarted(YoutubeImportJobRecord),
    YoutubeImportCompleted(YoutubeImportCompletedEvent),
    YoutubeImportFailed(YoutubeImportFailedEvent),
    SystemError(SystemErrorEvent),
}

/// The contents of a [`CoreEvent`]: texts as sequences of characters where the
/// core composes them, lists as sequences.
pub enum CoreEventView {
    StateUpdated(CoreSnapshotView),
    PlaybackProgress { playback_session_id: CoreId, position_ms: u64 },
    PlaybackStateChanged {
        state: PlaybackStatus,
        current_queue_item_id: Option<CoreId>,
        position_ms: u64,
    },
    PlaybackTrackChanged { queue_item_id: CoreId, song: Song },
    PlaybackPositionUpdated { position_ms: u64 },
    QueueUpdated { reason: QueueUpdateReason, items: Seq<QueueItem> },
    SearchJobStarted(SearchJobRecord),
    SearchJobCompleted { job: SearchJobRecord, results: Seq<Song> },
    SearchJobFailed { job_id: Seq<char>, code: Seq<char>, message: Seq<char> },
    YoutubeImportStarted(YoutubeImportJobRecord),
    YoutubeImportCompleted(YoutubeImportJobRecord),
    YoutubeImportFailed { job_id: Seq<char>, code: Seq<char>, message: Seq<char> },
    SystemError { code: Seq<char>, message: Seq<char>, severity: SystemErrorSeverity },
}

impl View for CoreEvent {
    type V = CoreEventView;

    open spec fn view(&self) -> CoreEventView {
        match *self {
            CoreEvent::StateUpdated(event) => CoreEventView::StateUpdated(event.snapshot@),
            CoreEvent::PlaybackProgress(event) => CoreEventView::PlaybackProgress {
                playback_session_id: event.playback_session_id,
                position_ms: event.position_ms,
            },
            CoreEvent::PlaybackStateChanged(event) => CoreEventView::PlaybackStateChanged {
                state: event.state,
                current_queue_item_id: event.current_queue_item_id,
                position_ms: event.position_ms,
            },
            CoreEvent::PlaybackTrackChanged(event) => CoreEventView::PlaybackTrackChanged {
                queue_item_id: event.queue_item_id,
                song: event.song,
            },
            CoreEvent::PlaybackPositionUpdated(event) => CoreEventView::PlaybackPositionUpdated {
                position_ms: event.position_ms,
            },
            CoreEvent::QueueUpdated(event) => CoreEventView::QueueUpdated {
                reason: event.reason,
                items: event.items@,
            },
            CoreEvent::SearchJobStarted(job) => CoreEventView::SearchJobStarted(job),
            CoreEvent::SearchJobCompleted(event) => CoreEventView::SearchJobCompleted {
                job: event.job,
                results: event.results@,
            },
            CoreEvent::SearchJobFailed(event) => CoreEventView::SearchJobFailed {
                job_id: event.job_id@,
                code: event.code@,
                message: event.message@,
            },
            CoreEvent::YoutubeImportStarted(job) => CoreEventView::YoutubeImportStarted(job),
            CoreEvent::YoutubeImportCompleted(event) => CoreEventView::YoutubeImportCompleted(
                event.job,
            ),
            CoreEvent::YoutubeImportFailed(event) => CoreEventView::YoutubeImportFailed {
                job_id: event.job_id@,
                code: event.code@,
                message: event.message@,
            },
            CoreEvent::SystemError(event) => CoreEventView::SystemError {
                code: event.code@,
                message: event.message@,
                severity: event.severity,
            },
        }
    }
}

impl Clone for CoreEvent {
    fn clone(&self) -> (copy: Self)
        ensures
            copy@ == self@,
    {
        match self {
            CoreEvent::StateUpdated(event) => CoreEvent::StateUpdated(
                StateUpdatedEvent { snapshot: event.snapshot.clone() },
            ),
            CoreEvent::PlaybackProgress(event) => CoreEvent::PlaybackProgress(
                PlaybackProgressEvent {
                    playback_session_id: event.playback_session_id.clone(),
                    position_ms: event.position_ms,
                },
            ),
            CoreEvent::PlaybackStateChanged(event) => CoreEvent::PlaybackStateChanged(
                PlaybackStateChangedEvent {
                    state: event.state,
                    current_queue_item_id: event.current_queue_item_id.clone(),
                    position_ms: event.position_ms,
                },
            ),
            CoreEvent::PlaybackTrackChanged(event) => CoreEvent::PlaybackTrackChanged(
                PlaybackTrackChangedEvent {
                    queue_item_id: event.queue_item_id.clone(),
                    song: event.song.clone(),
                },
            ),
            CoreEvent::PlaybackPositionUpdated(event) => CoreEvent::PlaybackPositionUpdated(*event),
            CoreEvent::QueueUpdated(event) => CoreEvent::QueueUpdated(
                QueueUpdatedEvent { reason: event.reason, items: clone_items(&event.items) },
            ),
            CoreEvent::SearchJobStarted(job) => CoreEvent::SearchJobStarted(job.clone()),
            CoreEvent::SearchJobCompleted(event) => CoreEvent::SearchJobCompleted(
                SearchJobCompletedEvent {
                    job: event.job.clone(),
                    results: clone_songs(&event.results),
                },
            ),
            CoreEvent::SearchJobFailed(event) => CoreEvent::SearchJobFailed(
                SearchJobFailedEvent {
                    job_id: event.job_id.clone(),
                    code: event.code.clone(),
                    message: event.message.clone(),
                },
            ),
            CoreEvent::YoutubeImportStarted(job) => CoreEvent::YoutubeImportStarted(job.clone()),
            CoreEvent::YoutubeImportCompleted(event) => CoreEvent::YoutubeImportCompleted(
                YoutubeImportCompletedEvent { job: event.job.clone() },
            ),
            CoreEvent::YoutubeImportFailed(event) => CoreEvent::YoutubeImportFailed(
                YoutubeImportFailedEvent {
                    job_id: event.job_id.clone(),
                    code: event.code.clone(),
                    message: event.message.clone(),
                },
            ),
            CoreEvent::SystemError(event) => CoreEvent::SystemError(
                SystemErrorEvent {
                    code: event.code.clone(),
                    message: event.message.clone(),
                    severity: event.severity,
                },
            ),
        }
    }
}

#[derive(Debug, Clone, Copy, PartialEq, Eq, Structural)]
pub enum CoreEventKind {
    StateUpdated,
    PlaybackProgress,
    PlaybackStateChanged,
    PlaybackTrackChanged,
    PlaybackPositionUpdated,
    QueueUpdated,
    SearchJobStarted,
    SearchJobCompleted,
    SearchJobFailed,
    YoutubeImportStarted,
    YoutubeImportCompleted,
    YoutubeImportFailed,
    SystemError,
}

impl CoreEventKind {
    /// The name under which events of this kind travel.
    pub open spec fn spec_name(self) -> Seq<char> {
        match self {
            CoreEventKind::StateUpdated => "state.updated"@,
            CoreEventKind::PlaybackProgress => "playback.progress"@,
            CoreEventKind::PlaybackStateChanged => "playback.state.changed"@,
            CoreEventKind::PlaybackTrackChanged => "playback.track.changed"@,
            CoreEventKind::PlaybackPositionUpdated => "playback.position.updated"@,
            CoreEventKind::QueueUpdated => "queue.updated"@,
            CoreEventKind::SearchJobStarted => "search.job.started"@,
            CoreEventKind::SearchJobCompleted => "search.job.completed"@,
            CoreEventKind::SearchJobFailed => "search.job.failed"@,
            CoreEventKind::YoutubeImportStarted => "youtube.import.started"@,
            CoreEventKind::YoutubeImportCompleted => "youtube.import.completed"@,
            CoreEventKind::YoutubeImportFailed => "youtube.import.failed"@,
            CoreEventKind::SystemError => "system.error"@,
        }
    }

    /// Computes [`CoreEventKind::spec_name`].
    pub fn name(self) -> (name: &'static str)
        ensures
            name@ == self.spec_name(),
    {
        match self {
            CoreEventKind::StateUpdated => "state.updated",
            CoreEventKind::PlaybackProgress => "playback.progress",
            CoreEventKind::PlaybackStateChanged => "playback.state.changed",
            CoreEventKind::PlaybackTrackChanged => "playback.track.changed",
            CoreEventKind::PlaybackPositionUpdated => "playback.position.updated",
            CoreEventKind::QueueUpdated => "queue.updated",
            CoreEventKind::SearchJobStarted => "search.job.started",
            CoreEventKind::SearchJobCompleted => "search.job.completed",
            CoreEventKind::SearchJobFailed => "search.job.failed",
            CoreEventKind::YoutubeImportStarted => "youtube.import.started",
            CoreEventKind::YoutubeImportCompleted => "youtube.import.completed",
            CoreEventKind::YoutubeImportFailed => "youtube.import.failed",
            CoreEventKind::SystemError => "system.error",
        }
    }
}

impl CoreEventView {
    /// The kind of an event.
    pub open spec fn kind(self) -> CoreEventKind {
        match self {
            CoreEventView::StateUpdated(_) => CoreEventKind::StateUpdated,
            CoreEventView::PlaybackProgress { .. } => CoreEventKind::PlaybackProgress,
            CoreEventView::PlaybackStateChanged { .. } => CoreEventKind::PlaybackStateChanged,
            CoreEventView::PlaybackTrackChanged { .. } => CoreEventKind::PlaybackTrackChanged,
            CoreEventView::PlaybackPositionUpdated { .. } => CoreEventKind::PlaybackPositionUpdated,
            CoreEventView::QueueUpdated { .. } => CoreEventKind::QueueUpdated,
            CoreEventView::SearchJobStarted(_) => CoreEventKind::SearchJobStarted,
            CoreEventView::SearchJobCompleted { .. } => CoreEventKind::SearchJobCompleted,
            CoreEventView::SearchJobFailed { .. } => CoreEventKind::SearchJobFailed,
            CoreEventView::YoutubeImportStarted(_) => CoreEventKind::YoutubeImportStarted,
            CoreEventView::YoutubeImportCompleted(_) => CoreEventKind::YoutubeImportCompleted,
            CoreEventView::YoutubeImportFailed { .. } => CoreEventKind::YoutubeImportFailed,
            CoreEventView::SystemError { .. } => CoreEventKind::SystemError,
        }
    }
}

/// An event on its way to subscribers.
#[derive(Debug, PartialEq, Eq)]
pub struct CoreEventEnvelope<T> {
    pub event_id: CoreId,
    pub event: String,
    pub timestamp: CoreTimestamp,
    pub data: T,
}

impl<T> CoreEventEnvelope<T> {
    pub fn new(event_id: CoreId, event: CoreEventKind, timestamp: CoreTimestamp, data: T) -> (envelope:
        Self)
        ensures
            envelope.event_id == event_id,
            envelope.event@ == event.spec_name(),
            envelope.timestamp == timestamp,
            envelope.data == data,
    {
        CoreEventEnvelope { event_id, event: event.name().to_owned(), timestamp, data }
    }
}

/// Whether two envelopes carry the same event under the same identity.
pub open spec fn same_envelope(
    a: CoreEventEnvelope<CoreEvent>,
    b: CoreEventEnvelope<CoreEvent>,
) -> bool {
    &&& a.event_id == b.event_id
    &&& a.event == b.event
    &&& a.timestamp == b.timestamp
    &&& a.data@ == b.data@
}

impl Clone for CoreEventEnvelope<CoreEvent> {
    fn clone(&self) -> (copy: Self)
        ensures
            same_envelope(copy, *self),
    {
        CoreEventEnvelope {
            event_id: self.event_id.clone(),
            event: self.event.clone(),
            timestamp: self.timestamp.clone(),
            data: self.data.clone(),
        }
    }
}

} // verus!
