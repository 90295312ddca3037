//! The contract between the backend and its clients: paths, requests, responses
//! and events.

use vstd::prelude::*;

use crate::domain::{AudioSettings, PlaybackState, PlaybackStatus, QueueItem, Song};
use crate::json::Json;

verus! {

pub type Id = String;

pub type Timestamp = String;

pub type DurationMs = u64;

pub type Index = u64;

pub const API_V1_BASE_PATH: &'static str = "/api/v1";

pub const HEALTH_PATH: &'static str = "/api/v1/health";

pub const STATE_PATH: &'static str = "/api/v1/state";

pub const EVENTS_PATH: &'static str = "/api/v1/events";

pub const LAST_EVENT_ID_HEADER: &'static str = "last-event-id";

pub const CURRENT_EVENT_ID_HEADER: &'static str = "x-nocturne-last-event-id";

#[derive(Debug, Clone, Copy, PartialEq, Eq, Structural)]
pub enum ApiVersion {
    V1,
}

impl ApiVersion {
    /// The version as it is written.
    pub fn name(self) -> (name: &'static str)
        ensures
            name@ == "v1"@,
    {
        match self {
            ApiVersion::V1 => "v1",
        }
    }

    /// The path under which this version answers.
    pub fn base_path(self) -> (path: &'static str)
        ensures
            path@ == API_V1_BASE_PATH@,
    {
        match self {
            ApiVersion::V1 => API_V1_BASE_PATH,
        }
    }
}

#[derive(Debug, Clone, Copy, PartialEq, Eq, Structural)]
pub enum SearchJobStatus {
    Queued,
    Running,
    Completed,
    Failed,
}

#[derive(Debug, PartialEq, Eq)]
pub struct SearchJobSummary {
    pub job_id: Id,
    pub status: SearchJobStatus,
    pub query: String,
    pub created_at: Timestamp,
    pub completed_at: Option<Timestamp>,
    pub result_count: Option<u64>,
}

impl Clone for SearchJobSummary {
    fn clone(&self) -> (copy: Self)
        ensures
            copy == *self,
    {
        SearchJobSummary {
            job_id: self.job_id.clone(),
            status: self.status,
            query: self.query.clone(),
            created_at: self.created_at.clone(),
            completed_at: self.completed_at.clone(),
            result_count: self.result_count,
        }
    }
}

#[derive(Debug, Clone, Copy, PartialEq, Eq, Structural)]
pub enum YoutubeImportJobStatus {
    Running,
    Completed,
    Failed,
}

#[derive(Debug, PartialEq, Eq)]
pub struct YoutubeImportJobSummary {
    pub job_id: Id,
    pub status: YoutubeImportJobStatus,
    pub url: String,
    pub total_count: u64,
    pub queued_count: u64,
    pub failed_count: u64,
    pub created_at: Timestamp,
    pub completed_at: Option<Timestamp>,
    pub error_code: Option<String>,
    pub error_message: Option<String>,
}

#[derive(Debug, PartialEq, Eq)]
pub struct BackendStatus {
    pub ready: bool,
    pub version: Option<String>,
    pub yt_dlp_version: Option<String>,
}

#[derive(Debug, PartialEq, Eq)]
pub struct HealthResponse {
    pub ok: bool,
    pub ready: bool,
    pub version: Option<String>,
    pub yt_dlp_version: Option<String>,
}

#[derive(Debug, PartialEq, Eq)]
pub struct StateSnapshot {
    pub backend: BackendStatus,
    pub playback: PlaybackState,
    pub audio: AudioSettings,
    pub current_song: Option<Song>,
    pub queue: Vec<QueueItem>,
    pub search_jobs: Vec<SearchJobSummary>,
    pub youtube_import_jobs: Vec<YoutubeImportJobSummary>,
    pub revision: u64,
    pub snapshot_id: Id,
    pub timestamp: Timestamp,
}

#[derive(Debug, PartialEq, Eq)]
pub struct CommandAccepted {
    pub ok: bool,
    pub command_id: String,
    pub accepted_at: Option<Timestamp>,
    pub job_id: Option<Id>,
    pub queue_item_id: Option<Id>,
}

#[derive(Debug, PartialEq, Eq)]
pub struct ProblemFieldError {
    pub pointer: String,
    pub message: String,
    pub code: String,
}

/// Why a request was refused. `kind` is the address of the kind of problem.
#[derive(Debug, PartialEq, Eq)]
pub struct ProblemDetails {
    pub kind: String,
    pub title: String,
    pub status: u16,
    pub detail: String,
    pub instance: Option<String>,
    pub errors: Vec<ProblemFieldError>,
}

#[derive(Debug, PartialEq, Eq)]
pub struct SearchCommandRequest {
    pub query: String,
}

#[derive(Debug, PartialEq, Eq)]
pub struct SearchResultsResponse {
    pub job: SearchJobSummary,
    pub results: Vec<Song>,
}

#[derive(Debug, PartialEq, Eq)]
pub struct YoutubeImportRequest {
    pub url: String,
}

#[derive(Debug, PartialEq, Eq)]
pub struct QueueAddRequest {
    pub song_id: Id,
}

#[derive(Debug, PartialEq, Eq)]
pub struct QueueRemoveRequest {
    pub queue_item_id: Id,
}

#[derive(Debug, PartialEq, Eq)]
pub struct QueueMoveRequest {
    pub queue_item_id: Id,
    pub to_index: Index,
}

#[derive(Debug, Clone, Copy, PartialEq, Eq, Structural)]
pub struct EmptyPayload {}

impl Default for EmptyPayload {
    fn default() -> (payload: Self) {
        EmptyPayload {  }
    }
}

#[derive(Debug, PartialEq, Eq)]
pub struct QueueResponse {
    pub items: Vec<QueueItem>,
}

#[derive(Debug, Clone, Copy, PartialEq, Eq, Structural)]
pub struct PlaybackSeekRequest {
    pub position_ms: DurationMs,
}

#[derive(Debug, Clone, Copy, PartialEq, Eq, Structural)]
pub struct PlaybackVolumeRequest {
    pub volume_percent: u8,
}

#[derive(Debug, Clone, Copy, PartialEq, Eq, Structural)]
pub enum QueueUpdateReason {
    Add,
    Remove,
    Move,
    Clear,
    CurrentChanged,
}

#[derive(Debug, Clone, Copy, PartialEq, Eq, Structural)]
pub enum SystemErrorSeverity {
    Warning,
    Error,
}

#[derive(Debug, PartialEq, Eq)]
pub struct PlaybackProgress {
    pub playback_session_id: Id,
    pub position_ms: DurationMs,
}

#[derive(Debug, PartialEq, Eq)]
pub struct PlaybackStateChanged {
    pub state: PlaybackStatus,
    pub current_queue_item_id: Option<Id>,
    pub position_ms: DurationMs,
}

#[derive(Debug, PartialEq, Eq)]
pub struct PlaybackTrackChanged {
    pub queue_item_id: Id,
    pub song: Song,
}

#[derive(Debug, Clone, Copy, PartialEq, Eq, Structural)]
pub struct PlaybackPositionUpdated {
    pub position_ms: DurationMs,
}

#[derive(Debug, PartialEq, Eq)]
pub struct QueueUpdated {
    pub reason: QueueUpdateReason,
    pub items: Vec<QueueItem>,
}

#[derive(Debug, PartialEq, Eq)]
pub struct SearchJobCompleted {
    pub job: SearchJobSummary,
    pub results: Vec<Song>,
}

#[derive(Debug, PartialEq, Eq)]
pub struct SearchJobFailed {
    pub job_id: Id,
    pub code: String,
    pub message: String,
}

#[derive(Debug, PartialEq, Eq)]
pub struct YoutubeImportCompleted {
    pub job: YoutubeImportJobSummary,
}

#[derive(Debug, PartialEq, Eq)]
pub struct YoutubeImportFailed {
    pub job_id: Id,
    pub code: String,
    pub message: String,
}

#[derive(Debug, PartialEq, Eq)]
pub struct SystemError {
    pub code: String,
    pub message: String,
    pub severity: SystemErrorSeverity,
    pub context: Option<Json>,
}

#[derive(Debug, Clone, Copy, PartialEq, Eq, Structural)]
pub enum EventName {
    StateUpdated,
    PlaybackProgress,
    PlaybackStateChanged,
    PlaybackTrackChanged,
    PlaybackPositionUpdated,
    QueueUpdated,
    SearchJobStarted,
    SearchJobCompleted,
    SearchJobFailed,
    YoutubeImportStarted,
    YoutubeImportCompleted,
    YoutubeImportFailed,
    SystemError,
}

impl EventName {
    /// The name as it is written.
    pub open spec fn spec_name(self) -> Seq<char> {
        match self {
            EventName::StateUpdated => "state.updated"@,
            EventName::PlaybackProgress => "playback.progress"@,
            EventName::PlaybackStateChanged => "playback.state.changed"@,
            EventName::PlaybackTrackChanged => "playback.track.changed"@,
            EventName::PlaybackPositionUpdated => "playback.position.updated"@,
            EventName::QueueUpdated => "queue.updated"@,
            EventName::SearchJobStarted => "search.job.started"@,
            EventName::SearchJobCompleted => "search.job.completed"@,
            EventName::SearchJobFailed => "search.job.failed"@,
            EventName::YoutubeImportStarted => "youtube.import.started"@,
            EventName::YoutubeImportCompleted => "youtube.import.completed"@,
            EventName::YoutubeImportFailed => "youtube.import.failed"@,
            EventName::SystemError => "system.error"@,
        }
    }

    /// Computes [`EventName::spec_name`].
    pub fn name(self) -> (name: &'static str)
        ensures
            name@ == self.spec_name(),
    {
        match self {
            EventName::StateUpdated => "state.updated",
            EventName::PlaybackProgress => "playback.progress",
            EventName::PlaybackStateChanged => "playback.state.changed",
            EventName::PlaybackTrackChanged => "playback.track.changed",
            EventName::PlaybackPositionUpdated => "playback.position.updated",
            EventName::QueueUpdated => "queue.updated",
            EventName::SearchJobStarted => "search.job.started",
            EventName::SearchJobCompleted => "search.job.completed",
            EventName::SearchJobFailed => "search.job.failed",
            EventName::YoutubeImportStarted => "youtube.import.started",
            EventName::YoutubeImportCompleted => "youtube.import.completed",
            EventName::YoutubeImportFailed => "youtube.import.failed",
            EventName::SystemError => "system.error",
        }
    }
}

/// An event on its way to clients.
#[derive(Debug, PartialEq, Eq)]
pub struct EventEnvelope<T> {
    pub event_id: Id,
    pub event: String,
    pub timestamp: Timestamp,
    pub data: T,
}

impl<T> EventEnvelope<T> {
    pub fn new(event_id: Id, event: EventName, timestamp: Timestamp, data: T) -> (envelope: Self)
        ensures
            envelope.event_id == event_id,
            envelope.event@ == event.spec_name(),
            envelope.timestamp == timestamp,
            envelope.data == data,
    {
        EventEnvelope { event_id, event: event.name().to_owned(), timestamp, data }
    }
}

/// The payload of an event.
#[derive(Debug, PartialEq, Eq)]
pub enum ServerEvent {
    StateUpdated(StateSnapshot),
    PlaybackProgress(PlaybackProgress),
    PlaybackStateChanged(PlaybackStateChanged),
    PlaybackTrackChanged(PlaybackTrackChanged),
    PlaybackPositionUpdated(PlaybackPositionUpdated),
    QueueUpdated(QueueUpdated),
    SearchJobStarted(SearchJobSummary),
    SearchJobCompleted(SearchJobCompleted),
    SearchJobFailed(SearchJobFailed),
    YoutubeImportStarted(YoutubeImportJobSummary),
    YoutubeImportCompleted(YoutubeImportCompleted),
    YoutubeImportFailed(YoutubeImportFailed),
    SystemError(SystemError),
}

impl ServerEvent {
    /// The name under which a payload travels.
    pub open spec fn event_name(self) -> EventName {
        match self {
            ServerEvent::StateUpdated(_) => EventName::StateUpdated,
            ServerEvent::PlaybackProgress(_) => EventName::PlaybackProgress,
            ServerEvent::PlaybackStateChanged(_) => EventName::PlaybackStateChanged,
            ServerEvent::PlaybackTrackChanged(_) => EventName::PlaybackTrackChanged,
            ServerEvent::PlaybackPositionUpdated(_) => EventName::PlaybackPositionUpdated,
            ServerEvent::QueueUpdated(_) => EventName::QueueUpdated,
            ServerEvent::SearchJobStarted(_) => EventName::SearchJobStarted,
            ServerEvent::SearchJobCompleted(_) => EventName::SearchJobCompleted,
            ServerEvent::SearchJobFailed(_) => EventName::SearchJobFailed,
            ServerEvent::YoutubeImportStarted(_) => EventName::YoutubeImportStarted,
            ServerEvent::YoutubeImportCompleted(_) => EventName::YoutubeImportCompleted,
            ServerEvent::YoutubeImportFailed(_) => EventName::YoutubeImportFailed,
            ServerEvent::SystemError(_) => EventName::SystemError,
        }
    }
}

} // verus!
