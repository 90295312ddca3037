//! How the core's records, events and errors look to clients.

use vstd::prelude::*;

use crate::api::{
    BackendStatus, CommandAccepted, EventEnvelope, EventName, PlaybackPositionUpdated,
    PlaybackProgress, PlaybackStateChanged, PlaybackTrackChanged, ProblemDetails, QueueUpdated,
    SearchJobCompleted, SearchJobFailed, SearchJobSummary, ServerEvent, StateSnapshot, SystemError,
    YoutubeImportCompleted, YoutubeImportFailed, YoutubeImportJobSummary,
};
use crate::events::EventCursorError;
use crate::models::{
    CommandReceipt, CoreEvent, CoreEventEnvelope, CoreSnapshot, SearchJobRecord,
    YoutubeImportJobRecord,
};
use crate::orchestrator::{CoreError, CoreErrorView};
use crate::youtube::LocalSearchFailure;

verus! {

// ---------------------------------------------------------------------------
// Records
// ---------------------------------------------------------------------------

/// How the status of a search looks to clients.
pub open spec fn api_search_status(
    status: crate::models::SearchJobStatus,
) -> crate::api::SearchJobStatus {
    match status {
        crate::models::SearchJobStatus::Queued => crate::api::SearchJobStatus::Queued,
        crate::models::SearchJobStatus::Running => crate::api::SearchJobStatus::Running,
        crate::models::SearchJobStatus::Completed => crate::api::SearchJobStatus::Completed,
        crate::models::SearchJobStatus::Failed => crate::api::SearchJobStatus::Failed,
    }
}

fn map_search_job_status(status: crate::models::SearchJobStatus) -> (mapped:
    crate::api::SearchJobStatus)
    ensures
        mapped == api_search_status(status),
{
    match status {
        crate::models::SearchJobStatus::Queued => crate::api::SearchJobStatus::Queued,
        crate::models::SearchJobStatus::Running => crate::api::SearchJobStatus::Running,
        crate::models::SearchJobStatus::Completed => crate::api::SearchJobStatus::Completed,
        crate::models::SearchJobStatus::Failed => crate::api::SearchJobStatus::Failed,
    }
}

/// How a search looks to clients.
pub open spec fn api_search_job(job: SearchJobRecord) -> SearchJobSummary {
    SearchJobSummary {
        job_id: job.job_id,
        status: api_search_status(job.status),
        query: job.query,
        created_at: job.created_at,
        completed_at: job.completed_at,
        result_count: job.result_count,
    }
}

/// Computes [`api_search_job`].
pub fn map_search_job_summary(job: SearchJobRecord) -> (summary: SearchJobSummary)
    ensures
        summary == api_search_job(job),
{
    SearchJobSummary {
        job_id: job.job_id,
        status: map_search_job_status(job.status),
        query: job.query,
        created_at: job.created_at,
        completed_at: job.completed_at,
        result_count: job.result_count,
    }
}

/// How the status of an import looks to clients.
pub open spec fn api_import_status(
    status: crate::models::YoutubeImportJobStatus,
) -> crate::api::YoutubeImportJobStatus {
    match status {
        crate::models::YoutubeImportJobStatus::Running => crate::api::YoutubeImportJobStatus::Running,
        crate::models::YoutubeImportJobStatus::Completed =>
            crate::api::YoutubeImportJobStatus::Completed,
        crate::models::YoutubeImportJobStatus::Failed => crate::api::YoutubeImportJobStatus::Failed,
    }
}

fn map_youtube_import_job_status(status: crate::models::YoutubeImportJobStatus) -> (mapped:
    crate::api::YoutubeImportJobStatus)
    ensures
        mapped == api_import_status(status),
{
    match status {
        crate::models::YoutubeImportJobStatus::Running => crate::api::YoutubeImportJobStatus::Running,
        crate::models::YoutubeImportJobStatus::Completed =>
            crate::api::YoutubeImportJobStatus::Completed,
        crate::models::YoutubeImportJobStatus::Failed => crate::api::YoutubeImportJobStatus::Failed,
    }
}

/// How an import looks to clients.
pub open spec fn api_import_job(job: YoutubeImportJobRecord) -> YoutubeImportJobSummary {
    YoutubeImportJobSummary {
        job_id: job.job_id,
        status: api_import_status(job.status),
        url: job.url,
        total_count: job.total_count,
        queued_count: job.queued_count,
        failed_count: job.failed_count,
        created_at: job.created_at,
        completed_at: job.completed_at,
        error_code: job.error_code,
        error_message: job.error_message,
    }
}

/// Computes [`api_import_job`].
pub fn map_youtube_import_job_summary(job: YoutubeImportJobRecord) -> (summary:
    YoutubeImportJobSummary)
    ensures
        summary == api_import_job(job),
{
    YoutubeImportJobSummary {
        job_id: job.job_id,
        status: map_youtube_import_job_status(job.status),
        url: job.url,
        total_count: job.total_count,
        queued_count: job.queued_count,
        failed_count: job.failed_count,
        created_at: job.created_at,
        completed_at: job.completed_at,
        error_code: job.error_code,
        error_message: job.error_message,
    }
}

/// How searches look to clients.
pub open spec fn api_search_jobs(jobs: Seq<SearchJobRecord>) -> Seq<SearchJobSummary> {
    jobs.map_values(|job: SearchJobRecord| api_search_job(job))
}

/// How imports look to clients.
pub open spec fn api_import_jobs(jobs: Seq<YoutubeImportJobRecord>) -> Seq<YoutubeImportJobSummary> {
    jobs.map_values(|job: YoutubeImportJobRecord| api_import_job(job))
}

fn map_search_jobs(jobs: Vec<SearchJobRecord>) -> (summaries: Vec<SearchJobSummary>)
    ensures
        summaries@ == api_search_jobs(jobs@),
{
    let mut summaries: Vec<SearchJobSummary> = Vec::new();
    let mut i: usize = 0;
    while i < jobs.len()
        invariant
            i <= jobs@.len(),
            summaries@ == api_search_jobs(jobs@).take(i as int),
        decreases jobs@.len() - i,
    {
        summaries.push(map_search_job_summary(jobs[i].clone()));
        i += 1;
    }
    summaries
}

fn map_import_jobs(jobs: Vec<YoutubeImportJobRecord>) -> (summaries: Vec<YoutubeImportJobSummary>)
    ensures
        summaries@ == api_import_jobs(jobs@),
{
    let mut summaries: Vec<YoutubeImportJobSummary> = Vec::new();
    let mut i: usize = 0;
    while i < jobs.len()
        invariant
            i <= jobs@.len(),
            summaries@ == api_import_jobs(jobs@).take(i as int),
        decreases jobs@.len() - i,
    {
        summaries.push(map_youtube_import_job_summary(jobs[i].clone()));
        i += 1;
    }
    summaries
}

/// Whether `mapped` is how `snapshot` looks to clients.
pub open spec fn shows_snapshot(mapped: StateSnapshot, snapshot: CoreSnapshot) -> bool {
    &&& mapped.backend == (BackendStatus {
        ready: snapshot.backend.ready,
        version: snapshot.backend.version,
        yt_dlp_version: snapshot.backend.yt_dlp_version,
    })
    &&& mapped.playback == snapshot.playback
    &&& mapped.audio == snapshot.audio
    &&& mapped.current_song == snapshot.current_song
    &&& mapped.queue == snapshot.queue
    &&& mapped.search_jobs@ == api_search_jobs(snapshot.search_jobs@)
    &&& mapped.youtube_import_jobs@ == api_import_jobs(snapshot.youtube_import_jobs@)
    &&& mapped.revision == snapshot.revision
    &&& mapped.snapshot_id == snapshot.snapshot_id
    &&& mapped.timestamp == snapshot.timestamp
}

/// A snapshot as clients see it.
pub fn map_state_snapshot(snapshot: CoreSnapshot) -> (mapped: StateSnapshot)
    ensures
        shows_snapshot(mapped, snapshot),
{
    StateSnapshot {
        backend: BackendStatus {
            ready: snapshot.backend.ready,
            version: snapshot.backend.version,
            yt_dlp_version: snapshot.backend.yt_dlp_version,
        },
        playback: snapshot.playback,
        audio: snapshot.audio,
        current_song: snapshot.current_song,
        queue: snapshot.queue,
        search_jobs: map_search_jobs(snapshot.search_jobs),
        youtube_import_jobs: map_import_jobs(snapshot.youtube_import_jobs),
        revision: snapshot.revision,
        snapshot_id: snapshot.snapshot_id,
        timestamp: snapshot.timestamp,
    }
}

/// The answer to a command with a receipt.
pub open spec fn acceptance(receipt: CommandReceipt) -> (u16, CommandAccepted) {
    (
        202,
        CommandAccepted {
            ok: true,
            command_id: receipt.command_id,
            accepted_at: Some(receipt.accepted_at),
            job_id: receipt.job_id,
            queue_item_id: receipt.queue_item_id,
        },
    )
}

/// The answer to an accepted command, with its HTTP status.
pub fn command_accepted_response(receipt: CommandReceipt) -> (response: (u16, CommandAccepted))
    ensures
        response == acceptance(receipt),
{
    (
        202,
        CommandAccepted {
            ok: true,
            command_id: receipt.command_id,
            accepted_at: Some(receipt.accepted_at),
            job_id: receipt.job_id,
            queue_item_id: receipt.queue_item_id,
        },
    )
}

// ---------------------------------------------------------------------------
// Events
// ---------------------------------------------------------------------------

/// How a severity looks to clients.
pub open spec fn api_severity(
    severity: crate::models::SystemErrorSeverity,
) -> crate::api::SystemErrorSeverity {
    match severity {
        crate::models::SystemErrorSeverity::Warning => crate::api::SystemErrorSeverity::Warning,
        crate::models::SystemErrorSeverity::Error => crate::api::SystemErrorSeverity::Error,
    }
}

fn map_system_error_severity(severity: crate::models::SystemErrorSeverity) -> (mapped:
    crate::api::SystemErrorSeverity)
    ensures
        mapped == api_severity(severity),
{
    match severity {
        crate::models::SystemErrorSeverity::Warning => crate::api::SystemErrorSeverity::Warning,
        crate::models::SystemErrorSeverity::Error => crate::api::SystemErrorSeverity::Error,
    }
}

/// How the reason of a queue update looks to clients.
pub open spec fn api_reason(
    reason: crate::models::QueueUpdateReason,
) -> crate::api::QueueUpdateReason {
    match reason {
        crate::models::QueueUpdateReason::Add => crate::api::QueueUpdateReason::Add,
        crate::models::QueueUpdateReason::Remove => crate::api::QueueUpdateReason::Remove,
        crate::models::QueueUpdateReason::Move => crate::api::QueueUpdateReason::Move,
        crate::models::QueueUpdateReason::Clear => crate::api::QueueUpdateReason::Clear,
        crate::models::QueueUpdateReason::CurrentChanged =>
            crate::api::QueueUpdateReason::CurrentChanged,
    }
}

fn map_queue_update_reason(reason: crate::models::QueueUpdateReason) -> (mapped:
    crate::api::QueueUpdateReason)
    ensures
        mapped == api_reason(reason),
{
    match reason {
        crate::models::QueueUpdateReason::Add => crate::api::QueueUpdateReason::Add,
        crate::models::QueueUpdateReason::Remove => crate::api::QueueUpdateReason::Remove,
        crate::models::QueueUpdateReason::Move => crate::api::QueueUpdateReason::Move,
        crate::models::QueueUpdateReason::Clear => crate::api::QueueUpdateReason::Clear,
        crate::models::QueueUpdateReason::CurrentChanged =>
            crate::api::QueueUpdateReason::CurrentChanged,
    }
}

/// Whether `payload` is how `event` looks to clients.
pub open spec fn shows_event(payload: ServerEvent, event: CoreEvent) -> bool {
    match event {
        CoreEvent::StateUpdated(update) => payload matches ServerEvent::StateUpdated(mapped)
            && shows_snapshot(mapped, update.snapshot),
        CoreEvent::PlaybackProgress(progress) => payload == ServerEvent::PlaybackProgress(
            PlaybackProgress {
                playback_session_id: progress.playback_session_id,
                position_ms: progress.position_ms,
            },
        ),
        CoreEvent::PlaybackStateChanged(change) => payload == ServerEvent::PlaybackStateChanged(
            PlaybackStateChanged {
                state: change.state,
                current_queue_item_id: change.current_queue_item_id,
                position_ms: change.position_ms,
            },
        ),
        CoreEvent::PlaybackTrackChanged(change) => payload == ServerEvent::PlaybackTrackChanged(
            PlaybackTrackChanged { queue_item_id: change.queue_item_id, song: change.song },
        ),
        CoreEvent::PlaybackPositionUpdated(update) => payload
            == ServerEvent::PlaybackPositionUpdated(
            PlaybackPositionUpdated { position_ms: update.position_ms },
        ),
        CoreEvent::QueueUpdated(update) => payload == ServerEvent::QueueUpdated(
            QueueUpdated { reason: api_reason(update.reason), items: update.items },
        ),
        CoreEvent::SearchJobStarted(job) => payload == ServerEvent::SearchJobStarted(
            api_search_job(job),
        ),
        CoreEvent::SearchJobCompleted(done) => payload == ServerEvent::SearchJobCompleted(
            SearchJobCompleted { job: api_search_job(done.job), results: done.results },
        ),
        CoreEvent::SearchJobFailed(failed) => payload == ServerEvent::SearchJobFailed(
            SearchJobFailed { job_id: failed.job_id, code: failed.code, message: failed.message },
        ),
        CoreEvent::YoutubeImportStarted(job) => payload == ServerEvent::YoutubeImportStarted(
            api_import_job(job),
        ),
        CoreEvent::YoutubeImportCompleted(done) => payload == ServerEvent::YoutubeImportCompleted(
            YoutubeImportCompleted { job: api_import_job(done.job) },
        ),
        CoreEvent::YoutubeImportFailed(failed) => payload == ServerEvent::YoutubeImportFailed(
            YoutubeImportFailed {
                job_id: failed.job_id,
                code: failed.code,
                message: failed.message,
            },
        ),
        CoreEvent::SystemError(error) => payload == ServerEvent::SystemError(
            SystemError {
                code: error.code,
                message: error.message,
                severity: api_severity(error.severity),
                context: None,
            },
        ),
    }
}

/// An event as clients see it, with its name.
pub fn map_server_event(core: CoreEvent) -> (mapped: (EventName, ServerEvent))
    ensures
        shows_event(mapped.1, core),
        mapped.0 == mapped.1.event_name(),
        mapped.0.spec_name() == core@.kind().spec_name(),
{
    match core {
        CoreEvent::StateUpdated(event) => (
            EventName::StateUpdated,
            ServerEvent::StateUpdated(map_state_snapshot(event.snapshot)),
        ),
        CoreEvent::PlaybackProgress(event) => (
            EventName::PlaybackProgress,
            ServerEvent::PlaybackProgress(
                PlaybackProgress {
                    playback_session_id: event.playback_session_id,
                    position_ms: event.position_ms,
                },
            ),
        ),
        CoreEvent::PlaybackStateChanged(event) => (
            EventName::PlaybackStateChanged,
            ServerEvent::PlaybackStateChanged(
                PlaybackStateChanged {
                    state: event.state,
                    current_queue_item_id: event.current_queue_item_id,
                    position_ms: event.position_ms,
                },
            ),
        ),
        CoreEvent::PlaybackTrackChanged(event) => (
            EventName::PlaybackTrackChanged,
            ServerEvent::PlaybackTrackChanged(
                PlaybackTrackChanged { queue_item_id: event.queue_item_id, song: event.song },
            ),
        ),
        CoreEvent::PlaybackPositionUpdated(event) => (
            EventName::PlaybackPositionUpdated,
            ServerEvent::PlaybackPositionUpdated(
                PlaybackPositionUpdated { position_ms: event.position_ms },
            ),
        ),
        CoreEvent::QueueUpdated(event) => (
            EventName::QueueUpdated,
            ServerEvent::QueueUpdated(
                QueueUpdated { reason: map_queue_update_reason(event.reason), items: event.items },
            ),
        ),
        CoreEvent::SearchJobStarted(job) => (
            EventName::SearchJobStarted,
            ServerEvent::SearchJobStarted(map_search_job_summary(job)),
        ),
        CoreEvent::SearchJobCompleted(event) => (
            EventName::SearchJobCompleted,
            ServerEvent::SearchJobCompleted(
                SearchJobCompleted {
                    job: map_search_job_summary(event.job),
                    results: event.results,
                },
            ),
        ),
        CoreEvent::SearchJobFailed(event) => (
            EventName::SearchJobFailed,
            ServerEvent::SearchJobFailed(
                SearchJobFailed { job_id: event.job_id, code: event.code, message: event.message },
            ),
        ),
        CoreEvent::YoutubeImportStarted(job) => (
            EventName::YoutubeImportStarted,
            ServerEvent::YoutubeImportStarted(map_youtube_import_job_summary(job)),
        ),
        CoreEvent::YoutubeImportCompleted(event) => (
            EventName::YoutubeImportCompleted,
            ServerEvent::YoutubeImportCompleted(
                YoutubeImportCompleted { job: map_youtube_import_job_summary(event.job) },
            ),
        ),
        CoreEvent::YoutubeImportFailed(event) => (
            EventName::YoutubeImportFailed,
            ServerEvent::YoutubeImportFailed(
                YoutubeImportFailed {
                    job_id: event.job_id,
                    code: event.code,
                    message: event.message,
                },
            ),
        ),
        CoreEvent::SystemError(event) => (
            EventName::SystemError,
            ServerEvent::SystemError(
                SystemError {
                    code: event.code,
                    message: event.message,
                    severity: map_system_error_severity(event.severity),
                    context: None,
                },
            ),
        ),
    }
}

/// An event envelope as clients see it. Its name is that of its payload.
pub fn map_event_envelope(core: CoreEventEnvelope<CoreEvent>) -> (envelope: EventEnvelope<
    ServerEvent,
>)
    ensures
        envelope.event_id == core.event_id,
        envelope.timestamp == core.timestamp,
        envelope.event@ == core.data@.kind().spec_name(),
        shows_event(envelope.data, core.data),
{
    let (event_name, server_event) = map_server_event(core.data);
    EventEnvelope::new(core.event_id, event_name, core.timestamp, server_event)
}

// ---------------------------------------------------------------------------
// Problems
// ---------------------------------------------------------------------------

/// The contents of a problem without field errors.
pub struct ProblemView {
    pub kind: Seq<char>,
    pub title: Seq<char>,
    pub status: u16,
    pub detail: Seq<char>,
    pub instance: Seq<char>,
}

/// Whether a response is the given problem under its status.
pub open spec fn is_problem(response: (u16, ProblemDetails), problem: ProblemView) -> bool {
    &&& response.0 == problem.status
    &&& response.1.kind@ == problem.kind
    &&& response.1.title@ == problem.title
    &&& response.1.status == problem.status
    &&& response.1.detail@ == problem.detail
    &&& crate::text::opt_is(response.1.instance, problem.instance)
    &&& response.1.errors@.len() == 0
}

/// The address of a kind of problem.
pub open spec fn problem_kind(name: Seq<char>) -> Seq<char> {
    "https://nocturne.local/problems/"@ + name
}

fn problem(kind: &str, title: &str, status: u16, detail: &str, instance: &str) -> (response: (
    u16,
    ProblemDetails,
))
    ensures
        is_problem(
            response,
            (ProblemView {
                kind: problem_kind(kind@),
                title: title@,
                status,
                detail: detail@,
                instance: instance@,
            }),
        ),
{
    let mut address = "https://nocturne.local/problems/".to_owned();
    address.append(kind);
    (
        status,
        ProblemDetails {
            kind: address,
            title: title.to_owned(),
            status,
            detail: detail.to_owned(),
            instance: Some(instance.to_owned()),
            errors: Vec::new(),
        },
    )
}

/// The problem that a refused import request is answered with.
pub open spec fn import_problem(
    failure: crate::youtube::FailureView,
    instance: Seq<char>,
) -> ProblemView {
    ProblemView {
        kind: problem_kind(failure.code),
        title: "request validation failed"@,
        status: 422,
        detail: failure.message,
        instance,
    }
}

/// Answers a refused import request.
pub fn map_youtube_import_request_error(error: LocalSearchFailure, instance: &str) -> (response: (
    u16,
    ProblemDetails,
))
    ensures
        is_problem(response, import_problem(error@, instance@)),
{
    problem(
        error.code.as_str(),
        "request validation failed",
        422,
        error.message.as_str(),
        instance,
    )
}

/// The problem that an error of a cursor is answered with.
pub open spec fn cursor_problem(error: EventCursorError) -> ProblemView {
    ProblemView {
        kind: problem_kind("event-cursor-not-found"@),
        title: "event cursor no longer available"@,
        status: 409,
        detail:
            "The requested Last-Event-ID is no longer present in the replay buffer. Refresh state and reconnect to the event stream."@,
        instance: crate::api::EVENTS_PATH@,
    }
}

/// Answers an unknown event cursor.
pub fn map_cursor_error(error: EventCursorError) -> (response: (u16, ProblemDetails))
    ensures
        is_problem(response, cursor_problem(error)),
{
    match error {
        EventCursorError::CursorNotFound => problem(
            "event-cursor-not-found",
            "event cursor no longer available",
            409,
            "The requested Last-Event-ID is no longer present in the replay buffer. Refresh state and reconnect to the event stream.",
            crate::api::EVENTS_PATH,
        ),
    }
}

/// The problem that an error of the core is answered with.
pub open spec fn core_problem(error: CoreErrorView, instance: Seq<char>) -> ProblemView {
    match error {
        CoreErrorView::Validation { code, message } => ProblemView {
            kind: problem_kind(code),
            title: "request validation failed"@,
            status: 422,
            detail: message,
            instance,
        },
        CoreErrorView::NotFound { kind, id } => ProblemView {
            kind: problem_kind(kind + "-not-found"@),
            title: kind + " not found"@,
            status: 404,
            detail: kind + " '"@ + id + "' was not found."@,
            instance,
        },
        CoreErrorView::Conflict { code, message } => ProblemView {
            kind: problem_kind(code),
            title: "request conflict"@,
            status: 409,
            detail: message,
            instance,
        },
        CoreErrorView::Port { code, message } => ProblemView {
            kind: problem_kind(code),
            title: "backend dependency failure"@,
            status: 502,
            detail: message,
            instance,
        },
    }
}

/// Answers an error of the core.
pub fn map_core_error(error: CoreError, instance: &str) -> (response: (u16, ProblemDetails))
    ensures
        is_problem(response, core_problem(error@, instance@)),
{
    match error {
        CoreError::Validation { code, message } => problem(
            code,
            "request validation failed",
            422,
            message.as_str(),
            instance,
        ),
        CoreError::NotFound { kind, id } => {
            let mut name = kind.to_owned();
            name.append("-not-found");
            let mut title = kind.to_owned();
            title.append(" not found");
            let mut detail = kind.to_owned();
            detail.append(" '");
            detail.append(id.as_str());
            detail.append("' was not found.");
            problem(name.as_str(), title.as_str(), 404, detail.as_str(), instance)
        },
        CoreError::Conflict { code, message } => problem(
            code,
            "request conflict",
            409,
            message.as_str(),
            instance,
        ),
        CoreError::Port { code, message } => problem(
            code.as_str(),
            "backend dependency failure",
            502,
            message.as_str(),
            instance,
        ),
    }
}

/// Why the body of a request could not be read.
#[derive(Debug, Clone, Copy, PartialEq, Eq, Structural)]
pub enum BodyRejection {
    SyntaxError,
    DataError,
    MissingContentType,
    BytesRejected,
    Other,
}

/// The problem that an unreadable body is answered with.
pub open spec fn body_problem(
    rejection: BodyRejection,
    detail: Seq<char>,
    instance: Seq<char>,
) -> ProblemView {
    let (name, title, status) = match rejection {
        BodyRejection::SyntaxError => (
            "malformed-json"@,
            "malformed json request body"@,
            400u16,
        ),
        BodyRejection::DataError => (
            "request-validation"@,
            "request validation failed"@,
            422u16,
        ),
        BodyRejection::MissingContentType => (
            "unsupported-media-type"@,
            "unsupported media type"@,
            415u16,
        ),
        BodyRejection::BytesRejected => (
            "request-body-read-failed"@,
            "request body could not be read"@,
            400u16,
        ),
        BodyRejection::Other => (
            "invalid-json-request"@,
            "invalid json request body"@,
            400u16,
        ),
    };
    ProblemView { kind: problem_kind(name), title, status, detail, instance }
}

/// Answers a request whose body could not be read; `detail` is the text of the rejection.
pub fn map_json_rejection(rejection: BodyRejection, detail: &str, instance: &str) -> (response: (
    u16,
    ProblemDetails,
))
    ensures
        is_problem(response, body_problem(rejection, detail@, instance@)),
{
    match rejection {
        BodyRejection::SyntaxError => problem(
            "malformed-json",
            "malformed json request body",
            400,
            detail,
            instance,
        ),
        BodyRejection::DataError => problem(
            "request-validation",
            "request validation failed",
            422,
            detail,
            instance,
        ),
        BodyRejection::MissingContentType => problem(
            "unsupported-media-type",
            "unsupported media type",
            415,
            detail,
            instance,
        ),
        BodyRejection::BytesRejected => problem(
            "request-body-read-failed",
            "request body could not be read",
            400,
            detail,
            instance,
        ),
        BodyRejection::Other => problem(
            "invalid-json-request",
            "invalid json request body",
            400,
            detail,
            instance,
        ),
    }
}

/// The problem that a request for results that are not there is answered with.
pub open spec fn missing_results(job_id: Seq<char>) -> ProblemView {
    ProblemView {
        kind: problem_kind("search-results-not-found"@),
        title: "search results not found"@,
        status: 404,
        detail: "No completed search results were found for job '"@ + job_id + "'."@,
        instance: "/api/v1/search/results/"@ + job_id,
    }
}

/// Answers a request for results that are not there.
pub fn search_results_not_found(job_id: &str) -> (response: (u16, ProblemDetails))
    ensures
        is_problem(response, missing_results(job_id@)),
{
    let mut detail = "No completed search results were found for job '".to_owned();
    detail.append(job_id);
    detail.append("'.");
    let mut instance = "/api/v1/search/results/".to_owned();
    instance.append(job_id);
    problem(
        "search-results-not-found",
        "search results not found",
        404,
        detail.as_str(),
        instance.as_str(),
    )
}

/// The status of a problem tells whose the fault is: only a port's failure is
/// answered as a failure of the backend.
pub proof fn only_port_failures_blame_the_backend(error: CoreErrorView, instance: Seq<char>)
    ensures
        400 <= core_problem(error, instance).status,
        core_problem(error, instance).status >= 500 <==> error is Port,
{
}

} // verus!
