//! Laws of the server: which command a request stands for, what it is answered,
//! and how the records and events of the core look to clients.

use vstd::prelude::*;

use crate::api::{
    CommandAccepted, EventName, ProblemDetails, SearchResultsResponse, ServerEvent, StateSnapshot,
};
use crate::core_state::CoreStateView;
use crate::domain::PlaybackStatus;
use crate::events::EventCursorError;
use crate::mapping::BodyRejection;
use crate::models::{
    BackendState, CommandReceipt, CoreEvent, CoreSnapshot, SearchJobRecord, YoutubeImportJobRecord,
};
use crate::orchestrator::{CoreError, CoreErrorView};
use crate::ports::PortStep;
use crate::server::{CommandReply, ServerCommand};

verus! {

// ---------------------------------------------------------------------------
// Requests
// ---------------------------------------------------------------------------

/// Each request is taken at a path that says what it is.
pub proof fn each_request_has_its_path(command: ServerCommand)
    ensures
        command is Search ==> command.spec_path() == "/api/v1/commands/search"@,
        command is QueueAdd ==> command.spec_path() == "/api/v1/commands/queue/add"@,
        command is QueueRemove ==> command.spec_path() == "/api/v1/commands/queue/remove"@,
        command is QueueMove ==> command.spec_path() == "/api/v1/commands/queue/move"@,
        command is QueueClear ==> command.spec_path() == "/api/v1/commands/queue/clear"@,
        command is Play ==> command.spec_path() == "/api/v1/commands/playback/play"@,
        command is Pause ==> command.spec_path() == "/api/v1/commands/playback/pause"@,
        command is PlayPause ==> command.spec_path() == "/api/v1/commands/playback/play-pause"@,
        command is Stop ==> command.spec_path() == "/api/v1/commands/playback/stop"@,
        command is Next ==> command.spec_path() == "/api/v1/commands/playback/next"@,
        command is Previous ==> command.spec_path() == "/api/v1/commands/playback/previous"@,
        command is RestartCurrent ==> command.spec_path() == "/api/v1/commands/playback/restart_current"@,
        command is Seek ==> command.spec_path() == "/api/v1/commands/playback/seek"@,
        command is SetVolume ==> command.spec_path() == "/api/v1/commands/playback/volume"@,
{
}

/// A request makes the player do what it is called, with what it carries: no
/// other value reaches the player.
pub proof fn a_request_reaches_the_player(
    command: ServerCommand,
    before: CoreStateView,
    steps: Seq<PortStep>,
    after: CoreStateView,
    reply: CommandReply,
    taken: int,
    result: Result<CommandReceipt, CoreError>,
)
    requires
        crate::server::serves(command, before, steps, after, reply, taken, result),
    ensures
        ({
            let calls = steps.take(taken);
            let playing = before.playback.state == PlaybackStatus::Playing;
            &&& command matches ServerCommand::Search { query } ==> crate::orchestrator::submits(
                before,
                query@,
                calls,
                after,
                result,
            )
            &&& command matches ServerCommand::QueueAdd { song_id }
                ==> crate::orchestrator::enqueues_found(before, song_id@, calls, after, result)
            &&& command matches ServerCommand::QueueRemove { queue_item_id }
                ==> crate::orchestrator::removes(before, queue_item_id@, calls, after, result)
            &&& command matches ServerCommand::QueueMove { queue_item_id, to_index }
                ==> crate::orchestrator::moves(
                before,
                queue_item_id@,
                to_index,
                calls,
                after,
                result,
            )
            &&& command is QueueClear ==> crate::orchestrator::clears(before, calls, after, result)
            &&& command is Play || (command is PlayPause && !playing)
                ==> crate::orchestrator::plays(before, calls, after, result)
            &&& command is Pause || (command is PlayPause && playing)
                ==> crate::orchestrator::pauses(before, calls, after, result)
            &&& command is Stop ==> crate::orchestrator::stops(before, calls, after, result)
            &&& command is Next ==> crate::orchestrator::goes_on(before, calls, after, result)
            &&& command is Previous ==> crate::orchestrator::goes_back(
                before,
                calls,
                after,
                result,
            )
            &&& command is RestartCurrent ==> crate::orchestrator::seeks(
                before,
                0,
                calls,
                after,
                result,
            )
            &&& command matches ServerCommand::Seek { position_ms } ==> crate::orchestrator::seeks(
                before,
                position_ms,
                calls,
                after,
                result,
            )
            &&& command matches ServerCommand::SetVolume { volume_percent }
                ==> crate::orchestrator::sets_volume(before, volume_percent, calls, after, result)
        }),
{
}

/// To restart the current item asks the player for its beginning, and the item,
/// its session and whether it plays stay.
pub proof fn a_restart_goes_to_the_beginning(
    before: CoreStateView,
    steps: Seq<PortStep>,
    after: CoreStateView,
    reply: CommandReply,
    taken: int,
    result: Result<CommandReceipt, CoreError>,
)
    requires
        before.playback.current_queue_item_id is Some,
        crate::server::serves(
            ServerCommand::RestartCurrent,
            before,
            steps,
            after,
            reply,
            taken,
            result,
        ),
    ensures
        steps[0] matches PortStep::Playback { call, .. } && call
            == (crate::ports::PlaybackCall::Seek { position_ms: 0 }),
        result is Ok ==> after.playback.position_ms == 0,
        after.playback.state == before.playback.state,
        after.playback.current_queue_item_id == before.playback.current_queue_item_id,
        after.playback.playback_session_id == before.playback.playback_session_id,
{
    let calls = steps.take(taken);
    crate::playback_laws::a_seek_goes_to_the_position(before, 0, calls, after, result);
}

/// A request that is accepted is answered with its receipt; a refused one is told
/// at which path it was refused, under the code of the error and with its message.
pub proof fn an_answer_says_what_became_of_the_request(
    answer: Result<(u16, CommandAccepted), (u16, ProblemDetails)>,
    path: Seq<char>,
    result: Result<CommandReceipt, CoreError>,
)
    requires
        crate::server::answers_command(answer, path, result),
    ensures
        answer is Ok <==> result is Ok,
        result matches Ok(receipt) ==> {
            &&& answer matches Ok((status, accepted))
            &&& status == 202
            &&& accepted.ok
            &&& accepted.command_id == receipt.command_id
            &&& accepted.accepted_at == Some(receipt.accepted_at)
            &&& accepted.job_id == receipt.job_id
            &&& accepted.queue_item_id == receipt.queue_item_id
        },
        result matches Err(error) ==> {
            &&& answer matches Err((status, problem))
            &&& problem.status == status
            &&& problem.instance matches Some(instance)
            &&& instance@ == path
            &&& error@ is Validation <==> status == 422
            &&& error@ is NotFound <==> status == 404
            &&& error@ is Conflict <==> status == 409
            &&& error@ is Port <==> status == 502
            &&& error@ matches CoreErrorView::Validation { code, message } ==> problem.detail@
                == message && ends_with(problem.kind@, code)
            &&& error@ matches CoreErrorView::Conflict { code, message } ==> problem.detail@
                == message && ends_with(problem.kind@, code)
            &&& error@ matches CoreErrorView::Port { code, message } ==> problem.detail@ == message
                && ends_with(problem.kind@, code)
            &&& error@ matches CoreErrorView::NotFound { kind, id } ==> ends_with(
                problem.kind@,
                kind + "-not-found"@,
            ) && crate::text::occurs_in(problem.detail@, id)
        },
{
    if let Err(error) = result {
        let problem = answer->Err_0.1;
        match error@ {
            CoreErrorView::Validation { code, .. } => {
                lemma_tail("https://nocturne.local/problems/"@, code);
            },
            CoreErrorView::Conflict { code, .. } => {
                lemma_tail("https://nocturne.local/problems/"@, code);
            },
            CoreErrorView::Port { code, .. } => {
                lemma_tail("https://nocturne.local/problems/"@, code);
            },
            CoreErrorView::NotFound { kind, id } => {
                lemma_tail("https://nocturne.local/problems/"@, kind + "-not-found"@);
                crate::text_laws::parts_occur(kind + " '"@, id, "' was not found."@);
            },
        }
    }
}

/// Whether a text ends with another.
pub open spec fn ends_with(s: Seq<char>, tail: Seq<char>) -> bool {
    tail.len() <= s.len() && s.skip(s.len() - tail.len()) == tail
}

proof fn lemma_tail(head: Seq<char>, tail: Seq<char>)
    ensures
        ends_with(head + tail, tail),
{
    assert((head + tail).skip(head.len() as int) =~= tail);
}

/// Where a port fails, everybody hears of it if the request was one of playback,
/// and nobody but its sender else.
pub proof fn failed_playback_concerns_everybody(
    command: ServerCommand,
    before: CoreStateView,
    steps: Seq<PortStep>,
    after: CoreStateView,
    reply: CommandReply,
    taken: int,
    result: Result<CommandReceipt, CoreError>,
)
    requires
        crate::server::serves(command, before, steps, after, reply, taken, result),
    ensures
        ({
            let of_the_queue = command is Search || command is QueueAdd || command is QueueRemove
                || command is QueueMove || command is QueueClear;
            &&& reply.told is Some <==> (result matches Err(CoreError::Port { .. }))
                && !of_the_queue
            &&& result matches Err(CoreError::Port { code, .. }) ==> (!of_the_queue
                ==> crate::worker_laws::tells_of(
                steps,
                code@,
                crate::workers::playback_failure_text(code@),
            ))
        }),
{
    if reply.told is Some {
        let error = result->Err_0;
        assert(steps.skip(taken).skip(0) =~= steps.skip(taken));
        let told = steps.skip(taken);
        crate::worker_laws::only_errors_of_ports_are_told(error, told, reply.told->0);
        assert(told.last() == steps.last());
    }
}

/// The results of a search are those that were put on record for it, with the
/// search itself. Without a search of that id, or results of it, there is nothing
/// to be found.
pub proof fn results_are_those_of_the_search(
    state: CoreStateView,
    k: int,
    response: Result<SearchResultsResponse, (u16, ProblemDetails)>,
)
    requires
        0 <= k < state.search_jobs.len(),
        forall|j: int|
            0 <= j < k ==> (#[trigger] state.search_jobs[j]).job_id@
                != state.search_jobs[k].job_id@,
        crate::server::gives_results(state, state.search_jobs[k].job_id@, response),
    ensures
        ({
            let job = state.search_jobs[k];
            let known = state.search_results.contains_key(job.job_id@);
            &&& known ==> (response matches Ok(found) && found.results@
                == state.search_results[job.job_id@]@ && found.job.job_id == job.job_id
                && found.job.query == job.query)
            &&& !known ==> (response matches Err((status, problem)) && status == 404
                && crate::text::occurs_in(problem.detail@, job.job_id@))
        }),
{
    let id = state.search_jobs[k].job_id@;
    crate::core_state::lemma_job_index_is(state.search_jobs, id, k);
    crate::text_laws::parts_occur(
        "No completed search results were found for job '"@,
        id,
        "'."@,
    );
}

/// A URL that can be imported goes on in its canonical form; one that cannot is
/// the sender's fault, and the sender is told why.
pub proof fn an_import_request_is_checked(
    canonical: Result<Seq<char>, crate::youtube::FailureView>,
    checked: Result<String, (u16, ProblemDetails)>,
)
    requires
        crate::server::checks_import(canonical, checked),
    ensures
        checked is Ok <==> canonical is Ok,
        canonical matches Ok(url) ==> (checked matches Ok(found) && found@ == url),
        canonical matches Err(failure) ==> {
            &&& checked matches Err((status, problem))
            &&& status == 422
            &&& problem.detail@ == failure.message
            &&& ends_with(problem.kind@, failure.code)
            &&& crate::text::opt_is(problem.instance, "/api/v1/commands/import/youtube"@)
        },
{
    if let Err(failure) = canonical {
        lemma_tail("https://nocturne.local/problems/"@, failure.code);
    }
}

/// A backend that answers is up; it is ready, and has the versions, as it says.
pub proof fn health_is_that_of_the_backend(backend: BackendState)
    ensures
        crate::server::health_of(backend).ok,
        crate::server::health_of(backend).ready == backend.ready,
        crate::server::health_of(backend).version == backend.version,
        crate::server::health_of(backend).yt_dlp_version == backend.yt_dlp_version,
{
}

/// A subscriber whose event is no longer on record is told to read the state anew:
/// under the kind of problem that the client of this crate looks for.
pub proof fn an_old_cursor_is_a_conflict(error: EventCursorError)
    ensures
        crate::mapping::cursor_problem(error).status == 409,
        crate::mapping::cursor_problem(error).kind
            == crate::tui_client::EVENT_CURSOR_NOT_FOUND_TYPE@,
        crate::mapping::cursor_problem(error).instance == crate::api::EVENTS_PATH@,
{
    let kind = crate::mapping::cursor_problem(error).kind;
    reveal_strlit("https://nocturne.local/problems/");
    reveal_strlit("event-cursor-not-found");
    reveal_strlit("https://nocturne.local/problems/event-cursor-not-found");
    assert(kind =~= crate::tui_client::EVENT_CURSOR_NOT_FOUND_TYPE@);
}

/// A body that cannot be read is the sender's fault, and the status says in which
/// way; the detail is handed on.
pub proof fn an_unreadable_body_is_the_senders_fault(
    rejection: BodyRejection,
    detail: Seq<char>,
    instance: Seq<char>,
)
    ensures
        ({
            let problem = crate::mapping::body_problem(rejection, detail, instance);
            &&& problem.detail == detail
            &&& problem.instance == instance
            &&& rejection is DataError <==> problem.status == 422
            &&& rejection is MissingContentType <==> problem.status == 415
            &&& rejection is SyntaxError || rejection is BytesRejected || rejection is Other
                <==> problem.status == 400
        }),
{
}

// ---------------------------------------------------------------------------
// Records and events
// ---------------------------------------------------------------------------

/// A search looks to clients as it is on record.
pub proof fn a_search_looks_as_it_is(job: SearchJobRecord)
    ensures
        ({
            let shown = crate::mapping::api_search_job(job);
            &&& shown.job_id == job.job_id
            &&& shown.query == job.query
            &&& shown.created_at == job.created_at
            &&& shown.completed_at == job.completed_at
            &&& shown.result_count == job.result_count
            &&& shown.status is Queued <==> job.status is Queued
            &&& shown.status is Running <==> job.status is Running
            &&& shown.status is Completed <==> job.status is Completed
            &&& shown.status is Failed <==> job.status is Failed
        }),
{
}

/// An import looks to clients as it is on record.
pub proof fn an_import_looks_as_it_is(job: YoutubeImportJobRecord)
    ensures
        ({
            let shown = crate::mapping::api_import_job(job);
            &&& shown.job_id == job.job_id
            &&& shown.url == job.url
            &&& shown.total_count == job.total_count
            &&& shown.queued_count == job.queued_count
            &&& shown.failed_count == job.failed_count
            &&& shown.created_at == job.created_at
            &&& shown.completed_at == job.completed_at
            &&& shown.error_code == job.error_code
            &&& shown.error_message == job.error_message
            &&& shown.status is Running <==> job.status is Running
            &&& shown.status is Completed <==> job.status is Completed
            &&& shown.status is Failed <==> job.status is Failed
        }),
{
}

/// A snapshot shows clients the whole state, with every search and every import in
/// its place.
pub proof fn a_snapshot_shows_everything(mapped: StateSnapshot, snapshot: CoreSnapshot)
    requires
        crate::mapping::shows_snapshot(mapped, snapshot),
    ensures
        mapped.playback == snapshot.playback,
        mapped.audio == snapshot.audio,
        mapped.queue == snapshot.queue,
        mapped.current_song == snapshot.current_song,
        mapped.revision == snapshot.revision,
        mapped.snapshot_id == snapshot.snapshot_id,
        mapped.timestamp == snapshot.timestamp,
        mapped.backend.ready == snapshot.backend.ready,
        mapped.backend.version == snapshot.backend.version,
        mapped.backend.yt_dlp_version == snapshot.backend.yt_dlp_version,
        mapped.search_jobs@.len() == snapshot.search_jobs@.len(),
        forall|i: int|
            0 <= i < snapshot.search_jobs@.len() ==> (#[trigger] mapped.search_jobs@[i]).job_id
                == snapshot.search_jobs@[i].job_id,
        mapped.youtube_import_jobs@.len() == snapshot.youtube_import_jobs@.len(),
        forall|i: int|
            0 <= i < snapshot.youtube_import_jobs@.len() ==> (
            #[trigger] mapped.youtube_import_jobs@[i]).job_id
                == snapshot.youtube_import_jobs@[i].job_id,
{
}

/// An event reaches clients as the kind of event that it is, with what it says.
pub proof fn an_event_says_the_same_to_clients(payload: ServerEvent, event: CoreEvent)
    requires
        crate::mapping::shows_event(payload, event),
    ensures
        event is StateUpdated <==> payload is StateUpdated,
        event matches CoreEvent::PlaybackProgress(core) ==> (
        payload matches ServerEvent::PlaybackProgress(told) && told.playback_session_id
            == core.playback_session_id && told.position_ms == core.position_ms),
        event matches CoreEvent::PlaybackStateChanged(core) ==> (
        payload matches ServerEvent::PlaybackStateChanged(told) && told.state == core.state
            && told.current_queue_item_id == core.current_queue_item_id && told.position_ms
            == core.position_ms),
        event matches CoreEvent::PlaybackTrackChanged(core) ==> (
        payload matches ServerEvent::PlaybackTrackChanged(told) && told.queue_item_id
            == core.queue_item_id && told.song == core.song),
        event matches CoreEvent::PlaybackPositionUpdated(core) ==> (
        payload matches ServerEvent::PlaybackPositionUpdated(told) && told.position_ms
            == core.position_ms),
        event matches CoreEvent::QueueUpdated(core) ==> (
        payload matches ServerEvent::QueueUpdated(told) && told.items == core.items && (
        told.reason is Add <==> core.reason is Add) && (told.reason is Remove
            <==> core.reason is Remove) && (told.reason is Move <==> core.reason is Move) && (
        told.reason is Clear <==> core.reason is Clear)),
        event matches CoreEvent::SearchJobStarted(core) ==> (
        payload matches ServerEvent::SearchJobStarted(told) && told.job_id == core.job_id),
        event matches CoreEvent::SearchJobCompleted(core) ==> (
        payload matches ServerEvent::SearchJobCompleted(told) && told.job.job_id == core.job.job_id
            && told.results == core.results),
        event matches CoreEvent::SearchJobFailed(core) ==> (
        payload matches ServerEvent::SearchJobFailed(told) && told.job_id == core.job_id
            && told.code == core.code && told.message == core.message),
        event matches CoreEvent::YoutubeImportStarted(core) ==> (
        payload matches ServerEvent::YoutubeImportStarted(told) && told.job_id == core.job_id),
        event matches CoreEvent::YoutubeImportCompleted(core) ==> (
        payload matches ServerEvent::YoutubeImportCompleted(told) && told.job.job_id
            == core.job.job_id),
        event matches CoreEvent::YoutubeImportFailed(core) ==> (
        payload matches ServerEvent::YoutubeImportFailed(told) && told.job_id == core.job_id
            && told.code == core.code && told.message == core.message),
        event matches CoreEvent::SystemError(core) ==> (
        payload matches ServerEvent::SystemError(told) && told.code == core.code && told.message
            == core.message && (told.severity is Error <==> core.severity is Error)),
{
}

/// The core and the server call an event by the same name, and the client knows
/// the events that it waits for by theirs.
pub proof fn everybody_calls_an_event_by_its_name(payload: ServerEvent, event: CoreEvent)
    requires
        crate::mapping::shows_event(payload, event),
    ensures
        payload.event_name().spec_name() == event@.kind().spec_name(),
        payload is StateUpdated ==> payload.event_name().spec_name() == "state.updated"@,
        payload is PlaybackProgress ==> payload.event_name().spec_name() == "playback.progress"@,
        payload is QueueUpdated ==> payload.event_name().spec_name() == "queue.updated"@,
        payload is SystemError ==> payload.event_name().spec_name() == "system.error"@,
        EventName::StateUpdated.spec_name()
            == crate::tui_client::KnownEvent::StateUpdated.spec_name(),
        EventName::PlaybackProgress.spec_name()
            == crate::tui_client::KnownEvent::PlaybackProgress.spec_name(),
        EventName::SearchJobStarted.spec_name()
            == crate::tui_client::KnownEvent::SearchJobStarted.spec_name(),
        EventName::SearchJobCompleted.spec_name()
            == crate::tui_client::KnownEvent::SearchJobCompleted.spec_name(),
        EventName::SearchJobFailed.spec_name()
            == crate::tui_client::KnownEvent::SearchJobFailed.spec_name(),
        EventName::SystemError.spec_name()
            == crate::tui_client::KnownEvent::SystemError.spec_name(),
{
}

/// An import is asked for in the canonical form of its URL, and never as it was
/// sent; it is answered at its own path. A URL that is not supported reaches no
/// port at all.
pub proof fn an_import_goes_on_in_its_canonical_form(
    url: Seq<char>,
    before: CoreStateView,
    steps: Seq<PortStep>,
    after: CoreStateView,
    answer: Result<(u16, CommandAccepted), (u16, ProblemDetails)>,
)
    requires
        crate::server::serves_import(url, before, steps, after, answer),
    ensures
        crate::youtube::canonical_url(url) matches Ok(canonical) ==> {
            &&& steps[1] matches PortStep::Import { url: asked, .. }
            &&& asked == canonical
            &&& answer matches Err((_, problem)) ==> crate::text::opt_is(
                problem.instance,
                "/api/v1/commands/import/youtube"@,
            )
        },
        crate::youtube::canonical_url(url) is Err ==> {
            &&& steps.len() == 0
            &&& after == before
            &&& answer matches Err((status, _))
            &&& status == 422
        },
{
}

/// The title of a problem says whose fault it is.
pub proof fn problems_are_called_what_they_are(error: CoreErrorView, instance: Seq<char>)
    ensures
        error is Validation ==> crate::mapping::core_problem(error, instance).title
            == "request validation failed"@,
        error is Conflict ==> crate::mapping::core_problem(error, instance).title
            == "request conflict"@,
        error is Port ==> crate::mapping::core_problem(error, instance).title
            == "backend dependency failure"@,
        error matches CoreErrorView::NotFound { kind, .. } ==> crate::text::has_prefix(
            crate::mapping::core_problem(error, instance).title,
            kind,
        ),
{
    if let CoreErrorView::NotFound { kind, .. } = error {
        crate::text_laws::parts_occur(Seq::empty(), kind, " not found"@);
    }
}

} // verus!
