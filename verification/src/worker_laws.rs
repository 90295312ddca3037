//! Laws of the workers: what is put on record of their answers, and what the user
//! and the subscribers are told.

use vstd::prelude::*;

use crate::audio::PlaybackWorkerEvent;
use crate::core_state::CoreStateView;
use crate::domain::{PlaybackStatus, Song};
use crate::models::{CoreEventView, SearchJobStatus, SystemErrorSeverity, YoutubeImportJobStatus};
use crate::orchestrator::CoreError;
use crate::ports::PortStep;
use crate::search::YoutubeImportResolution;
use crate::workers::{BridgeOutcome, ImportAnswer, ImportSettlement, ImportStep};
use crate::workers::{SearchAnswer, Settlement};
use crate::youtube::LocalSearchFailure;

verus! {

// ---------------------------------------------------------------------------
// What the user is told
// ---------------------------------------------------------------------------

/// What the user is told of a failed search says what was wrong with the provider.
pub proof fn each_search_failure_has_its_words(code: Seq<char>)
    ensures
        code == "yt_dlp_missing"@ ==> crate::workers::search_failure_text(code)
            == "yt-dlp is not installed for this backend."@,
        code == "yt_dlp_spawn_failed"@ ==> crate::workers::search_failure_text(code)
            == "The backend could not start the search provider."@,
        code == "yt_dlp_timeout"@ ==> crate::workers::search_failure_text(code)
            == "The search provider timed out."@,
        code == "yt_dlp_invalid_json"@ || code == "yt_dlp_invalid_response"@
            ==> crate::workers::search_failure_text(code)
            == "The search provider returned unreadable results."@,
        code == "yt_dlp_failed"@ ==> crate::workers::search_failure_text(code)
            == "Search provider failed to return results."@,
        code != "yt_dlp_missing"@ && code != "yt_dlp_spawn_failed"@ && code != "yt_dlp_timeout"@
            && code != "yt_dlp_invalid_json"@ && code != "yt_dlp_invalid_response"@
            && code != "yt_dlp_failed"@
            ==> crate::workers::search_failure_text(code)
            == "Search failed on the backend."@,
{
    reveal_strlit("yt_dlp_missing");
    assert("yt_dlp_missing"@.len() == 14);
    reveal_strlit("yt_dlp_spawn_failed");
    assert("yt_dlp_spawn_failed"@.len() == 19);
    reveal_strlit("yt_dlp_timeout");
    assert("yt_dlp_timeout"@.len() == 14);
    reveal_strlit("yt_dlp_invalid_json");
    assert("yt_dlp_invalid_json"@.len() == 19);
    reveal_strlit("yt_dlp_invalid_response");
    assert("yt_dlp_invalid_response"@.len() == 23);
    reveal_strlit("yt_dlp_failed");
    assert("yt_dlp_failed"@.len() == 13);
    assert("yt_dlp_missing"@[7] != "yt_dlp_timeout"@[7]);
    assert("yt_dlp_spawn_failed"@[7] != "yt_dlp_invalid_json"@[7]);
}

/// What the user is told of a failed import says whether the address, the provider or
/// the list was at fault.
pub proof fn each_import_failure_has_its_words(code: Seq<char>)
    ensures
        code == "youtube_url_invalid"@ ==> crate::workers::import_failure_text(code)
            == "Input is not a valid YouTube URL."@,
        code == "youtube_url_unsupported"@ ==> crate::workers::import_failure_text(code)
            == "This YouTube URL format is not supported yet."@,
        code == "yt_dlp_missing"@ ==> crate::workers::import_failure_text(code)
            == "yt-dlp is not installed for this backend."@,
        code == "yt_dlp_spawn_failed"@ ==> crate::workers::import_failure_text(code)
            == "The backend could not start YouTube URL resolution."@,
        code == "yt_dlp_timeout"@ ==> crate::workers::import_failure_text(code)
            == "YouTube URL resolution timed out."@,
        code == "yt_dlp_invalid_json"@ || code == "yt_dlp_invalid_response"@
            ==> crate::workers::import_failure_text(code)
            == "The backend could not read metadata for this YouTube URL."@,
        code == "yt_dlp_failed"@ ==> crate::workers::import_failure_text(code)
            == "The backend failed to resolve this YouTube URL."@,
        code == "youtube_import_empty"@ ==> crate::workers::import_failure_text(code)
            == "The backend did not find any playable videos for this YouTube URL."@,
        code != "youtube_url_invalid"@ && code != "youtube_url_unsupported"@
            && code != "yt_dlp_missing"@ && code != "yt_dlp_spawn_failed"@
            && code != "yt_dlp_timeout"@ && code != "yt_dlp_invalid_json"@
            && code != "yt_dlp_invalid_response"@ && code != "yt_dlp_failed"@
            && code != "youtube_import_empty"@
            ==> crate::workers::import_failure_text(code)
            == "YouTube URL import failed on the backend."@,
{
    reveal_strlit("youtube_url_invalid");
    assert("youtube_url_invalid"@.len() == 19);
    reveal_strlit("youtube_url_unsupported");
    assert("youtube_url_unsupported"@.len() == 23);
    reveal_strlit("yt_dlp_missing");
    assert("yt_dlp_missing"@.len() == 14);
    reveal_strlit("yt_dlp_spawn_failed");
    assert("yt_dlp_spawn_failed"@.len() == 19);
    reveal_strlit("yt_dlp_timeout");
    assert("yt_dlp_timeout"@.len() == 14);
    reveal_strlit("yt_dlp_invalid_json");
    assert("yt_dlp_invalid_json"@.len() == 19);
    reveal_strlit("yt_dlp_invalid_response");
    assert("yt_dlp_invalid_response"@.len() == 23);
    reveal_strlit("yt_dlp_failed");
    assert("yt_dlp_failed"@.len() == 13);
    reveal_strlit("youtube_import_empty");
    assert("youtube_import_empty"@.len() == 20);
    assert("youtube_url_invalid"@[1] != "yt_dlp_spawn_failed"@[1]);
    assert("youtube_url_invalid"@[1] != "yt_dlp_invalid_json"@[1]);
    assert("youtube_url_unsupported"@[1] != "yt_dlp_invalid_response"@[1]);
    assert("yt_dlp_missing"@[7] != "yt_dlp_timeout"@[7]);
    assert("yt_dlp_spawn_failed"@[7] != "yt_dlp_invalid_json"@[7]);
}

/// What the user is told of a failed playback says whether the provider, the output or
/// the stream was at fault.
pub proof fn each_playback_failure_has_its_words(code: Seq<char>)
    ensures
        code == "yt_dlp_missing"@ ==> crate::workers::playback_failure_text(code)
            == "yt-dlp is not installed for this backend."@,
        code == "yt_dlp_spawn_failed"@ ==> crate::workers::playback_failure_text(code)
            == "The backend could not start yt-dlp for playback."@,
        code == "yt_dlp_timeout"@ ==> crate::workers::playback_failure_text(code)
            == "The backend timed out while preparing audio playback."@,
        code == "audio_output_unavailable"@ ==> crate::workers::playback_failure_text(code)
            == "Audio output is unavailable on the backend."@,
        code == "audio_source_resolve_failed"@ || code == "playback_stream_open_failed"@
            || code == "playback_decode_failed"@
            ==> crate::workers::playback_failure_text(code)
            == "The backend could not load audio for playback."@,
        code == "playback_seek_failed"@ ==> crate::workers::playback_failure_text(code)
            == "The backend could not seek the current playback stream."@,
        code == "playback_url_invalid"@ || code == "playback_runtime_failed"@
            ==> crate::workers::playback_failure_text(code)
            == "The backend could not prepare playback."@,
        code == "playback_worker_unavailable"@ ==> crate::workers::playback_failure_text(code)
            == "The backend playback worker is unavailable."@,
        code != "yt_dlp_missing"@ && code != "yt_dlp_spawn_failed"@ && code != "yt_dlp_timeout"@
            && code != "audio_output_unavailable"@ && code != "audio_source_resolve_failed"@
            && code != "playback_stream_open_failed"@ && code != "playback_decode_failed"@
            && code != "playback_seek_failed"@ && code != "playback_url_invalid"@
            && code != "playback_runtime_failed"@ && code != "playback_worker_unavailable"@
            ==> crate::workers::playback_failure_text(code)
            == "Playback failed on the backend."@,
{
    reveal_strlit("yt_dlp_missing");
    assert("yt_dlp_missing"@.len() == 14);
    reveal_strlit("yt_dlp_spawn_failed");
    assert("yt_dlp_spawn_failed"@.len() == 19);
    reveal_strlit("yt_dlp_timeout");
    assert("yt_dlp_timeout"@.len() == 14);
    reveal_strlit("audio_output_unavailable");
    assert("audio_output_unavailable"@.len() == 24);
    reveal_strlit("audio_source_resolve_failed");
    assert("audio_source_resolve_failed"@.len() == 27);
    reveal_strlit("playback_stream_open_failed");
    assert("playback_stream_open_failed"@.len() == 27);
    reveal_strlit("playback_decode_failed");
    assert("playback_decode_failed"@.len() == 22);
    reveal_strlit("playback_seek_failed");
    assert("playback_seek_failed"@.len() == 20);
    reveal_strlit("playback_url_invalid");
    assert("playback_url_invalid"@.len() == 20);
    reveal_strlit("playback_runtime_failed");
    assert("playback_runtime_failed"@.len() == 23);
    reveal_strlit("playback_worker_unavailable");
    assert("playback_worker_unavailable"@.len() == 27);
    assert("yt_dlp_missing"@[7] != "yt_dlp_timeout"@[7]);
    assert("audio_source_resolve_failed"@[0] != "playback_stream_open_failed"@[0]);
    assert("audio_source_resolve_failed"@[0] != "playback_worker_unavailable"@[0]);
    assert("playback_stream_open_failed"@[9] != "playback_worker_unavailable"@[9]);
    assert("playback_seek_failed"@[9] != "playback_url_invalid"@[9]);
}

/// What the user is told of an interruption says what became of the output.
pub proof fn each_interruption_has_its_words(code: Seq<char>)
    ensures
        code == "audio_output_changed"@ ==> crate::workers::interruption_text(code)
            == "Audio output changed. Playback stopped, and the next play will use the current default device."@,
        code == "audio_output_stream_lost"@ ==> crate::workers::interruption_text(code)
            == "Playback stopped because the backend lost its audio output stream. Try playing again."@,
        code != "audio_output_changed"@ && code != "audio_output_stream_lost"@
            ==> crate::workers::interruption_text(code)
            == "Playback stopped because audio output became unavailable on the backend."@,
{
    reveal_strlit("audio_output_changed");
    assert("audio_output_changed"@.len() == 20);
    reveal_strlit("audio_output_stream_lost");
    assert("audio_output_stream_lost"@.len() == 24);
}

/// An error is reported under its own code; something that was not found, under
/// what it was.
pub proof fn errors_are_reported_under_their_codes(error: CoreError)
    ensures
        error matches CoreError::Validation { code, .. } ==> crate::workers::error_code(error)
            == code@,
        error matches CoreError::Conflict { code, .. } ==> crate::workers::error_code(error)
            == code@,
        error matches CoreError::Port { code, .. } ==> crate::workers::error_code(error) == code@,
        error matches CoreError::NotFound { kind, .. } ==> crate::workers::error_code(error)
            == kind@,
        error matches CoreError::Port { code, .. } ==> crate::workers::completion_error_text(error)
            == crate::workers::playback_failure_text(code@),
        error matches CoreError::Validation { code, .. } ==> crate::workers::completion_error_text(
            error,
        ) == crate::workers::import_failure_text(code@),
        error matches CoreError::Conflict { code, .. } ==> crate::workers::completion_error_text(
            error,
        ) == crate::workers::import_failure_text(code@),
{
}

/// Whether the provider cannot be run, or does not answer in time.
pub open spec fn is_provider_trouble(code: Seq<char>) -> bool {
    code == "yt_dlp_missing"@ || code == "yt_dlp_spawn_failed"@ || code == "yt_dlp_timeout"@
}

/// Whether the last of some calls tells subscribers of an error.
pub open spec fn tells_of(steps: Seq<PortStep>, code: Seq<char>, message: Seq<char>) -> bool {
    &&& steps.len() > 0
    &&& steps.last() matches PortStep::Publish { envelope, .. }
    &&& envelope.event@ == "system.error"@
    &&& envelope.data@ == (CoreEventView::SystemError {
        code,
        message,
        severity: SystemErrorSeverity::Error,
    })
}

proof fn lemma_tells(
    steps: Seq<PortStep>,
    n: int,
    code: Seq<char>,
    message: Seq<char>,
    failure: Option<crate::orchestrator::CoreErrorView>,
)
    requires
        0 <= n <= steps.len(),
        crate::orchestrator::reports(
            steps.skip(n),
            seq![crate::workers::error_event(code, message)],
            failure,
        ),
    ensures
        tells_of(steps, code, message),
{
    reveal_with_fuel(crate::orchestrator::reports, 2);
    let told = steps.skip(n);
    assert(told.len() == 3);
    assert(steps.last() == told[2]);
    assert(told.take(3)[2] == told[2]);
}

/// An error of a port is told to subscribers, under its code and in the words for
/// the user; any other error of a command is told to nobody.
pub proof fn only_errors_of_ports_are_told(
    error: CoreError,
    steps: Seq<PortStep>,
    result: Result<(), CoreError>,
)
    requires
        crate::workers::tells_of_port(error, steps, result),
    ensures
        error matches CoreError::Port { code, .. } ==> tells_of(
            steps,
            code@,
            crate::workers::playback_failure_text(code@),
        ),
        !(error is Port) ==> steps.len() == 0 && result is Ok,
{
    if let CoreError::Port { code, .. } = error {
        assert(steps.skip(0) =~= steps);
        lemma_tells(
            steps,
            0,
            code@,
            crate::workers::playback_failure_text(code@),
            crate::orchestrator::failure(result),
        );
    }
}

// ---------------------------------------------------------------------------
// Searches and imports
// ---------------------------------------------------------------------------

/// The songs that a search has found are kept under the search, in their order,
/// and the search has ended well; nobody is told of an error.
pub proof fn found_songs_are_put_on_record(
    before: CoreStateView,
    k: int,
    songs: Vec<Song>,
    steps: Seq<PortStep>,
    after: CoreStateView,
    settlement: Settlement,
)
    requires
        0 <= k < before.search_jobs.len(),
        forall|j: int|
            0 <= j < k ==> (#[trigger] before.search_jobs[j]).job_id@
                != before.search_jobs[k].job_id@,
        crate::workers::settles(
            before,
            before.search_jobs[k].job_id@,
            SearchAnswer::Songs(songs),
            steps,
            after,
            settlement,
        ),
    ensures
        settlement.told is None,
        after.search_jobs[k].status == SearchJobStatus::Completed,
        after.search_results.contains_key(before.search_jobs[k].job_id@),
        after.search_results[before.search_jobs[k].job_id@]@ == songs@,
{
    crate::command_laws::only_the_named_search_is_completed(
        before,
        k,
        songs,
        steps,
        after,
        settlement.recorded,
    );
}

/// A running search whose provider failed has failed. Subscribers are told of an
/// error exactly where the provider cannot be run or does not answer.
pub proof fn a_failed_search_is_put_on_record(
    before: CoreStateView,
    k: int,
    answer: SearchAnswer,
    steps: Seq<PortStep>,
    after: CoreStateView,
    settlement: Settlement,
)
    requires
        0 <= k < before.search_jobs.len(),
        forall|j: int|
            0 <= j < k ==> (#[trigger] before.search_jobs[j]).job_id@
                != before.search_jobs[k].job_id@,
        before.search_jobs[k].status == SearchJobStatus::Running,
        !(answer is Songs),
        crate::workers::settles(
            before,
            before.search_jobs[k].job_id@,
            answer,
            steps,
            after,
            settlement,
        ),
    ensures
        after.search_jobs[k].status == SearchJobStatus::Failed,
        after.search_results == before.search_results,
        steps[3] matches PortStep::Publish { envelope, .. } && match answer {
            SearchAnswer::Failure(failure) => envelope.data@ == (CoreEventView::SearchJobFailed {
                job_id: before.search_jobs[k].job_id@,
                code: failure.code@,
                message: crate::workers::search_failure_text(failure.code@),
            }),
            SearchAnswer::WorkerLost { detail } => envelope.data@ == (
            CoreEventView::SearchJobFailed {
                job_id: before.search_jobs[k].job_id@,
                code: "search_worker_join_failed"@,
                message: detail@,
            }),
            SearchAnswer::Songs(_) => true,
        },
        settlement.told is Some <==> (answer matches SearchAnswer::Failure(failure)
            && is_provider_trouble(failure.code@)),
        answer matches SearchAnswer::Failure(failure) ==> (is_provider_trouble(failure.code@)
            ==> tells_of(
            steps,
            failure.code@,
            crate::workers::search_failure_text(failure.code@),
        )),
{
    let job_id = before.search_jobs[k].job_id@;
    match answer {
        SearchAnswer::Songs(_) => {},
        SearchAnswer::WorkerLost { detail } => {
            crate::command_laws::only_the_named_search_fails(
                before,
                k,
                "search_worker_join_failed"@,
                detail@,
                steps,
                after,
                settlement.recorded,
            );
        },
        SearchAnswer::Failure(failure) => {
            let code = failure.code@;
            let message = crate::workers::search_failure_text(code);
            let n = if is_provider_trouble(code) {
                let n = choose|n: int|
                    {
                        &&& 0 <= n <= steps.len()
                        &&& #[trigger] crate::orchestrator::fails(
                            before,
                            job_id,
                            code,
                            message,
                            steps.take(n),
                            after,
                            settlement.recorded,
                        )
                        &&& settlement.told matches Some(told)
                        &&& crate::orchestrator::reports(
                            steps.skip(n),
                            seq![crate::workers::error_event(code, message)],
                            crate::orchestrator::failure(told),
                        )
                    };
                lemma_tells(
                    steps,
                    n,
                    code,
                    message,
                    crate::orchestrator::failure(settlement.told->0),
                );
                n
            } else {
                assert(steps.take(steps.len() as int) =~= steps);
                steps.len() as int
            };
            crate::command_laws::only_the_named_search_fails(
                before,
                k,
                code,
                message,
                steps.take(n),
                after,
                settlement.recorded,
            );
            crate::core_state::lemma_job_index_is(before.search_jobs, job_id, k);
            lemma_fourth_step(before, job_id, code, message, steps, n, after, settlement.recorded);
        },
    }
}

proof fn lemma_fourth_step(
    before: CoreStateView,
    job_id: Seq<char>,
    code: Seq<char>,
    message: Seq<char>,
    steps: Seq<PortStep>,
    n: int,
    after: CoreStateView,
    result: Result<(), CoreError>,
)
    requires
        0 <= n <= steps.len(),
        crate::orchestrator::fails(before, job_id, code, message, steps.take(n), after, result),
        crate::core_state::job_index(before.search_jobs, job_id) is Some,
        before.search_jobs[crate::core_state::job_index(before.search_jobs, job_id)->0].status
            == SearchJobStatus::Running,
    ensures
        steps.len() >= 4,
        steps[3] == steps.take(n)[3],
{
    reveal_with_fuel(crate::orchestrator::reports, 2);
    let told = steps.take(n).skip(1);
    assert(told.len() >= 3);
}

/// What a worker brings back from an import is taken over as it is: the songs
/// and both counts. A failure keeps its code, and subscribers are told of it
/// exactly where the provider cannot be run or does not answer.
pub proof fn an_answered_import_is_taken_over(answer: ImportAnswer, step: ImportStep)
    requires
        crate::workers::import_leads_to(answer, step),
    ensures
        answer matches ImportAnswer::Resolved(resolution) ==> {
            &&& step matches ImportStep::Complete { songs, total_count, failed_count }
            &&& songs == resolution.songs
            &&& total_count == resolution.total_count
            &&& failed_count == resolution.failed_count
        },
        answer matches ImportAnswer::Failure(failure) ==> {
            &&& step matches ImportStep::Fail(fault)
            &&& fault.code@ == failure.code@
            &&& fault.message@ == crate::workers::import_failure_text(failure.code@)
            &&& fault.announced <==> is_provider_trouble(failure.code@)
        },
        answer matches ImportAnswer::WorkerLost { detail } ==> {
            &&& step matches ImportStep::Fail(fault)
            &&& fault.message@ == detail@
            &&& !fault.announced
        },
{
}

/// Whether an import job is the first with its id.
pub open spec fn is_import_at(state: CoreStateView, k: int) -> bool {
    &&& 0 <= k < state.youtube_import_jobs.len()
    &&& forall|j: int|
        0 <= j < k ==> (#[trigger] state.youtube_import_jobs[j]).job_id@
            != state.youtube_import_jobs[k].job_id@
}

/// An import that fails keeps the queue and the player as they are. It is put on
/// record as failed, with its code and its words, and subscribers are told of an
/// error exactly where that was to be announced.
pub proof fn a_failed_import_is_put_on_record(
    before: CoreStateView,
    k: int,
    code: Seq<char>,
    message: Seq<char>,
    announced: bool,
    steps: Seq<PortStep>,
    after: CoreStateView,
    settlement: ImportSettlement,
)
    requires
        is_import_at(before, k),
        crate::workers::fails_and_tells(
            before,
            before.youtube_import_jobs[k].job_id@,
            code,
            message,
            announced,
            steps,
            after,
            settlement,
        ),
    ensures
        after.queue == before.queue,
        after.playback == before.playback,
        after.youtube_import_jobs.len() == before.youtube_import_jobs.len(),
        after.youtube_import_jobs[k].status == YoutubeImportJobStatus::Failed,
        after.youtube_import_jobs[k].job_id@ == before.youtube_import_jobs[k].job_id@,
        crate::text::opt_is(after.youtube_import_jobs[k].error_code, code),
        crate::text::opt_is(after.youtube_import_jobs[k].error_message, message),
        forall|j: int|
            0 <= j < before.youtube_import_jobs.len() && j != k
                ==> #[trigger] after.youtube_import_jobs[j] == before.youtube_import_jobs[j],
        settlement.told is Some <==> announced,
        announced ==> tells_of(steps, code, message),
{
    let job_id = before.youtube_import_jobs[k].job_id@;
    crate::core_state::lemma_import_index_is(before.youtube_import_jobs, job_id, k);
    if announced {
        let n = choose|n: int|
            {
                &&& 0 <= n <= steps.len()
                &&& #[trigger] crate::orchestrator::fails_import(
                    before,
                    job_id,
                    code,
                    message,
                    steps.take(n),
                    after,
                    settlement.failed->0,
                )
                &&& settlement.told matches Some(told)
                &&& crate::orchestrator::reports(
                    steps.skip(n),
                    seq![crate::workers::error_event(code, message)],
                    crate::orchestrator::failure(told),
                )
            };
        lemma_tells(steps, n, code, message, crate::orchestrator::failure(settlement.told->0));
    }
}

/// Without a search to do the search worker rests for a tenth of a second, and for
/// a hundredth of one else.
pub proof fn an_idle_worker_rests_longer(processed: int)
    requires
        processed > 0,
    ensures
        crate::workers::rest_ms(0) == 100,
        crate::workers::rest_ms(processed) == 10,
{
}

// ---------------------------------------------------------------------------
// The playback worker
// ---------------------------------------------------------------------------

/// Whether an event comes from the session that plays.
pub open spec fn is_of_session(state: CoreStateView, event: PlaybackWorkerEvent) -> bool {
    state.playback.playback_session_id matches Some(session) && match event {
        PlaybackWorkerEvent::Started { playback_session_id, .. } => playback_session_id@
            == session@,
        PlaybackWorkerEvent::Progress { playback_session_id, .. } => playback_session_id@
            == session@,
        PlaybackWorkerEvent::Ended { playback_session_id, .. } => playback_session_id@
            == session@,
        PlaybackWorkerEvent::StartFailed { playback_session_id, .. } => playback_session_id@
            == session@,
        PlaybackWorkerEvent::Interrupted { playback_session_id, .. } => playback_session_id@
            == session@,
    }
}

/// Of a session that does not play any more nothing is heard.
pub proof fn other_sessions_are_not_heard(
    before: CoreStateView,
    event: PlaybackWorkerEvent,
    steps: Seq<PortStep>,
    after: CoreStateView,
    outcome: BridgeOutcome,
)
    requires
        crate::workers::bridges(before, event, steps, after, outcome),
        !is_of_session(before, event),
    ensures
        after == before,
        steps.len() == 0,
        outcome.stopped is None && outcome.noted is None && outcome.told is None,
{
}

/// When the sound of the current item ends, the item behind it is asked for from
/// its beginning and plays where the player takes it; behind the last item the
/// player falls silent.
pub proof fn an_ended_sound_is_followed_by_the_next(
    before: CoreStateView,
    i: int,
    event: PlaybackWorkerEvent,
    steps: Seq<PortStep>,
    after: CoreStateView,
    outcome: BridgeOutcome,
)
    requires
        crate::playback_laws::is_current_at(before, i),
        is_of_session(before, event),
        event is Ended,
        crate::workers::bridges(before, event, steps, after, outcome),
    ensures
        i + 1 < before.queue.len() ==> {
            &&& crate::playback_laws::asks_to_start(steps[1], before.queue[i + 1], 0)
            &&& crate::playback_laws::is_taken(steps[1]) ==> crate::playback_laws::plays_from(
                before,
                after,
                i + 1,
                steps[0]->NewId_id,
                0,
            )
        },
        i + 1 == before.queue.len() && crate::playback_laws::is_taken(steps[0]) ==> {
            &&& after.playback.state == PlaybackStatus::Stopped
            &&& after.playback.current_queue_item_id is None
        },
{
    if i + 1 < before.queue.len() {
        crate::playback_laws::the_next_item_starts_from_its_beginning(
            before,
            i,
            steps,
            after,
            outcome.noted->0,
        );
    } else {
        crate::playback_laws::playback_stops_behind_the_last_item(
            before,
            steps,
            after,
            outcome.noted->0,
        );
    }
}

/// A position is noted as it is reported, unless playback is paused: then it is no
/// news.
pub proof fn a_reported_position_is_noted(
    before: CoreStateView,
    event: PlaybackWorkerEvent,
    steps: Seq<PortStep>,
    after: CoreStateView,
    outcome: BridgeOutcome,
)
    requires
        is_of_session(before, event),
        crate::workers::bridges(before, event, steps, after, outcome),
    ensures
        event matches PlaybackWorkerEvent::Progress { position_ms, paused, .. } ==> {
            &&& paused ==> after == before && steps.len() == 0
            &&& !paused ==> after.playback.position_ms == position_ms && outcome.noted is Some
            &&& after.playback.state == before.playback.state
            &&& after.queue == before.queue
        },
{
}

/// A start that failed and an interruption stop the player, and every item waits
/// or is finished as it was. Subscribers are told of an interruption in any case,
/// and of a failed start where the player could be stopped.
pub proof fn a_lost_sound_stops_the_player(
    before: CoreStateView,
    event: PlaybackWorkerEvent,
    steps: Seq<PortStep>,
    after: CoreStateView,
    outcome: BridgeOutcome,
)
    requires
        is_of_session(before, event),
        event is StartFailed || event is Interrupted,
        crate::workers::bridges(before, event, steps, after, outcome),
    ensures
        outcome.stopped is Some,
        outcome.stopped matches Some(Ok(_)) ==> crate::playback_laws::is_silent(before, after),
        event matches PlaybackWorkerEvent::Interrupted { code, .. } ==> outcome.told is Some
            && tells_of(steps, code@, crate::workers::interruption_text(code@)),
        event matches PlaybackWorkerEvent::StartFailed { code, .. } ==> (if outcome.stopped
            matches Some(Ok(_)) {
            outcome.told is Some && tells_of(
                steps,
                code@,
                crate::workers::playback_failure_text(code@),
            )
        } else {
            outcome.told is None
        }),
{
    if event is StartFailed && (outcome.stopped matches Some(Err(_))) {
    } else {
        let (code, message) = match event {
            PlaybackWorkerEvent::Interrupted { code, .. } => (
                code@,
                crate::workers::interruption_text(code@),
            ),
            PlaybackWorkerEvent::StartFailed { code, .. } => (
                code@,
                crate::workers::playback_failure_text(code@),
            ),
            _ => (Seq::empty(), Seq::empty()),
        };
        let n = choose|n: int|
            {
                &&& 0 <= n <= steps.len()
                &&& outcome.stopped is Some
                &&& outcome.noted is None
                &&& outcome.told is Some
                &&& #[trigger] crate::orchestrator::stops(
                    before,
                    steps.take(n),
                    after,
                    outcome.stopped->0,
                )
                &&& crate::orchestrator::reports(
                    steps.skip(n),
                    seq![crate::workers::error_event(code, message)],
                    crate::orchestrator::failure(outcome.told->0),
                )
            };
        lemma_tells(steps, n, code, message, crate::orchestrator::failure(outcome.told->0));
        crate::playback_laws::a_stop_keeps_every_item(
            before,
            steps.take(n),
            after,
            outcome.stopped->0,
        );
    }
}

/// Whether nothing can be played at all.
pub open spec fn is_player_trouble(code: Seq<char>) -> bool {
    ||| is_provider_trouble(code)
    ||| code == "audio_output_unavailable"@
    ||| code == "audio_source_resolve_failed"@
    ||| code == "playback_stream_open_failed"@
    ||| code == "playback_decode_failed"@
    ||| code == "playback_worker_unavailable"@
}

/// An import that a worker could not resolve has failed under the code that came
/// back and in the words for imports. Subscribers are told of an error exactly
/// where the provider cannot be run or does not answer.
pub proof fn an_unresolved_import_has_failed(
    before: CoreStateView,
    k: int,
    failure: LocalSearchFailure,
    steps: Seq<PortStep>,
    after: CoreStateView,
    settlement: ImportSettlement,
)
    requires
        is_import_at(before, k),
        crate::workers::settles_import(
            before,
            before.youtube_import_jobs[k].job_id@,
            ImportAnswer::Failure(failure),
            steps,
            after,
            settlement,
        ),
    ensures
        settlement.completed is None,
        after.queue == before.queue,
        after.youtube_import_jobs[k].status == YoutubeImportJobStatus::Failed,
        crate::text::opt_is(after.youtube_import_jobs[k].error_code, failure.code@),
        crate::text::opt_is(
            after.youtube_import_jobs[k].error_message,
            crate::workers::import_failure_text(failure.code@),
        ),
        settlement.told is Some <==> is_provider_trouble(failure.code@),
{
    a_failed_import_is_put_on_record(
        before,
        k,
        failure.code@,
        crate::workers::import_failure_text(failure.code@),
        crate::workers::provider_is_out(failure.code@),
        steps,
        after,
        settlement,
    );
}

/// An import that a worker has resolved is completed: its songs come behind the
/// items of the queue, and both counts are put on record as they came.
pub proof fn a_resolved_import_is_completed(
    before: CoreStateView,
    k: int,
    resolution: YoutubeImportResolution,
    steps: Seq<PortStep>,
    after: CoreStateView,
    settlement: ImportSettlement,
)
    requires
        is_import_at(before, k),
        settlement.completed == Some(Ok::<(), CoreError>(())),
        crate::workers::settles_import(
            before,
            before.youtube_import_jobs[k].job_id@,
            ImportAnswer::Resolved(resolution),
            steps,
            after,
            settlement,
        ),
    ensures
        settlement.failed is None && settlement.told is None,
        ({
            let done = after.youtube_import_jobs[k];
            &&& done.status == YoutubeImportJobStatus::Completed
            &&& done.total_count == resolution.total_count
            &&& done.failed_count == resolution.failed_count
            &&& done.queued_count == resolution.songs@.len() as u64
        }),
{
    crate::telling_laws::a_completed_import_is_told(
        before,
        k,
        resolution.songs@,
        resolution.total_count,
        resolution.failed_count,
        steps,
        after,
    );
}

/// An import whose songs could not be taken over has failed as well, under the code
/// of the error. Subscribers are told of an error exactly where nothing can be
/// played at all.
pub proof fn an_import_that_cannot_be_completed_has_failed(
    before: CoreStateView,
    job_id: Seq<char>,
    resolution: YoutubeImportResolution,
    steps: Seq<PortStep>,
    after: CoreStateView,
    settlement: ImportSettlement,
    error: CoreError,
)
    requires
        settlement.completed == Some(Err::<(), CoreError>(error)),
        crate::workers::settles_import(
            before,
            job_id,
            ImportAnswer::Resolved(resolution),
            steps,
            after,
            settlement,
        ),
    ensures
        settlement.failed is Some,
        settlement.told is Some <==> is_player_trouble(crate::workers::error_code(error)),
{
    let (n, between) = choose|n: int, between: CoreStateView|
        {
            &&& 0 <= n <= steps.len()
            &&& #[trigger] crate::orchestrator::completes_import(
                before,
                job_id,
                resolution.songs@,
                resolution.total_count,
                resolution.failed_count,
                steps.take(n),
                between,
                Err(error),
            )
            &&& crate::workers::fails_and_tells(
                between,
                job_id,
                crate::workers::error_code(error),
                crate::workers::completion_error_text(error),
                crate::workers::player_is_out(crate::workers::error_code(error)),
                steps.skip(n),
                after,
                settlement,
            )
        };
    assert(crate::workers::fails_and_tells(
        between,
        job_id,
        crate::workers::error_code(error),
        crate::workers::completion_error_text(error),
        crate::workers::player_is_out(crate::workers::error_code(error)),
        steps.skip(n),
        after,
        settlement,
    ));
}

/// Nothing is said to come of news that were stale; of others it is said how they
/// were taken.
pub proof fn stale_news_come_to_nothing(outcome: BridgeOutcome, result: Result<bool, CoreError>)
    requires
        crate::workers::notes(outcome, result),
    ensures
        outcome.noted is None <==> result == Ok::<bool, CoreError>(false),
        result matches Err(error) ==> outcome.noted == Some(Err::<(), CoreError>(error)),
        outcome.stopped is None && outcome.told is None,
{
}

} // verus!
