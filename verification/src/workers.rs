//! What the backend's workers make of a search, an import, an update or an event
//! of the playback worker, and what they tell the user of a failure.

use vstd::prelude::*;

use crate::audio::PlaybackWorkerEvent;
use crate::domain::Song;
use crate::models::{CommandReceipt, SystemErrorSeverity};
use crate::orchestrator::{CoreError, Orchestrator};
use crate::ports::{ClockPort, EventPublisherPort, IdGeneratorPort, PlaybackPort, SearchPort};
use crate::search::YoutubeImportResolution;
use crate::text::str_eq;
use crate::youtube::LocalSearchFailure;

verus! {

// ---------------------------------------------------------------------------
// What the user is told
// ---------------------------------------------------------------------------

/// What the user is told of a failed search.
pub open spec fn search_failure_text(code: Seq<char>) -> Seq<char> {
    if code == "yt_dlp_missing"@ {
        "yt-dlp is not installed for this backend."@
    } else if code == "yt_dlp_spawn_failed"@ {
        "The backend could not start the search provider."@
    } else if code == "yt_dlp_timeout"@ {
        "The search provider timed out."@
    } else if code == "yt_dlp_invalid_json"@ || code == "yt_dlp_invalid_response"@ {
        "The search provider returned unreadable results."@
    } else if code == "yt_dlp_failed"@ {
        "Search provider failed to return results."@
    } else {
        "Search failed on the backend."@
    }
}

/// Computes [`search_failure_text`].
pub fn user_message_for_search_failure(code: &str) -> (message: &'static str)
    ensures
        message@ == search_failure_text(code@),
{
    if str_eq(code, "yt_dlp_missing") {
        "yt-dlp is not installed for this backend."
    } else if str_eq(code, "yt_dlp_spawn_failed") {
        "The backend could not start the search provider."
    } else if str_eq(code, "yt_dlp_timeout") {
        "The search provider timed out."
    } else if str_eq(code, "yt_dlp_invalid_json") || str_eq(code, "yt_dlp_invalid_response") {
        "The search provider returned unreadable results."
    } else if str_eq(code, "yt_dlp_failed") {
        "Search provider failed to return results."
    } else {
        "Search failed on the backend."
    }
}

/// What the user is told of a failed import.
pub open spec fn import_failure_text(code: Seq<char>) -> Seq<char> {
    if code == "youtube_url_invalid"@ {
        "Input is not a valid YouTube URL."@
    } else if code == "youtube_url_unsupported"@ {
        "This YouTube URL format is not supported yet."@
    } else if code == "yt_dlp_missing"@ {
        "yt-dlp is not installed for this backend."@
    } else if code == "yt_dlp_spawn_failed"@ {
        "The backend could not start YouTube URL resolution."@
    } else if code == "yt_dlp_timeout"@ {
        "YouTube URL resolution timed out."@
    } else if code == "yt_dlp_invalid_json"@ || code == "yt_dlp_invalid_response"@ {
        "The backend could not read metadata for this YouTube URL."@
    } else if code == "yt_dlp_failed"@ {
        "The backend failed to resolve this YouTube URL."@
    } else if code == "youtube_import_empty"@ {
        "The backend did not find any playable videos for this YouTube URL."@
    } else {
        "YouTube URL import failed on the backend."@
    }
}

/// Computes [`import_failure_text`].
pub fn user_message_for_youtube_import_failure(code: &str) -> (message: &'static str)
    ensures
        message@ == import_failure_text(code@),
{
    if str_eq(code, "youtube_url_invalid") {
        "Input is not a valid YouTube URL."
    } else if str_eq(code, "youtube_url_unsupported") {
        "This YouTube URL format is not supported yet."
    } else if str_eq(code, "yt_dlp_missing") {
        "yt-dlp is not installed for this backend."
    } else if str_eq(code, "yt_dlp_spawn_failed") {
        "The backend could not start YouTube URL resolution."
    } else if str_eq(code, "yt_dlp_timeout") {
        "YouTube URL resolution timed out."
    } else if str_eq(code, "yt_dlp_invalid_json") || str_eq(code, "yt_dlp_invalid_response") {
        "The backend could not read metadata for this YouTube URL."
    } else if str_eq(code, "yt_dlp_failed") {
        "The backend failed to resolve this YouTube URL."
    } else if str_eq(code, "youtube_import_empty") {
        "The backend did not find any playable videos for this YouTube URL."
    } else {
        "YouTube URL import failed on the backend."
    }
}

/// What the user is told of a failed playback.
pub open spec fn playback_failure_text(code: Seq<char>) -> Seq<char> {
    if code == "yt_dlp_missing"@ {
        "yt-dlp is not installed for this backend."@
    } else if code == "yt_dlp_spawn_failed"@ {
        "The backend could not start yt-dlp for playback."@
    } else if code == "yt_dlp_timeout"@ {
        "The backend timed out while preparing audio playback."@
    } else if code == "audio_output_unavailable"@ {
        "Audio output is unavailable on the backend."@
    } else if code == "audio_source_resolve_failed"@ || code == "playback_stream_open_failed"@
        || code == "playback_decode_failed"@ {
        "The backend could not load audio for playback."@
    } else if code == "playback_seek_failed"@ {
        "The backend could not seek the current playback stream."@
    } else if code == "playback_url_invalid"@ || code == "playback_runtime_failed"@ {
        "The backend could not prepare playback."@
    } else if code == "playback_worker_unavailable"@ {
        "The backend playback worker is unavailable."@
    } else {
        "Playback failed on the backend."@
    }
}

/// Computes [`playback_failure_text`].
pub fn user_message_for_playback_failure(code: &str) -> (message: &'static str)
    ensures
        message@ == playback_failure_text(code@),
{
    if str_eq(code, "yt_dlp_missing") {
        "yt-dlp is not installed for this backend."
    } else if str_eq(code, "yt_dlp_spawn_failed") {
        "The backend could not start yt-dlp for playback."
    } else if str_eq(code, "yt_dlp_timeout") {
        "The backend timed out while preparing audio playback."
    } else if str_eq(code, "audio_output_unavailable") {
        "Audio output is unavailable on the backend."
    } else if str_eq(code, "audio_source_resolve_failed") || str_eq(
        code,
        "playback_stream_open_failed",
    ) || str_eq(code, "playback_decode_failed") {
        "The backend could not load audio for playback."
    } else if str_eq(code, "playback_seek_failed") {
        "The backend could not seek the current playback stream."
    } else if str_eq(code, "playback_url_invalid") || str_eq(code, "playback_runtime_failed") {
        "The backend could not prepare playback."
    } else if str_eq(code, "playback_worker_unavailable") {
        "The backend playback worker is unavailable."
    } else {
        "Playback failed on the backend."
    }
}

/// What the user is told of an interrupted playback.
pub open spec fn interruption_text(code: Seq<char>) -> Seq<char> {
    if code == "audio_output_changed"@ {
        "Audio output changed. Playback stopped, and the next play will use the current default device."@
    } else if code == "audio_output_stream_lost"@ {
        "Playback stopped because the backend lost its audio output stream. Try playing again."@
    } else {
        "Playback stopped because audio output became unavailable on the backend."@
    }
}

/// Computes [`interruption_text`].
pub fn user_message_for_playback_interruption(code: &str) -> (message: &'static str)
    ensures
        message@ == interruption_text(code@),
{
    if str_eq(code, "audio_output_changed") {
        "Audio output changed. Playback stopped, and the next play will use the current default device."
    } else if str_eq(code, "audio_output_stream_lost") {
        "Playback stopped because the backend lost its audio output stream. Try playing again."
    } else {
        "Playback stopped because audio output became unavailable on the backend."
    }
}

/// The code under which an error is reported.
pub open spec fn error_code(error: CoreError) -> Seq<char> {
    match error {
        CoreError::Validation { code, .. } => code@,
        CoreError::Conflict { code, .. } => code@,
        CoreError::Port { code, .. } => code@,
        CoreError::NotFound { kind, .. } => kind@,
    }
}

/// Computes [`error_code`].
pub fn core_error_code(error: &CoreError) -> (code: &str)
    ensures
        code@ == error_code(*error),
{
    match error {
        CoreError::Validation { code, .. } => code,
        CoreError::Conflict { code, .. } => code,
        CoreError::Port { code, .. } => code.as_str(),
        CoreError::NotFound { kind, .. } => kind,
    }
}

/// What the user is told of an import whose songs could not be taken over.
pub open spec fn completion_error_text(error: CoreError) -> Seq<char> {
    match error {
        CoreError::Port { code, .. } => playback_failure_text(code@),
        CoreError::Validation { code, .. } => import_failure_text(code@),
        CoreError::Conflict { code, .. } => import_failure_text(code@),
        CoreError::NotFound { .. } => "YouTube URL import failed on the backend."@,
    }
}

/// Computes [`completion_error_text`].
pub fn user_message_for_youtube_import_completion_error(error: &CoreError) -> (message:
    &'static str)
    ensures
        message@ == completion_error_text(*error),
{
    match error {
        CoreError::Port { code, .. } => user_message_for_playback_failure(code.as_str()),
        CoreError::Validation { code, .. } => user_message_for_youtube_import_failure(code),
        CoreError::Conflict { code, .. } => user_message_for_youtube_import_failure(code),
        CoreError::NotFound { .. } => "YouTube URL import failed on the backend.",
    }
}

/// Whether a failure of the provider concerns the whole backend.
pub open spec fn provider_is_out(code: Seq<char>) -> bool {
    code == "yt_dlp_missing"@ || code == "yt_dlp_spawn_failed"@ || code == "yt_dlp_timeout"@
}

/// Computes [`provider_is_out`].
pub fn is_provider_out(code: &str) -> (r: bool)
    ensures
        r == provider_is_out(code@),
{
    str_eq(code, "yt_dlp_missing") || str_eq(code, "yt_dlp_spawn_failed") || str_eq(
        code,
        "yt_dlp_timeout",
    )
}

/// Whether a failure to play what was imported concerns the whole backend.
pub open spec fn player_is_out(code: Seq<char>) -> bool {
    ||| provider_is_out(code)
    ||| code == "audio_output_unavailable"@
    ||| code == "audio_source_resolve_failed"@
    ||| code == "playback_stream_open_failed"@
    ||| code == "playback_decode_failed"@
    ||| code == "playback_worker_unavailable"@
}

/// Computes [`player_is_out`].
pub fn is_player_out(code: &str) -> (r: bool)
    ensures
        r == player_is_out(code@),
{
    is_provider_out(code) || str_eq(code, "audio_output_unavailable") || str_eq(
        code,
        "audio_source_resolve_failed",
    ) || str_eq(code, "playback_stream_open_failed") || str_eq(code, "playback_decode_failed")
        || str_eq(code, "playback_worker_unavailable")
}

// ---------------------------------------------------------------------------
// Commands
// ---------------------------------------------------------------------------

/// The event that tells subscribers of an error.
pub open spec fn error_event(code: Seq<char>, message: Seq<char>) -> crate::models::CoreEventView {
    crate::models::CoreEventView::SystemError {
        code,
        message,
        severity: SystemErrorSeverity::Error,
    }
}

/// Whether subscribers were told of an error of a port, and of no other.
pub open spec fn tells_of_port(
    error: CoreError,
    steps: Seq<crate::ports::PortStep>,
    result: Result<(), CoreError>,
) -> bool {
    match error {
        CoreError::Port { code, .. } => crate::orchestrator::reports(
            steps,
            seq![error_event(code@, playback_failure_text(code@))],
            crate::orchestrator::failure(result),
        ),
        _ => result is Ok && steps.len() == 0,
    }
}

/// Tells subscribers of a playback command that a port has failed. Other errors
/// are the caller's own and are told to nobody else.
pub fn report_playback_command_error<C, I, E, P, S>(
    orchestrator: &mut Orchestrator<C, I, E, P, S>,
    error: &CoreError,
) -> (result: Result<(), CoreError>) where
    C: ClockPort,
    I: IdGeneratorPort,
    E: EventPublisherPort,
    P: PlaybackPort,
    S: SearchPort,

    ensures
        final(orchestrator).follows(old(orchestrator)),
        final(orchestrator).model() == old(orchestrator).model(),
        tells_of_port(*error, final(orchestrator).since(old(orchestrator)), result),
{
    match error {
        CoreError::Port { code, .. } => orchestrator.emit_system_error(
            code.as_str(),
            user_message_for_playback_failure(code.as_str()),
            SystemErrorSeverity::Error,
        ),
        _ => {
            proof {
                orchestrator.lemma_follows_itself();
            }
            Ok(())
        },
    }
}

// ---------------------------------------------------------------------------
// Searches
// ---------------------------------------------------------------------------

/// What a worker comes back with from a search: the provider's answer, or nothing
/// because the worker itself was lost.
pub enum SearchAnswer {
    Songs(Vec<Song>),
    Failure(LocalSearchFailure),
    WorkerLost { detail: String },
}

/// What became of putting a search on record, and of telling subscribers of the
/// failure where that was due.
pub struct Settlement {
    pub recorded: Result<(), CoreError>,
    pub told: Option<Result<(), CoreError>>,
}

/// Whether a search was settled: the songs are put on record, or the failure,
/// under the words that are meant for the user. Where the provider is out of
/// order subscribers are told so, whether or not the failure could be recorded.
pub open spec fn settles(
    before: crate::core_state::CoreStateView,
    job_id: Seq<char>,
    answer: SearchAnswer,
    steps: Seq<crate::ports::PortStep>,
    after: crate::core_state::CoreStateView,
    settlement: Settlement,
) -> bool {
    match answer {
        SearchAnswer::Songs(songs) => {
            &&& settlement.told is None
            &&& crate::orchestrator::completes(
                before,
                job_id,
                songs,
                steps,
                after,
                settlement.recorded,
            )
        },
        SearchAnswer::WorkerLost { detail } => {
            &&& settlement.told is None
            &&& crate::orchestrator::fails(
                before,
                job_id,
                "search_worker_join_failed"@,
                detail@,
                steps,
                after,
                settlement.recorded,
            )
        },
        SearchAnswer::Failure(failure) => {
            let code = failure.code@;
            let message = search_failure_text(code);
            if provider_is_out(code) {
                exists|n: int|
                    {
                        &&& 0 <= n <= steps.len()
                        &&& #[trigger] crate::orchestrator::fails(
                            before,
                            job_id,
                            code,
                            message,
                            steps.take(n),
                            after,
                            settlement.recorded,
                        )
                        &&& settlement.told matches Some(told)
                        &&& crate::orchestrator::reports(
                            steps.skip(n),
                            seq![error_event(code, message)],
                            crate::orchestrator::failure(told),
                        )
                    }
            } else {
                &&& settlement.told is None
                &&& crate::orchestrator::fails(
                    before,
                    job_id,
                    code,
                    message,
                    steps,
                    after,
                    settlement.recorded,
                )
            }
        },
    }
}

/// Settles a search.
pub fn settle_search<C, I, E, P, S>(
    orchestrator: &mut Orchestrator<C, I, E, P, S>,
    job_id: &str,
    answer: SearchAnswer,
) -> (settlement: Settlement) where
    C: ClockPort,
    I: IdGeneratorPort,
    E: EventPublisherPort,
    P: PlaybackPort,
    S: SearchPort,

    ensures
        final(orchestrator).follows(old(orchestrator)),
        settles(
            old(orchestrator).model(),
            job_id@,
            answer,
            final(orchestrator).since(old(orchestrator)),
            final(orchestrator).model(),
            settlement,
        ),
        old(orchestrator).model().consistent() ==> final(orchestrator).model().consistent(),
{
    let ghost s0 = *orchestrator;
    match answer {
        SearchAnswer::Songs(songs) => {
            let recorded = orchestrator.complete_search(job_id, songs);
            Settlement { recorded, told: None }
        },
        SearchAnswer::WorkerLost { detail } => {
            let recorded = orchestrator.fail_search(
                job_id,
                "search_worker_join_failed",
                detail.as_str(),
            );
            Settlement { recorded, told: None }
        },
        SearchAnswer::Failure(failure) => {
            let code = failure.code.as_str();
            let message = user_message_for_search_failure(code);
            let recorded = orchestrator.fail_search(job_id, code, message);
            if !is_provider_out(code) {
                return Settlement { recorded, told: None };
            }
            let ghost s1 = *orchestrator;
            let told = orchestrator.emit_system_error(code, message, SystemErrorSeverity::Error);
            proof {
                orchestrator.lemma_follows_on(&s1, &s0);
                let steps = orchestrator.since(&s0);
                let n = s1.since(&s0).len() as int;
                assert(steps.take(n) =~= s1.since(&s0));
                assert(steps.skip(n) =~= orchestrator.since(&s1));
                assert(crate::orchestrator::fails(
                    s0.model(),
                    job_id@,
                    code@,
                    message@,
                    steps.take(n),
                    orchestrator.model(),
                    recorded,
                ));
            }
            Settlement { recorded, told: Some(told) }
        },
    }
}

// ---------------------------------------------------------------------------
// Imports
// ---------------------------------------------------------------------------

/// What a worker comes back with from an import.
pub enum ImportAnswer {
    Resolved(YoutubeImportResolution),
    Failure(LocalSearchFailure),
    WorkerLost { detail: String },
}

/// What an import has failed with, under the words that are meant for the user;
/// where `announced`, subscribers are told so.
#[derive(Debug)]
pub struct ImportFailure {
    pub code: String,
    pub message: String,
    pub announced: bool,
}

/// What is done with an import: its songs are taken over, or it has failed.
pub enum ImportStep {
    Complete { songs: Vec<Song>, total_count: u64, failed_count: u64 },
    Fail(ImportFailure),
}

/// Whether `step` is what is done with an import.
pub open spec fn import_leads_to(answer: ImportAnswer, step: ImportStep) -> bool {
    match answer {
        ImportAnswer::Resolved(resolution) => step == (ImportStep::Complete {
            songs: resolution.songs,
            total_count: resolution.total_count,
            failed_count: resolution.failed_count,
        }),
        ImportAnswer::Failure(failure) => {
            &&& step matches ImportStep::Fail(fault)
            &&& fault.code@ == failure.code@
            &&& fault.message@ == import_failure_text(failure.code@)
            &&& fault.announced == provider_is_out(failure.code@)
        },
        ImportAnswer::WorkerLost { detail } => {
            &&& step matches ImportStep::Fail(fault)
            &&& fault.code@ == "youtube_import_worker_join_failed"@
            &&& fault.message@ == detail@
            &&& !fault.announced
        },
    }
}

/// What is done with an import, after a worker came back from it.
pub fn import_step(answer: ImportAnswer) -> (step: ImportStep)
    ensures
        import_leads_to(answer, step),
{
    match answer {
        ImportAnswer::Resolved(resolution) => ImportStep::Complete {
            songs: resolution.songs,
            total_count: resolution.total_count,
            failed_count: resolution.failed_count,
        },
        ImportAnswer::Failure(failure) => {
            let message = user_message_for_youtube_import_failure(failure.code.as_str()).to_owned();
            let announced = is_provider_out(failure.code.as_str());
            ImportStep::Fail(ImportFailure { code: failure.code, message, announced })
        },
        ImportAnswer::WorkerLost { detail } => ImportStep::Fail(
            ImportFailure {
                code: "youtube_import_worker_join_failed".to_owned(),
                message: detail,
                announced: false,
            },
        ),
    }
}

/// What an import has failed with whose songs could not be taken over.
pub fn import_completion_failure(error: &CoreError) -> (failure: ImportFailure)
    ensures
        failure.code@ == error_code(*error),
        failure.message@ == completion_error_text(*error),
        failure.announced == player_is_out(error_code(*error)),
{
    let code = core_error_code(error);
    ImportFailure {
        code: code.to_owned(),
        message: user_message_for_youtube_import_completion_error(error).to_owned(),
        announced: is_player_out(code),
    }
}

/// What became of an import: of completing it, of failing it, and of telling
/// subscribers of a failure of the whole backend, each where it was due.
pub struct ImportSettlement {
    pub completed: Option<Result<(), CoreError>>,
    pub failed: Option<Result<(), CoreError>>,
    pub told: Option<Result<(), CoreError>>,
}

/// Whether an import has failed under a code and a message and subscribers were
/// told so exactly where `announced`, whether or not the failure could be
/// recorded.
pub open spec fn fails_and_tells(
    before: crate::core_state::CoreStateView,
    job_id: Seq<char>,
    code: Seq<char>,
    message: Seq<char>,
    announced: bool,
    steps: Seq<crate::ports::PortStep>,
    after: crate::core_state::CoreStateView,
    settlement: ImportSettlement,
) -> bool {
    &&& settlement.failed is Some
    &&& if announced {
        exists|n: int|
            {
                &&& 0 <= n <= steps.len()
                &&& #[trigger] crate::orchestrator::fails_import(
                    before,
                    job_id,
                    code,
                    message,
                    steps.take(n),
                    after,
                    settlement.failed->0,
                )
                &&& settlement.told matches Some(told)
                &&& crate::orchestrator::reports(
                    steps.skip(n),
                    seq![error_event(code, message)],
                    crate::orchestrator::failure(told),
                )
            }
    } else {
        &&& settlement.told is None
        &&& crate::orchestrator::fails_import(
            before,
            job_id,
            code,
            message,
            steps,
            after,
            settlement.failed->0,
        )
    }
}

/// Whether an import was settled: it is completed with the songs that were found
/// and their counts. Where there are none, or it could not be completed, it has
/// failed, under the words that are meant for the user.
pub open spec fn settles_import(
    before: crate::core_state::CoreStateView,
    job_id: Seq<char>,
    answer: ImportAnswer,
    steps: Seq<crate::ports::PortStep>,
    after: crate::core_state::CoreStateView,
    settlement: ImportSettlement,
) -> bool {
    match answer {
        ImportAnswer::Resolved(resolution) => {
            &&& settlement.completed is Some
            &&& match settlement.completed->0 {
                Ok(_) => {
                    &&& settlement.failed is None
                    &&& settlement.told is None
                    &&& crate::orchestrator::completes_import(
                        before,
                        job_id,
                        resolution.songs@,
                        resolution.total_count,
                        resolution.failed_count,
                        steps,
                        after,
                        Ok(()),
                    )
                },
                Err(error) => exists|n: int, between: crate::core_state::CoreStateView|
                    {
                        &&& 0 <= n <= steps.len()
                        &&& #[trigger] crate::orchestrator::completes_import(
                            before,
                            job_id,
                            resolution.songs@,
                            resolution.total_count,
                            resolution.failed_count,
                            steps.take(n),
                            between,
                            Err(error),
                        )
                        &&& fails_and_tells(
                            between,
                            job_id,
                            error_code(error),
                            completion_error_text(error),
                            player_is_out(error_code(error)),
                            steps.skip(n),
                            after,
                            settlement,
                        )
                    },
            }
        },
        ImportAnswer::Failure(failure) => settlement.completed is None && fails_and_tells(
            before,
            job_id,
            failure.code@,
            import_failure_text(failure.code@),
            provider_is_out(failure.code@),
            steps,
            after,
            settlement,
        ),
        ImportAnswer::WorkerLost { detail } => settlement.completed is None && fails_and_tells(
            before,
            job_id,
            "youtube_import_worker_join_failed"@,
            detail@,
            false,
            steps,
            after,
            settlement,
        ),
    }
}

/// Fails an import.
fn fail_import<C, I, E, P, S>(
    orchestrator: &mut Orchestrator<C, I, E, P, S>,
    job_id: &str,
    failure: ImportFailure,
    completed: Option<Result<(), CoreError>>,
) -> (settlement: ImportSettlement) where
    C: ClockPort,
    I: IdGeneratorPort,
    E: EventPublisherPort,
    P: PlaybackPort,
    S: SearchPort,

    ensures
        final(orchestrator).follows(old(orchestrator)),
        settlement.completed == completed,
        fails_and_tells(
            old(orchestrator).model(),
            job_id@,
            failure.code@,
            failure.message@,
            failure.announced,
            final(orchestrator).since(old(orchestrator)),
            final(orchestrator).model(),
            settlement,
        ),
        old(orchestrator).model().consistent() ==> final(orchestrator).model().consistent(),
{
    let ghost s0 = *orchestrator;
    let code = failure.code.as_str();
    let message = failure.message.as_str();
    let failed = orchestrator.fail_youtube_import(job_id, code, message);
    if !failure.announced {
        return ImportSettlement { completed, failed: Some(failed), told: None };
    }
    let ghost s1 = *orchestrator;
    let told = orchestrator.emit_system_error(code, message, SystemErrorSeverity::Error);
    let settlement = ImportSettlement { completed, failed: Some(failed), told: Some(told) };
    proof {
        orchestrator.lemma_follows_on(&s1, &s0);
        let steps = orchestrator.since(&s0);
        let n = s1.since(&s0).len() as int;
        assert(steps.take(n) =~= s1.since(&s0));
        assert(steps.skip(n) =~= orchestrator.since(&s1));
        assert(crate::orchestrator::fails_import(
            s0.model(),
            job_id@,
            failure.code@,
            failure.message@,
            steps.take(n),
            orchestrator.model(),
            settlement.failed->0,
        ));
    }
    settlement
}

/// Settles an import.
pub fn settle_import<C, I, E, P, S>(
    orchestrator: &mut Orchestrator<C, I, E, P, S>,
    job_id: &str,
    answer: ImportAnswer,
) -> (settlement: ImportSettlement) where
    C: ClockPort,
    I: IdGeneratorPort,
    E: EventPublisherPort,
    P: PlaybackPort,
    S: SearchPort,

    ensures
        final(orchestrator).follows(old(orchestrator)),
        settles_import(
            old(orchestrator).model(),
            job_id@,
            answer,
            final(orchestrator).since(old(orchestrator)),
            final(orchestrator).model(),
            settlement,
        ),
        old(orchestrator).model().consistent() ==> final(orchestrator).model().consistent(),
{
    let ghost s0 = *orchestrator;
    match import_step(answer) {
        ImportStep::Fail(failure) => fail_import(orchestrator, job_id, failure, None),
        ImportStep::Complete { songs, total_count, failed_count } => {
            let completed = orchestrator.complete_youtube_import(
                job_id,
                songs,
                total_count,
                failed_count,
            );
            let ghost s1 = *orchestrator;
            let failure = match &completed {
                Ok(_) => return ImportSettlement {
                    completed: Some(completed),
                    failed: None,
                    told: None,
                },
                Err(error) => import_completion_failure(error),
            };
            let settlement = fail_import(orchestrator, job_id, failure, Some(completed));
            proof {
                orchestrator.lemma_follows_on(&s1, &s0);
                let steps = orchestrator.since(&s0);
                let n = s1.since(&s0).len() as int;
                assert(steps.take(n) =~= s1.since(&s0));
                assert(steps.skip(n) =~= orchestrator.since(&s1));
                assert(crate::orchestrator::completes_import(
                    s0.model(),
                    job_id@,
                    songs@,
                    total_count,
                    failed_count,
                    steps.take(n),
                    s1.model(),
                    completed,
                ));
            }
            settlement
        },
    }
}

/// An import that resolves to no songs has failed, and says so.
pub proof fn an_import_without_songs_fails(
    before: crate::core_state::CoreStateView,
    job_id: Seq<char>,
    answer: ImportAnswer,
    steps: Seq<crate::ports::PortStep>,
    after: crate::core_state::CoreStateView,
    settlement: ImportSettlement,
)
    requires
        crate::core_state::import_index(before.youtube_import_jobs, job_id) is Some,
        answer matches ImportAnswer::Resolved(resolution) && resolution.songs@.len() == 0,
        settles_import(before, job_id, answer, steps, after, settlement),
    ensures
        fails_and_tells(
            before,
            job_id,
            "youtube_import_empty"@,
            import_failure_text("youtube_import_empty"@),
            false,
            steps,
            after,
            settlement,
        ),
{
    let error = settlement.completed->0->Err_0;
    assert(error_code(error) == "youtube_import_empty"@);
    assert(!player_is_out("youtube_import_empty"@)) by {
        reveal_strlit("youtube_import_empty");
        reveal_strlit("yt_dlp_missing");
        reveal_strlit("yt_dlp_spawn_failed");
        reveal_strlit("yt_dlp_timeout");
        reveal_strlit("audio_output_unavailable");
        reveal_strlit("audio_source_resolve_failed");
        reveal_strlit("playback_stream_open_failed");
        reveal_strlit("playback_decode_failed");
        reveal_strlit("playback_worker_unavailable");
    }
    assert(steps.skip(0) =~= steps);
}

/// How long the search worker rests after a round, in milliseconds.
pub open spec fn rest_ms(processed: int) -> u64 {
    if processed == 0 {
        100
    } else {
        10
    }
}

/// Computes [`rest_ms`].
pub fn search_worker_delay(processed: usize) -> (delay_ms: u64)
    ensures
        delay_ms == rest_ms(processed as int),
{
    if processed == 0 {
        100
    } else {
        10
    }
}

// ---------------------------------------------------------------------------
// The playback worker
// ---------------------------------------------------------------------------

/// What became of an event of the playback worker: the answer of the command that
/// it led to, and what became of telling subscribers, each where it was due.
pub struct BridgeOutcome {
    pub stopped: Option<Result<CommandReceipt, CoreError>>,
    pub noted: Option<Result<(), CoreError>>,
    pub told: Option<Result<(), CoreError>>,
}

/// The session that an event belongs to.
pub open spec fn event_session(event: PlaybackWorkerEvent) -> Seq<char> {
    match event {
        PlaybackWorkerEvent::Started { playback_session_id, .. } => playback_session_id@,
        PlaybackWorkerEvent::Progress { playback_session_id, .. } => playback_session_id@,
        PlaybackWorkerEvent::Ended { playback_session_id, .. } => playback_session_id@,
        PlaybackWorkerEvent::StartFailed { playback_session_id, .. } => playback_session_id@,
        PlaybackWorkerEvent::Interrupted { playback_session_id, .. } => playback_session_id@,
    }
}

/// Computes [`event_session`].
pub fn session_of(event: &PlaybackWorkerEvent) -> (session: &str)
    ensures
        session@ == event_session(*event),
{
    match event {
        PlaybackWorkerEvent::Started { playback_session_id, .. } => playback_session_id.as_str(),
        PlaybackWorkerEvent::Progress { playback_session_id, .. } => playback_session_id.as_str(),
        PlaybackWorkerEvent::Ended { playback_session_id, .. } => playback_session_id.as_str(),
        PlaybackWorkerEvent::StartFailed { playback_session_id, .. } => playback_session_id.as_str(),
        PlaybackWorkerEvent::Interrupted { playback_session_id, .. } => playback_session_id.as_str(),
    }
}

/// Whether playback was stopped and subscribers were told why, whatever the
/// player said to the stop.
pub open spec fn stops_and_tells(
    before: crate::core_state::CoreStateView,
    event: crate::models::CoreEventView,
    steps: Seq<crate::ports::PortStep>,
    after: crate::core_state::CoreStateView,
    outcome: BridgeOutcome,
) -> bool {
    exists|n: int|
        {
            &&& 0 <= n <= steps.len()
            &&& outcome.stopped is Some
            &&& outcome.noted is None
            &&& outcome.told is Some
            &&& #[trigger] crate::orchestrator::stops(
                before,
                steps.take(n),
                after,
                outcome.stopped->0,
            )
            &&& crate::orchestrator::reports(
                steps.skip(n),
                seq![event],
                crate::orchestrator::failure(outcome.told->0),
            )
        }
}

/// Whether nothing was done.
pub open spec fn lets_be(
    before: crate::core_state::CoreStateView,
    steps: Seq<crate::ports::PortStep>,
    after: crate::core_state::CoreStateView,
    outcome: BridgeOutcome,
) -> bool {
    &&& steps.len() == 0
    &&& after == before
    &&& outcome.stopped is None
    &&& outcome.noted is None
    &&& outcome.told is None
}

/// Whether the outcome is what became of news: nothing where they were stale.
pub open spec fn notes(outcome: BridgeOutcome, result: Result<bool, CoreError>) -> bool {
    &&& outcome.stopped is None
    &&& outcome.told is None
    &&& match result {
        Ok(true) => outcome.noted == Some(Ok::<(), CoreError>(())),
        Ok(false) => outcome.noted is None,
        Err(error) => outcome.noted == Some(Err::<(), CoreError>(error)),
    }
}

fn noted(result: Result<bool, CoreError>) -> (outcome: BridgeOutcome)
    ensures
        notes(outcome, result),
{
    BridgeOutcome {
        stopped: None,
        noted: match result {
            Ok(true) => Some(Ok(())),
            Ok(false) => None,
            Err(error) => Some(Err(error)),
        },
        told: None,
    }
}

/// Whether an event belongs to the session that plays.
pub open spec fn is_current(
    state: crate::core_state::CoreStateView,
    event: PlaybackWorkerEvent,
) -> bool {
    crate::text::opt_is(state.playback.playback_session_id, event_session(event))
}

/// What an event of the playback worker leads to. An event of any session but the
/// current one is stale and leads to nothing. A start confirms the item that is
/// being loaded; of an item that plays already it is no news. A position is
/// reported unless playback is paused, an end goes on to the next item. A start
/// that failed stops playback, and subscribers are told unless the player refuses
/// the stop; of an interruption they are told in any case.
pub open spec fn bridges(
    before: crate::core_state::CoreStateView,
    event: PlaybackWorkerEvent,
    steps: Seq<crate::ports::PortStep>,
    after: crate::core_state::CoreStateView,
    outcome: BridgeOutcome,
) -> bool {
    if !is_current(before, event) {
        lets_be(before, steps, after, outcome)
    } else {
        match event {
            PlaybackWorkerEvent::Started { playback_session_id, queue_item_id, position_ms } => {
                exists|result: Result<bool, CoreError>|
                    {
                        &&& #[trigger] crate::orchestrator::confirms(
                            before,
                            playback_session_id@,
                            queue_item_id@,
                            position_ms,
                            steps,
                            after,
                            result,
                        )
                        &&& notes(outcome, result)
                    }
            },
            PlaybackWorkerEvent::Progress { playback_session_id, position_ms, paused } => if paused {
                lets_be(before, steps, after, outcome)
            } else {
                exists|result: Result<bool, CoreError>|
                    {
                        &&& #[trigger] crate::orchestrator::progresses(
                            before,
                            playback_session_id@,
                            position_ms,
                            steps,
                            after,
                            result,
                        )
                        &&& notes(outcome, result)
                    }
            },
            PlaybackWorkerEvent::Ended { .. } => {
                &&& outcome.stopped is None
                &&& outcome.told is None
                &&& outcome.noted is Some
                &&& crate::orchestrator::finishes(before, steps, after, outcome.noted->0)
            },
            PlaybackWorkerEvent::StartFailed { code, .. } => if outcome.stopped matches Some(
                Err(_),
            ) {
                &&& outcome.noted is None
                &&& outcome.told is None
                &&& crate::orchestrator::stops(before, steps, after, outcome.stopped->0)
            } else {
                stops_and_tells(
                    before,
                    error_event(code@, playback_failure_text(code@)),
                    steps,
                    after,
                    outcome,
                )
            },
            PlaybackWorkerEvent::Interrupted { code, .. } => stops_and_tells(
                before,
                error_event(code@, interruption_text(code@)),
                steps,
                after,
                outcome,
            ),
        }
    }
}

/// Takes an event of the playback worker over into the player.
pub fn bridge_playback_event<C, I, E, P, S>(
    orchestrator: &mut Orchestrator<C, I, E, P, S>,
    event: &PlaybackWorkerEvent,
) -> (outcome: BridgeOutcome) where
    C: ClockPort,
    I: IdGeneratorPort,
    E: EventPublisherPort,
    P: PlaybackPort,
    S: SearchPort,

    ensures
        final(orchestrator).follows(old(orchestrator)),
        bridges(
            old(orchestrator).model(),
            *event,
            final(orchestrator).since(old(orchestrator)),
            final(orchestrator).model(),
            outcome,
        ),
        old(orchestrator).model().consistent() ==> final(orchestrator).model().consistent(),
{
    let ghost s0 = *orchestrator;
    proof {
        orchestrator.lemma_follows_itself();
    }
    let current = crate::text::opt_eq(
        &orchestrator.state().playback().playback_session_id,
        session_of(event),
    );
    if !current {
        return BridgeOutcome { stopped: None, noted: None, told: None };
    }
    match event {
        PlaybackWorkerEvent::Started { playback_session_id, queue_item_id, position_ms } => {
            let result = orchestrator.confirm_playback_started(
                playback_session_id.as_str(),
                queue_item_id.as_str(),
                *position_ms,
            );
            assert(crate::orchestrator::confirms(
                s0.model(),
                playback_session_id@,
                queue_item_id@,
                *position_ms,
                orchestrator.since(&s0),
                orchestrator.model(),
                result,
            ));
            noted(result)
        },
        PlaybackWorkerEvent::Progress { playback_session_id, position_ms, paused } => {
            if *paused {
                return BridgeOutcome { stopped: None, noted: None, told: None };
            }
            let result = orchestrator.report_playback_progress(
                playback_session_id.as_str(),
                *position_ms,
            );
            assert(crate::orchestrator::progresses(
                s0.model(),
                playback_session_id@,
                *position_ms,
                orchestrator.since(&s0),
                orchestrator.model(),
                result,
            ));
            noted(result)
        },
        PlaybackWorkerEvent::Ended { .. } => {
            let noted = orchestrator.finish_current_track();
            BridgeOutcome { stopped: None, noted: Some(noted), told: None }
        },
        PlaybackWorkerEvent::StartFailed { code, .. } => {
            let stopped = orchestrator.stop();
            if stopped.is_err() {
                return BridgeOutcome { stopped: Some(stopped), noted: None, told: None };
            }
            let ghost s1 = *orchestrator;
            let message = user_message_for_playback_failure(code.as_str());
            let told = orchestrator.emit_system_error(
                code.as_str(),
                message,
                SystemErrorSeverity::Error,
            );
            proof {
                orchestrator.lemma_follows_on(&s1, &s0);
                let steps = orchestrator.since(&s0);
                let n = s1.since(&s0).len() as int;
                assert(steps.take(n) =~= s1.since(&s0));
                assert(steps.skip(n) =~= orchestrator.since(&s1));
                assert(crate::orchestrator::stops(
                    s0.model(),
                    steps.take(n),
                    orchestrator.model(),
                    stopped,
                ));
            }
            BridgeOutcome { stopped: Some(stopped), noted: None, told: Some(told) }
        },
        PlaybackWorkerEvent::Interrupted { code, .. } => {
            let stopped = orchestrator.stop();
            let ghost s1 = *orchestrator;
            let message = user_message_for_playback_interruption(code.as_str());
            let told = orchestrator.emit_system_error(
                code.as_str(),
                message,
                SystemErrorSeverity::Error,
            );
            proof {
                orchestrator.lemma_follows_on(&s1, &s0);
                let steps = orchestrator.since(&s0);
                let n = s1.since(&s0).len() as int;
                assert(steps.take(n) =~= s1.since(&s0));
                assert(steps.skip(n) =~= orchestrator.since(&s1));
                assert(crate::orchestrator::stops(
                    s0.model(),
                    steps.take(n),
                    orchestrator.model(),
                    stopped,
                ));
            }
            BridgeOutcome { stopped: Some(stopped), noted: None, told: Some(told) }
        },
    }
}

/// A stale event changes nothing and is told to nobody.
pub proof fn stale_events_are_ignored(
    before: crate::core_state::CoreStateView,
    event: PlaybackWorkerEvent,
    steps: Seq<crate::ports::PortStep>,
    after: crate::core_state::CoreStateView,
    outcome: BridgeOutcome,
)
    requires
        bridges(before, event, steps, after, outcome),
        !is_current(before, event),
    ensures
        after == before,
        steps.len() == 0,
{
}

/// The item that is being loaded plays once its worker has started it, from the
/// position that was reached.
pub proof fn a_confirmed_start_plays(
    before: crate::core_state::CoreStateView,
    event: PlaybackWorkerEvent,
    steps: Seq<crate::ports::PortStep>,
    after: crate::core_state::CoreStateView,
    outcome: BridgeOutcome,
)
    requires
        before.playback.state == crate::domain::PlaybackStatus::Loading,
        is_current(before, event),
        event matches PlaybackWorkerEvent::Started { queue_item_id, .. } && crate::text::opt_is(
            before.playback.current_queue_item_id,
            queue_item_id@,
        ),
        bridges(before, event, steps, after, outcome),
    ensures
        outcome.noted is Some,
        after.playback == (crate::domain::PlaybackState {
            state: crate::domain::PlaybackStatus::Playing,
            position_ms: event->Started_position_ms,
            ..before.playback
        }),
        before.current_index() matches Some(i) ==> after.queue[i].status
            == crate::domain::QueueItemStatus::Playing,
{
    crate::core_state::lemma_item_index(
        before.queue,
        before.playback.current_queue_item_id->0@,
    );
}

/// An interruption of the current session leaves the player silent wherever the
/// player could be stopped, and no item is lost over it.
pub proof fn an_interruption_silences_the_player(
    before: crate::core_state::CoreStateView,
    event: PlaybackWorkerEvent,
    steps: Seq<crate::ports::PortStep>,
    after: crate::core_state::CoreStateView,
    outcome: BridgeOutcome,
)
    requires
        event is Interrupted,
        is_current(before, event),
        bridges(before, event, steps, after, outcome),
        outcome.stopped matches Some(Ok(_)),
    ensures
        after.playback.state == crate::domain::PlaybackStatus::Stopped,
        after.playback.current_queue_item_id is None,
        after.playback.playback_session_id is None,
        after.queue.len() == before.queue.len(),
{
    crate::core_state::a_stop_silences_the_queue(before);
}

/// A failure that concerns the whole backend is announced for imports exactly as
/// for searches: the import's own list contains the provider's.
pub proof fn provider_failures_are_always_announced(code: Seq<char>)
    ensures
        provider_is_out(code) ==> player_is_out(code),
{
}

} // verus!
