//! Laws of what is read from the player and of what reaches the client.

use vstd::prelude::*;

use crate::core_state::CoreStateView;
use crate::domain::{AudioSettings, PlaybackStatus};
use crate::models::{CommandReceipt, CoreSnapshot, SearchResultsRecord, SystemErrorSeverity};
use crate::models::CoreEventView;
use crate::orchestrator::{CoreError, CoreErrorView};
use crate::ports::{IdKind, PortStep};
use crate::settings::StoredAudioSettings;
use crate::tui_app::{AppActionView, AppEvent, AppView, StatusLevel};

verus! {

/// To toggle pauses exactly what plays: what is paused, stopped or being loaded is
/// played.
pub proof fn only_what_plays_is_paused(
    before: CoreStateView,
    steps: Seq<PortStep>,
    after: CoreStateView,
    result: Result<CommandReceipt, CoreError>,
)
    requires
        crate::orchestrator::toggles(before, steps, after, result),
        result is Ok,
    ensures
        before.playback.state == PlaybackStatus::Playing ==> after.playback.state
            == PlaybackStatus::Paused,
        before.playback.state != PlaybackStatus::Playing ==> after.playback.state
            == PlaybackStatus::Playing,
{
}

/// A position that is noted is the new position, and nothing else changes; it is
/// told as it is.
pub proof fn a_noted_position_is_told(
    before: CoreStateView,
    position_ms: u64,
    steps: Seq<PortStep>,
    after: CoreStateView,
    result: Result<(), CoreError>,
)
    requires
        crate::orchestrator::notes_position(before, position_ms, steps, after, result),
    ensures
        after.playback.position_ms == position_ms,
        after.playback.state == before.playback.state,
        after.playback.current_queue_item_id == before.playback.current_queue_item_id,
        after.playback.playback_session_id == before.playback.playback_session_id,
        after.queue == before.queue,
        crate::playback_laws::else_unchanged(before, after),
        steps.len() == 3,
        steps[2] matches PortStep::Publish { envelope, .. } && envelope.data@
            == (CoreEventView::PlaybackPositionUpdated { position_ms }),
{
    reveal_with_fuel(crate::orchestrator::reports, 2);
    assert(steps.take(3)[2] == steps[2]);
}

/// An error is told as it is, with its severity.
pub proof fn an_error_is_told_as_it_is(
    code: Seq<char>,
    message: Seq<char>,
    severity: SystemErrorSeverity,
    steps: Seq<PortStep>,
    result: Result<(), CoreError>,
)
    requires
        crate::orchestrator::tells_error(code, message, severity, steps, result),
    ensures
        steps.len() == 3,
        steps[2] matches PortStep::Publish { envelope, .. } && envelope.event@ == "system.error"@
            && envelope.data@ == (CoreEventView::SystemError { code, message, severity }),
{
    reveal_with_fuel(crate::orchestrator::reports, 2);
    assert(steps.take(3)[2] == steps[2]);
}

/// A snapshot shows the state as it is, under an id and a time of its own.
pub proof fn a_snapshot_shows_the_state(
    state: CoreStateView,
    steps: Seq<PortStep>,
    snapshot: CoreSnapshot,
)
    requires
        crate::orchestrator::takes_snapshot(state, steps, snapshot),
    ensures
        steps.len() == 2,
        steps[0] matches PortStep::NewId { kind, id } && kind == IdKind::Snapshot && id
            == snapshot.snapshot_id,
        steps[1] matches PortStep::ReadClock { now } && now == snapshot.timestamp,
        snapshot.playback == state.playback,
        snapshot.audio == state.audio,
        snapshot.backend == state.backend,
        snapshot.queue@ == state.queue,
        snapshot.search_jobs@ == state.search_jobs,
        snapshot.youtube_import_jobs@ == state.youtube_import_jobs,
        snapshot.revision == 0,
        forall|i: int| #[trigger]
            crate::playback_laws::is_current_at(state, i) ==> snapshot.current_song == Some(
                state.queue[i].song,
            ),
        state.playback.current_queue_item_id is None ==> snapshot.current_song is None,
{
    assert forall|i: int| #[trigger]
        crate::playback_laws::is_current_at(state, i) implies snapshot.current_song == Some(
        state.queue[i].song,
    ) by {
        crate::core_state::lemma_item_index_is(
            state.queue,
            state.playback.current_queue_item_id->0@,
            i,
        );
    }
}

/// Results are found for a search exactly once they were put on record, together
/// with the search that they are of.
pub proof fn results_are_found_once_on_record(
    state: CoreStateView,
    k: int,
    found: Option<SearchResultsRecord>,
)
    requires
        0 <= k < state.search_jobs.len(),
        forall|j: int|
            0 <= j < k ==> (#[trigger] state.search_jobs[j]).job_id@
                != state.search_jobs[k].job_id@,
        crate::orchestrator::finds_results(state, state.search_jobs[k].job_id@, found),
    ensures
        found is Some <==> state.search_results.contains_key(state.search_jobs[k].job_id@),
        found matches Some(record) ==> record.job == state.search_jobs[k] && record.results@
            == state.search_results[state.search_jobs[k].job_id@]@,
{
    crate::core_state::lemma_job_index_is(
        state.search_jobs,
        state.search_jobs[k].job_id@,
        k,
    );
}

/// The line of an error names its code, or what was not found, before what it says.
pub proof fn an_error_line_says_what_is_wrong(error: CoreErrorView)
    ensures
        ({
            let line = crate::orchestrator::error_line(error);
            &&& error matches CoreErrorView::Validation { code, message } ==> crate::text::has_prefix(
                line,
                "validation error ("@ + code,
            ) && crate::server_laws::ends_with(line, message)
            &&& error matches CoreErrorView::Conflict { code, message } ==> crate::text::has_prefix(
                line,
                "conflict ("@ + code,
            ) && crate::server_laws::ends_with(line, message)
            &&& error matches CoreErrorView::Port { code, message } ==> crate::text::has_prefix(
                line,
                "port error ("@ + code,
            ) && crate::server_laws::ends_with(line, message)
            &&& error matches CoreErrorView::NotFound { kind, id } ==> crate::text::has_prefix(
                line,
                kind,
            ) && crate::server_laws::ends_with(line, id)
        }),
{
    match error {
        CoreErrorView::Validation { code, message } => {
            lemma_line("validation error ("@ + code, "): "@, message);
        },
        CoreErrorView::Conflict { code, message } => {
            lemma_line("conflict ("@ + code, "): "@, message);
        },
        CoreErrorView::Port { code, message } => {
            lemma_line("port error ("@ + code, "): "@, message);
        },
        CoreErrorView::NotFound { kind, id } => {
            lemma_line(kind, " not found: "@, id);
        },
    }
}

proof fn lemma_line(head: Seq<char>, middle: Seq<char>, tail: Seq<char>)
    ensures
        crate::text::has_prefix(head + middle + tail, head),
        crate::server_laws::ends_with(head + middle + tail, tail),
{
    let line = head + middle + tail;
    assert(line =~= head + (middle + tail));
    crate::text_laws::parts_occur(Seq::empty(), head, middle + tail);
    assert(line.skip(line.len() - tail.len()) =~= tail);
}

/// Stored settings are taken as they are, as far as they are in range; without any
/// the volume is fifty percent.
pub proof fn stored_settings_are_taken(found: AudioSettings)
    ensures
        crate::settings::loaded_settings(StoredAudioSettings::Missing).volume_percent == 50,
        found.volume_percent <= 100 ==> crate::settings::loaded_settings(
            StoredAudioSettings::Found(found),
        ) == found,
        found.volume_percent > 100 ==> crate::settings::loaded_settings(
            StoredAudioSettings::Found(found),
        ).volume_percent == 100,
{
}

/// The provider is asked for the address of the source itself, and of one video
/// only.
pub proof fn the_url_of_the_source_is_asked_for(source: Seq<char>)
    ensures
        crate::playback_source::asks_for_url(source).last() == source,
        crate::playback_source::asks_for_url(source)[0] == "--get-url"@,
        crate::playback_source::asks_for_url(source).contains("--no-playlist"@),
        crate::playback_source::asks_for_url(source)[1] == "--format"@,
        crate::playback_source::asks_for_url(source)[2]
            == crate::playback_source::YT_DLP_AUDIO_FORMAT@,
{
    assert(crate::playback_source::asks_for_url(source)[3] == "--no-playlist"@);
}

/// Only keys make the client want something done; whatever else happens is taken
/// in. A change of the connection is shown as a warning and changes nothing else.
pub proof fn only_keys_lead_to_actions(
    app: AppView,
    event: AppEvent,
    now_ms: u64,
    after: AppView,
    action: AppActionView,
)
    requires
        app.handles(event, now_ms, after, action),
    ensures
        event matches AppEvent::Input(key) ==> (after, action) == app.keyed(key),
        !(event is Input) ==> action == AppActionView::Nothing,
        event matches AppEvent::Backend(told) ==> after == app.evented(told, now_ms),
        event matches AppEvent::CommandResult(result) ==> after == app.answered(result),
        event matches AppEvent::SearchResults(outcome) ==> after == app.results_applied(outcome),
        event matches AppEvent::Snapshot(seed) ==> after.last_event_id == app.snapshot_applied(
            seed.snapshot,
            crate::text::opt_view(seed.current_event_id),
            now_ms,
        ).last_event_id,
        event matches AppEvent::ConnectionStatus(message) ==> {
            &&& after.status_message == message@
            &&& after.status_level == StatusLevel::Warning
            &&& after.queue == app.queue
            &&& after.playback == app.playback
            &&& after.overlay == app.overlay
            &&& after.input == app.input
        },
{
}

} // verus!
