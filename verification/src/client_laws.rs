//! Laws of the terminal client: what it sends, what it makes of the answers, and
//! what it shows.

use vstd::prelude::*;

use crate::api::{CommandAccepted, ProblemDetails, SearchResultsResponse};
use crate::domain::{PlaybackStatus, QueueItem, QueueItemStatus, Song};
use crate::server::ServerCommand;
use crate::tui_app::{AppView, SearchOverlayState, SearchOverlayView};
use crate::tui_client::{CommandActionView, CommandBody, CommandOutcome, HttpReply};
use crate::tui_client::{ReadyProbe, ReadyStep, SearchResultsOutcome, StreamInput, StreamStep};
use crate::tui_client::TuiError;
use crate::tui_view::{NowPlaying, QueueRow, QueueSummary, ResultRow, SearchBody, SearchPanel};

verus! {

// ---------------------------------------------------------------------------
// Commands
// ---------------------------------------------------------------------------

/// The client sends each command to the path at which the server takes that
/// command, and sends along what the command is about.
pub proof fn the_server_takes_what_the_client_sends(
    action: CommandActionView,
    body: CommandBody,
    command: ServerCommand,
)
    requires
        crate::tui_client::carries(body, action),
    ensures
        action is Search && command is Search || action is AddSong && command is QueueAdd
            || action is PlayPause && command is PlayPause || action is Next && command is Next
            || action is Previous && command is Previous || action is SetVolume && command
            is SetVolume || action is RemoveQueueItem && command is QueueRemove
            ==> crate::tui_client::command_path(action) == command.spec_path(),
        action matches CommandActionView::Search(text) ==> (body matches CommandBody::Search {
            query,
        } && query@ == text),
        action matches CommandActionView::AddSong(id) ==> (body matches CommandBody::Song {
            song_id,
        } && song_id@ == id),
        action matches CommandActionView::SetVolume(percent) ==> (
        body matches CommandBody::Volume { volume_percent } && volume_percent == percent),
        action matches CommandActionView::RemoveQueueItem(id) ==> (
        body matches CommandBody::QueueItem { queue_item_id } && queue_item_id@ == id),
        action is PlayPause || action is Next || action is Previous ==> body is Empty,
{
}

/// A reply gives its payload exactly where it is a success. A refusal is told in
/// the words of the backend; of anything else the user learns the path and the
/// detail.
pub proof fn only_a_success_has_a_payload<T>(
    reply: HttpReply<T>,
    what: Seq<char>,
    path: Seq<char>,
    result: Result<T, String>,
)
    requires
        crate::tui_client::payload_is(reply, what, path, result),
    ensures
        result is Ok <==> reply is Success,
        reply matches HttpReply::Success { payload } ==> result == Ok::<T, String>(payload),
        reply matches HttpReply::Refused { problem } ==> (result matches Err(text) && text@
            == problem.detail@),
        reply matches HttpReply::NotSent { detail } ==> (result matches Err(text)
            && crate::text::occurs_in(text@, path) && crate::server_laws::ends_with(
            text@,
            detail@,
        )),
        reply matches HttpReply::Garbled { detail } ==> (result matches Err(text)
            && crate::text::occurs_in(text@, path) && crate::server_laws::ends_with(
            text@,
            detail@,
        )),
        reply matches HttpReply::GarbledRefusal { detail } ==> (result matches Err(text)
            && crate::text::occurs_in(text@, path) && crate::server_laws::ends_with(
            text@,
            detail@,
        )),
{
    match reply {
        HttpReply::NotSent { detail } => {
            lemma_said("request to "@, path, " failed: "@, detail@);
        },
        HttpReply::Garbled { detail } => {
            lemma_said(what + " response from "@, path, " was invalid: "@, detail@);
        },
        HttpReply::GarbledRefusal { detail } => {
            lemma_said("request to "@, path, " failed with undecodable error: "@, detail@);
        },
        _ => {},
    }
}

proof fn lemma_said(head: Seq<char>, path: Seq<char>, middle: Seq<char>, detail: Seq<char>)
    ensures
        crate::text::occurs_in(head + path + middle + detail, path),
        crate::server_laws::ends_with(head + path + middle + detail, detail),
{
    let all = head + path + middle + detail;
    assert(all =~= head + path + (middle + detail));
    crate::text_laws::parts_occur(head, path, middle + detail);
    assert(all.skip(all.len() - detail.len()) =~= detail);
}

/// An accepted search is known by the id that the backend gave it and by the text
/// that was searched for; without an id it has failed. Every other command that
/// was accepted is confirmed, and none that was not.
pub proof fn accepted_commands_are_confirmed(
    action: CommandActionView,
    reply: HttpReply<CommandAccepted>,
    result: Result<CommandOutcome, String>,
)
    requires
        crate::tui_client::comes_to(action, reply, result),
    ensures
        !(reply is Success) ==> result is Err,
        reply matches HttpReply::Success { payload } ==> {
            &&& action matches CommandActionView::Search(text) ==> {
                &&& payload.job_id is None ==> result is Err
                &&& payload.job_id matches Some(id) ==> (result matches Ok(
                    CommandOutcome::SearchSubmitted { job_id, query },
                ) && job_id == id && query@ == text)
            }
            &&& action is AddSong ==> (result matches Ok(CommandOutcome::SongQueued(_)))
            &&& action is PlayPause || action is Next || action is Previous || action is SetVolume
                || action is RemoveQueueItem ==> (result matches Ok(
                CommandOutcome::StatusMessage(_),
            ))
            &&& action matches CommandActionView::SetVolume(percent) ==> (result matches Ok(
                CommandOutcome::StatusMessage(text),
            ) && crate::text::occurs_in(text@, crate::text::decimal(percent as nat)))
        },
{
    if let CommandActionView::SetVolume(percent) = action {
        crate::text_laws::parts_occur(
            "Volume set to "@,
            crate::text::decimal(percent as nat),
            "%."@,
        );
    }
}

/// The results that the backend gives are taken as they are; a failure is that of
/// the search that was asked for.
pub proof fn results_are_taken_as_they_are(
    job_id: Seq<char>,
    reply: HttpReply<SearchResultsResponse>,
    outcome: SearchResultsOutcome,
)
    requires
        crate::tui_client::results_come_to(job_id, reply, outcome),
    ensures
        outcome is Loaded <==> reply is Success,
        reply matches HttpReply::Success { payload } ==> (
        outcome matches SearchResultsOutcome::Loaded { job, results } && job == payload.job
            && results == payload.results),
        outcome matches SearchResultsOutcome::Failed { job_id: id, .. } ==> id@ == job_id,
        reply matches HttpReply::Refused { problem } ==> (
        outcome matches SearchResultsOutcome::Failed { message, .. } && message@
            == problem.detail@),
{
}

// ---------------------------------------------------------------------------
// The event stream
// ---------------------------------------------------------------------------

/// The stream goes on from the last event that was met: one that is known is
/// handed over, another is passed by, and where the stream ends it ends at the
/// cursor that it had come to.
pub proof fn the_stream_goes_on_from_the_last_event(
    cursor: Option<String>,
    input: StreamInput,
    step: StreamStep,
)
    requires
        crate::tui_client::stream_follows(cursor, input, step),
    ensures
        input matches StreamInput::Event { event_id, decoded } ==> {
            &&& decoded is None ==> (step matches StreamStep::GoOn { cursor: next } && next == Some(
                event_id,
            ))
            &&& decoded matches Some(Ok(_)) ==> (step matches StreamStep::HandOverEvent {
                cursor: next,
            } && next == Some(event_id))
            &&& decoded matches Some(Err(error)) ==> step == (StreamStep::Fail { error })
        },
        input is Ended ==> (step matches StreamStep::Finish { cursor: next } && next == cursor),
        input matches StreamInput::Refreshed { current_event_id } ==> (
        step matches StreamStep::HandOverSnapshot { cursor: next } && next == current_event_id),
        step is Refresh ==> input is Refused,
        step is HandOverSnapshot ==> input is Refreshed,
        step is Finish ==> input is Ended,
        input is BadCursor || input is NotConnected || input is GarbledRefusal || input
            is RefreshFailed || input is Broken || input is GarbledEvent ==> step is Fail,
{
}

/// Only a cursor that is no longer on record has the state read anew: any other
/// refusal fails, in the words of the backend.
pub proof fn only_an_old_cursor_is_replaced(
    cursor: Option<String>,
    status: String,
    problem: ProblemDetails,
    step: StreamStep,
)
    requires
        crate::tui_client::stream_follows(
            cursor,
            StreamInput::Refused { status, problem },
            step,
        ),
    ensures
        step is Refresh <==> problem.kind@ == crate::mapping::cursor_problem(
            crate::events::EventCursorError::CursorNotFound,
        ).kind,
        !(step is Refresh) ==> (step matches StreamStep::Fail { error }
            && crate::server_laws::ends_with(error.spec_message(), problem.detail@)),
{
    crate::server_laws::an_old_cursor_is_a_conflict(
        crate::events::EventCursorError::CursorNotFound,
    );
    if let StreamStep::Fail { error } = step {
        let said = error.spec_message();
        assert(said.skip(said.len() - problem.detail@.len()) =~= problem.detail@);
    }
}

/// After a stream that ended the client goes on where it had come to; after one
/// that failed, where it was before.
pub proof fn nothing_is_missed_over_a_reconnection(
    cursor: Option<String>,
    ended: Result<Option<String>, TuiError>,
    next: (Option<String>, String),
)
    requires
        crate::tui_client::reconnects(cursor, ended, next),
    ensures
        ended matches Ok(reached) ==> next.0 == reached,
        ended matches Err(error) ==> next.0 == cursor && crate::text::occurs_in(
            next.1@,
            error.spec_message(),
        ),
{
    if let Err(error) = ended {
        crate::text_laws::parts_occur(
            "Event stream error: "@,
            error.spec_message(),
            ". Reconnecting..."@,
        );
    }
}

/// The client waits for a backend that says nothing or is not ready, fifty times
/// in all; it goes on only with one that says that it is ready, and gives up at
/// once where the process is gone.
pub proof fn the_client_waits_for_a_ready_backend(
    attempts: u64,
    probe: ReadyProbe,
    step: ReadyStep,
)
    requires
        crate::tui_client::ready_follows(attempts, probe, step),
    ensures
        step is Ready <==> probe == (ReadyProbe::Answered { ready: true }),
        step is Retry <==> attempts < 50 && (probe is Silent || probe == (ReadyProbe::Answered {
            ready: false,
        })),
        probe is Exited || probe is Unknown || probe is Garbled ==> step is Fail,
{
}

/// The errors of the backend are shown for the settings 1, true and inherit, in
/// whatever letters and with whatever white space around, and for no other.
pub proof fn three_settings_show_errors(setting: Seq<char>)
    ensures
        ({
            let value = crate::text::ascii_lower(crate::text::trimmed(setting));
            crate::tui_client::shows_errors(setting) <==> value == "1"@ || value == "true"@
                || value == "inherit"@
        }),
{
}

// ---------------------------------------------------------------------------
// What is shown
// ---------------------------------------------------------------------------

/// A duration is shown as whole minutes and seconds, the seconds with two digits:
/// both together are the seconds of the duration, and what is left over is not
/// shown.
pub proof fn a_duration_is_minutes_and_seconds(duration_ms: u64, minutes: nat, seconds: nat)
    requires
        seconds < 60,
        (minutes * 60 + seconds) * 1000 <= duration_ms < (minutes * 60 + seconds + 1) * 1000,
    ensures
        ({
            let shown = crate::tui_view::minutes_and_seconds(duration_ms);
            let n = shown.len();
            &&& n >= 4
            &&& shown.take(n - 3) == crate::text::decimal(minutes)
            &&& shown[n - 3] == ':'
            &&& shown[n - 2] as int == '0' as int + seconds / 10
            &&& shown[n - 1] as int == '0' as int + seconds % 10
        }),
{
    let shown = crate::tui_view::minutes_and_seconds(duration_ms);
    let whole = duration_ms / 1000;
    assert(whole == minutes * 60 + seconds);
    assert(whole / 60 == minutes && whole % 60 == seconds) by (nonlinear_arith)
        requires
            whole == minutes * 60 + seconds,
            seconds < 60,
    ;
    let head = crate::text::decimal(minutes);
    let written = crate::text::decimal(seconds);
    let tail = crate::text::zero_padded(written, 2);
    crate::text_laws::a_number_is_written_with_its_digits(minutes, 0);
    crate::text_laws::a_number_is_written_with_its_digits(seconds, 2);
    crate::text_laws::a_number_is_written_with_its_digits(seconds / 10, 0);
    reveal_strlit(":");
    assert(shown == head + ":"@ + tail);
    assert(tail.len() == 2);
    if seconds >= 10 {
        let tens = crate::text::decimal(seconds / 10);
        assert(written.drop_last() == tens);
        assert(written.len() == 2);
        assert(tail.skip(0) == written);
        assert(tail[0] == tail.skip(0)[0]);
        assert(tail[1] == tail.skip(0)[1]);
        assert(written[0] == written.drop_last()[0]);
        assert(tens.last() == tens[0]);
    } else {
        assert(tail.skip(1) == written);
        assert(tail[1] == tail.skip(1)[0]);
    }
    assert(shown.take(shown.len() - 3) =~= head);
}

/// A bar takes exactly its columns: brackets at both ends, and between them the
/// played part, as long as it is and as there is room for it, before the open one.
pub proof fn a_bar_shows_how_much_is_played(filled: int, width: int)
    requires
        0 <= filled,
        2 < width,
    ensures
        ({
            let parts = crate::tui_view::bar(filled, width);
            &&& parts.len() == 4
            &&& parts[0] == "["@
            &&& parts[3] == "]"@
            &&& parts[1].len() + parts[2].len() == width - 2
            &&& filled <= width - 2 ==> parts[1].len() == filled
            &&& filled > width - 2 ==> parts[2].len() == 0
            &&& forall|i: int| 0 <= i < parts[1].len() ==> #[trigger] parts[1][i] == '━'
            &&& forall|i: int| 0 <= i < parts[2].len() ==> #[trigger] parts[2][i] == '─'
        }),
{
}

/// A bar without room for anything between its brackets is cut short.
pub proof fn a_short_bar_is_cut(filled: int)
    ensures
        crate::tui_view::bar(filled, 0).len() == 0,
        crate::tui_view::bar(filled, 1) == seq!["["@],
        crate::tui_view::bar(filled, 2) == seq!["[]"@],
{
}

/// The time takes one column more than it has characters, where there are as many.
pub proof fn the_time_has_room(time_label: Seq<char>, available: u16)
    ensures
        time_label.len() < available ==> crate::tui_view::time_columns(time_label, available)
            == time_label.len() + 1,
        time_label.len() >= available ==> crate::tui_view::time_columns(time_label, available)
            == available,
        time_label.len() < 65535 ==> crate::tui_view::columns(time_label) == time_label.len(),
{
}

/// The title and the channel of the current song are shown, the volume, and how
/// far the song is: the shown position before the length of the song.
pub proof fn the_current_song_is_shown(shown: NowPlaying, app: AppView)
    requires
        crate::tui_view::shows_playback(shown, app),
    ensures
        app.current_song matches Some(song) ==> {
            &&& shown.title@ == song.title@
            &&& shown.channel@ == song.channel_name@
            &&& song.duration_ms >= 1 ==> shown.duration_ms == song.duration_ms
        },
        shown.duration_ms >= 1,
        crate::text::has_prefix(
            shown.time_label@,
            crate::tui_view::minutes_and_seconds(app.display_position_ms),
        ),
        crate::server_laws::ends_with(
            shown.time_label@,
            crate::tui_view::minutes_and_seconds(shown.duration_ms),
        ),
        crate::text::occurs_in(
            shown.volume_label@,
            crate::text::decimal(app.audio.volume_percent as nat),
        ),
        app.playback.state == PlaybackStatus::Stopped ==> shown.state_label@ == "Stopped"@,
        app.playback.state == PlaybackStatus::Loading ==> shown.state_label@ == "Loading"@,
        app.playback.state == PlaybackStatus::Playing ==> shown.state_label@ == "Playing"@,
        app.playback.state == PlaybackStatus::Paused ==> shown.state_label@ == "Paused"@,
{
    let position = crate::tui_view::minutes_and_seconds(app.display_position_ms);
    let length = crate::tui_view::minutes_and_seconds(shown.duration_ms);
    let label = shown.time_label@;
    assert(label =~= position + (" / "@ + length));
    crate::text_laws::parts_occur(Seq::empty(), position, " / "@ + length);
    assert(label.skip(label.len() - length.len()) =~= length);
    crate::text_laws::parts_occur(
        "Vol "@,
        crate::text::decimal(app.audio.volume_percent as nat),
        "%"@,
    );
}

/// A row of the queue shows the title of its item, its channel and its length; the
/// current item and one that plays have the same sign, and one that failed has its
/// own.
pub proof fn a_row_shows_its_item(row: QueueRow, item: QueueItem, current: bool)
    requires
        crate::tui_view::shows_item(row, item, current),
    ensures
        row.title@ == item.song.title@,
        crate::text::has_prefix(row.detail@, item.song.channel_name@),
        crate::server_laws::ends_with(
            row.detail@,
            crate::tui_view::minutes_and_seconds(item.song.duration_ms),
        ),
        current || item.status == QueueItemStatus::Playing ==> row.marker@ == "▶"@,
        !current && item.status == QueueItemStatus::Failed ==> row.marker@ == "!"@,
        !current && item.status == QueueItemStatus::Loading ==> row.marker@ == "…"@,
        !current && (item.status == QueueItemStatus::Queued || item.status
            == QueueItemStatus::Finished) ==> row.marker@ == "•"@,
{
    let length = crate::tui_view::minutes_and_seconds(item.song.duration_ms);
    let detail = row.detail@;
    assert(detail =~= item.song.channel_name@ + (" • "@ + length));
    crate::text_laws::parts_occur(Seq::empty(), item.song.channel_name@, " • "@ + length);
    assert(detail.skip(detail.len() - length.len()) =~= length);
}

/// The main view lists the first eight items of the queue in their order, and says
/// how many are left out; an empty queue is said to be empty.
pub proof fn the_first_items_are_listed(summary: QueueSummary, app: AppView)
    requires
        crate::tui_view::shows_queue(summary, app),
    ensures
        app.queue.len() <= 8 ==> summary.rows@.len() == app.queue.len(),
        app.queue.len() > 8 ==> summary.rows@.len() == 8,
        forall|i: int|
            0 <= i < summary.rows@.len() ==> (#[trigger] summary.rows@[i]).title@
                == app.queue[i].song.title@,
        summary.note is None <==> 0 < app.queue.len() <= 8,
        app.queue.len() > 8 ==> (summary.note matches Some(note) && crate::text::occurs_in(
            note@,
            crate::text::decimal((app.queue.len() - 8) as nat),
        )),
{
    if app.queue.len() > 8 {
        crate::text_laws::parts_occur(
            "… and "@,
            crate::text::decimal((app.queue.len() - 8) as nat),
            " more items. Open Queue with Ctrl+Q."@,
        );
    }
}

/// The search on show has its query and every result in its place, and the detail
/// of the selected one alone; a failed one says why.
pub proof fn the_results_are_listed(panel: Option<SearchPanel>, search: SearchOverlayView)
    requires
        crate::tui_view::shows_search(panel, Some(search)),
    ensures
        panel matches Some(shown) && {
            &&& shown.query@ == search.query
            &&& search.state == SearchOverlayState::Results ==> {
                &&& shown.body matches SearchBody::Results { rows, selected }
                &&& selected == search.selected
                &&& rows@.len() == search.results.len()
                &&& forall|i: int|
                    0 <= i < rows@.len() ==> (#[trigger] rows@[i]).title@
                        == search.results[i].title@ && (rows@[i].detail is Some <==> i
                        == search.selected)
            }
            &&& search.state == SearchOverlayState::Error ==> {
                &&& shown.body matches SearchBody::Failure(text)
                &&& search.error_message matches Some(message) ==> text@ == message
            }
            &&& search.state == SearchOverlayState::Loading || search.state
                == SearchOverlayState::Empty ==> shown.body is Notice
        },
        crate::tui_view::shows_search(panel, None) ==> panel is None,
{
}

/// The backend is called ready exactly where it is, beside its version.
pub proof fn the_backend_is_shown_as_it_is(version: String)
    ensures
        crate::text::has_prefix(crate::tui_view::backend_words(true, Some(version)), "ready"@),
        crate::text::has_prefix(
            crate::tui_view::backend_words(false, Some(version)),
            "starting"@,
        ),
        crate::text::occurs_in(crate::tui_view::backend_words(true, Some(version)), version@),
        crate::text::occurs_in(crate::tui_view::backend_words(false, Some(version)), version@),
{
    let up = crate::tui_view::backend_words(true, Some(version));
    let starting = crate::tui_view::backend_words(false, Some(version));
    assert(up =~= "ready"@ + (" ("@ + version@ + ")"@));
    assert(starting =~= "starting"@ + (" ("@ + version@ + ")"@));
    crate::text_laws::parts_occur(Seq::empty(), "ready"@, " ("@ + version@ + ")"@);
    crate::text_laws::parts_occur(Seq::empty(), "starting"@, " ("@ + version@ + ")"@);
    crate::text_laws::parts_occur("ready"@ + " ("@, version@, ")"@);
    crate::text_laws::parts_occur("starting"@ + " ("@, version@, ")"@);
}

/// The line below the query says how the search stands.
pub proof fn the_search_says_how_it_stands(search: SearchOverlayView, panel: SearchPanel)
    requires
        crate::tui_view::shows_search(Some(panel), Some(search)),
    ensures
        search.state == SearchOverlayState::Loading ==> panel.heading@
            == "Looking up candidates on the backend..."@,
        search.state == SearchOverlayState::Results ==> panel.heading@
            == "Choose one song to add to the queue."@,
        search.state == SearchOverlayState::Empty ==> panel.heading@
            == "No matches found for this query."@,
        search.state == SearchOverlayState::Error ==> panel.heading@
            == "Search failed before results became available."@,
        search.state == SearchOverlayState::Loading ==> panel.footer@
            == "Esc or q closes • backend search keeps running"@,
        search.state == SearchOverlayState::Results ==> panel.footer@
            == "↑↓ / j k move • Enter adds to queue • Esc or q closes"@,
        search.state == SearchOverlayState::Empty || search.state == SearchOverlayState::Error
            ==> panel.footer@ == "Enter, Esc, or q closes • query clears on close"@,
{
}

/// The detail of the selected result is its channel and its length.
pub proof fn the_selected_result_has_its_detail(row: ResultRow, song: Song)
    requires
        crate::tui_view::shows_result(row, song, true),
    ensures
        row.title@ == song.title@,
        row.detail matches Some(detail) && crate::text::has_prefix(detail@, song.channel_name@)
            && crate::server_laws::ends_with(
            detail@,
            crate::tui_view::minutes_and_seconds(song.duration_ms),
        ),
{
    let length = crate::tui_view::minutes_and_seconds(song.duration_ms);
    let detail = row.detail->0@;
    assert(crate::text::opt_view(row.detail) is Some);
    assert(detail =~= song.channel_name@ + (" • "@ + length));
    crate::text_laws::parts_occur(Seq::empty(), song.channel_name@, " • "@ + length);
    assert(detail.skip(detail.len() - length.len()) =~= length);
}

/// Every accepted command is confirmed in words of its own.
pub proof fn confirmations_name_the_command(
    action: CommandActionView,
    accepted: CommandAccepted,
    result: Result<CommandOutcome, String>,
)
    requires
        crate::tui_client::outcome_is(result, action, accepted),
    ensures
        action is AddSong ==> (result matches Ok(CommandOutcome::SongQueued(text)) && text@
            == "Added selection to queue."@),
        action is PlayPause ==> (result matches Ok(CommandOutcome::StatusMessage(text)) && text@
            == "Playback toggle accepted."@),
        action is Next ==> (result matches Ok(CommandOutcome::StatusMessage(text)) && text@
            == "Skip to next track accepted."@),
        action is Previous ==> (result matches Ok(CommandOutcome::StatusMessage(text)) && text@
            == "Restart current track accepted."@),
        action is RemoveQueueItem ==> (result matches Ok(CommandOutcome::StatusMessage(text))
            && text@ == "Queue removal accepted."@),
        action is SetVolume ==> (result matches Ok(CommandOutcome::StatusMessage(text))
            && crate::text::has_prefix(text@, "Volume set to "@)),
{
    if let CommandActionView::SetVolume(percent) = action {
        let number = crate::text::decimal(percent as nat);
        assert("Volume set to "@ + number + "%."@ =~= "Volume set to "@ + (number + "%."@));
        crate::text_laws::parts_occur(Seq::empty(), "Volume set to "@, number + "%."@);
    }
}

} // verus!
