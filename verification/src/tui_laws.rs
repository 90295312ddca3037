//! Laws of the terminal client: what its keys do, and what it makes of what the
//! backend says.

use vstd::prelude::*;

use crate::api::{
    SearchJobCompleted, SearchJobStatus, SearchJobSummary, StateSnapshot, SystemErrorSeverity,
};
use crate::domain::{PlaybackStatus, Song};
use crate::tui_app::{
    AppAction, AppActionView, AppView, Overlay, PendingView, SearchOverlayState,
    SearchOverlayView, StatusLevel,
};
use crate::tui_client::{
    BackendEvent, BackendEventKind, CommandAction, CommandActionView, CommandOutcome,
    SearchResultsOutcome,
};
use crate::tui_input::{InputView, KeyCode, KeyEvent, KeyModifiers};

verus! {

// ---------------------------------------------------------------------------
// Pressing keys
// ---------------------------------------------------------------------------

/// A key pressed by itself.
pub open spec fn plain(code: KeyCode) -> KeyEvent {
    KeyEvent { code, modifiers: KeyModifiers { control: false, shift: false, other: false } }
}

/// A key pressed together with control.
pub open spec fn with_control(code: KeyCode) -> KeyEvent {
    KeyEvent { code, modifiers: KeyModifiers { control: true, shift: false, other: false } }
}

/// The client after a key was pressed some times.
pub open spec fn pressed(app: AppView, key: KeyEvent, times: nat) -> AppView
    decreases times,
{
    if times == 0 {
        app
    } else {
        pressed(app, key, (times - 1) as nat).keyed(key).0
    }
}

/// The client after a text was typed.
pub open spec fn typed(app: AppView, text: Seq<char>) -> AppView
    decreases text.len(),
{
    if text.len() == 0 {
        app
    } else {
        typed(app, text.drop_last()).keyed(plain(KeyCode::Char(text.last()))).0
    }
}

/// Whether results are on show, with one of them selected.
pub open spec fn offers(app: AppView, results: Seq<Song>, selected: int) -> bool {
    &&& app.overlay == Overlay::Search
    &&& app.search_overlay matches Some(search)
    &&& search.state == SearchOverlayState::Results
    &&& search.results == results
    &&& search.selected == selected
    &&& 0 <= selected < results.len()
}

// ---------------------------------------------------------------------------
// Searches
// ---------------------------------------------------------------------------

/// Enter adds the result that is selected, whichever it is.
pub proof fn enter_adds_the_selected_result(app: AppView, results: Seq<Song>, selected: int)
    requires
        offers(app, results, selected),
    ensures
        app.keyed(plain(KeyCode::Enter)).1 == AppActionView::Command(
            CommandActionView::AddSong(results[selected].id@),
        ),
        offers(app.keyed(plain(KeyCode::Enter)).0, results, selected),
{
}

/// Down selects the next result and up the one before, not further than there
/// are; the letters do the same.
pub proof fn arrows_move_among_the_results(app: AppView, results: Seq<Song>, selected: int)
    requires
        offers(app, results, selected),
    ensures
        selected + 1 < results.len() ==> {
            &&& offers(app.keyed(plain(KeyCode::Down)).0, results, selected + 1)
            &&& offers(app.keyed(plain(KeyCode::Char('j'))).0, results, selected + 1)
        },
        selected + 1 == results.len() ==> offers(
            app.keyed(plain(KeyCode::Down)).0,
            results,
            selected,
        ),
        selected > 0 ==> {
            &&& offers(app.keyed(plain(KeyCode::Up)).0, results, selected - 1)
            &&& offers(app.keyed(plain(KeyCode::Char('k'))).0, results, selected - 1)
        },
        selected == 0 ==> offers(app.keyed(plain(KeyCode::Up)).0, results, 0),
        app.keyed(plain(KeyCode::Down)).1 == AppActionView::Nothing,
        app.keyed(plain(KeyCode::Up)).1 == AppActionView::Nothing,
{
}

/// So many times down from the first result, and enter adds the result so many
/// places behind it.
pub proof fn the_result_that_was_walked_to_is_added(app: AppView, results: Seq<Song>, k: nat)
    requires
        offers(app, results, 0),
        k < results.len(),
    ensures
        offers(pressed(app, plain(KeyCode::Down), k), results, k as int),
        pressed(app, plain(KeyCode::Down), k).keyed(plain(KeyCode::Enter)).1
            == AppActionView::Command(CommandActionView::AddSong(results[k as int].id@)),
    decreases k,
{
    if k > 0 {
        let j = (k - 1) as nat;
        the_result_that_was_walked_to_is_added(app, results, j);
        arrows_move_among_the_results(
            pressed(app, plain(KeyCode::Down), j),
            results,
            j as int,
        );
    }
    enter_adds_the_selected_result(
        pressed(app, plain(KeyCode::Down), k),
        results,
        k as int,
    );
}

/// A search that is closed by the user is out of sight and stays closed.
pub proof fn escape_closes_a_search(app: AppView, search: SearchOverlayView, code: KeyCode)
    requires
        app.overlay == Overlay::Search,
        app.search_overlay == Some(search),
        code == KeyCode::Esc || code == KeyCode::Char('q'),
    ensures
        ({
            let after = app.keyed(plain(code));
            &&& after.1 == AppActionView::Nothing
            &&& after.0.overlay == Overlay::Closed
            &&& after.0.search_overlay matches Some(shut)
            &&& shut.closed
            &&& shut.job_id == search.job_id
            &&& after.0.queue == app.queue
        }),
{
}

/// The songs that a search has found are on show, the first five of them in their
/// order, with the first selected; where there are none, that is said.
pub proof fn what_was_found_is_on_show(app: AppView, search: SearchOverlayView, results: Seq<Song>)
    requires
        app.search_overlay == Some(search),
        !search.closed,
    ensures
        ({
            let after = app.completed(search.job_id, results);
            let count = if results.len() < 5 {
                results.len() as int
            } else {
                5
            };
            &&& after.overlay == Overlay::Search
            &&& after.search_overlay matches Some(shown)
            &&& shown.results.len() == count
            &&& forall|k: int| 0 <= k < count ==> #[trigger] shown.results[k] == results[k]
            &&& shown.selected == 0
            &&& shown.query == search.query
            &&& shown.error_message is None
            &&& results.len() > 0 ==> shown.state == SearchOverlayState::Results
            &&& results.len() == 0 ==> shown.state == SearchOverlayState::Empty
                && after.status_message == "No matches found."@
            &&& after.status_level == StatusLevel::Info
        }),
{
}

/// A search that has failed says why, and offers nothing.
pub proof fn a_failed_search_says_why(app: AppView, search: SearchOverlayView, message: Seq<char>)
    requires
        app.search_overlay == Some(search),
        !search.closed,
    ensures
        ({
            let after = app.failed(search.job_id, message);
            &&& after.overlay == Overlay::Search
            &&& after.search_overlay matches Some(shown)
            &&& shown.state == SearchOverlayState::Error
            &&& shown.error_message == Some(message)
            &&& shown.results.len() == 0
            &&& after.status_message == message
            &&& after.status_level == StatusLevel::Error
        }),
{
}

/// What comes of a search that is not on show changes nothing on show, and is
/// kept.
pub proof fn unknown_searches_are_kept_for_later(
    app: AppView,
    job_id: Seq<char>,
    results: Seq<Song>,
    message: Seq<char>,
)
    requires
        app.search_overlay matches Some(search) ==> search.job_id != job_id,
    ensures
        app.completed(job_id, results) == (AppView {
            pending_search_terminal: Some((job_id, PendingView::Completed(results))),
            ..app
        }),
        app.failed(job_id, message) == (AppView {
            pending_search_terminal: Some((job_id, PendingView::Failed(message))),
            ..app
        }),
{
}

/// A search that was taken is opened under its query and loads; a song that was
/// taken closes the search and empties the input; a failure is shown.
pub proof fn answers_are_shown(
    app: AppView,
    job_id: String,
    query: String,
    message: String,
)
    ensures
        app.search_opened(job_id@, query@).overlay == Overlay::Search,
        app.search_opened(job_id@, query@).search_overlay matches Some(search) && {
            &&& search.job_id == job_id@
            &&& search.query == query@
            &&& search.state == SearchOverlayState::Loading
            &&& search.results.len() == 0
            &&& !search.closed
        },
        app.answered(Ok(CommandOutcome::SearchSubmitted { job_id, query })).search_overlay matches Some(
            search,
        ) && search.job_id == job_id@ && search.query == query@ && !search.closed,
        app.answered(Ok(CommandOutcome::SearchSubmitted { job_id, query })).overlay
            == Overlay::Search,
        ({
            let after = app.answered(Ok(CommandOutcome::SongQueued(message)));
            &&& after.overlay == Overlay::Closed
            &&& after.search_overlay is None
            &&& after.input.text.len() == 0
            &&& after.input.cursor == 0
            &&& after.status_message == message@
        }),
        ({
            let after = app.answered(Err(message));
            &&& after.status_message == message@
            &&& after.status_level == StatusLevel::Error
            &&& after.overlay == app.overlay
            &&& after.queue == app.queue
        }),
        ({
            let after = app.answered(Ok(CommandOutcome::StatusMessage(message)));
            &&& after.status_message == message@
            &&& after.status_level == StatusLevel::Info
        }),
{
}

// ---------------------------------------------------------------------------
// The input
// ---------------------------------------------------------------------------

/// What is typed stands in the input as it was typed, behind what was there.
pub proof fn what_is_typed_is_in_the_input(app: AppView, text: Seq<char>)
    requires
        app.overlay == Overlay::Closed,
        app.input.cursor == app.input.text.len(),
    ensures
        typed(app, text).overlay == Overlay::Closed,
        typed(app, text).input.text == app.input.text + text,
        typed(app, text).input.cursor == app.input.text.len() + text.len(),
    decreases text.len(),
{
    if text.len() > 0 {
        what_is_typed_is_in_the_input(app, text.drop_last());
        assert(app.input.text + text =~= (app.input.text + text.drop_last()).push(text.last()));
        let before = typed(app, text.drop_last());
        assert(before.input.text.insert(before.input.cursor, text.last())
            =~= before.input.text.push(text.last()));
    } else {
        assert(app.input.text + text =~= app.input.text);
    }
}

/// Enter searches for what stands in the input, but for white space around it;
/// where that is nothing, it asks for a query.
pub proof fn enter_searches_for_what_was_typed(app: AppView, query: Seq<char>)
    requires
        app.overlay == Overlay::Closed,
        crate::text::trimmed(app.input.text) == query,
    ensures
        query.len() > 0 && query[0] != '/' ==> app.keyed(plain(KeyCode::Enter)) == (
            app,
            AppActionView::Command(CommandActionView::Search(query)),
        ),
        query.len() == 0 ==> {
            &&& app.keyed(plain(KeyCode::Enter)).1 == AppActionView::Nothing
            &&& app.keyed(plain(KeyCode::Enter)).0.status_level == StatusLevel::Warning
            &&& app.keyed(plain(KeyCode::Enter)).0.input == app.input
        },
{
}

/// The two slash commands do what they are called; any other is a warning.
pub proof fn slash_commands_do_what_they_are_called(app: AppView, command: Seq<char>)
    requires
        app.overlay == Overlay::Closed,
        crate::text::trimmed(app.input.text) == "/"@ + command,
        crate::text::trimmed(command) == command,
    ensures
        command == "exit"@ ==> app.keyed(plain(KeyCode::Enter)).1 == AppActionView::Quit,
        command == "help"@ ==> {
            &&& app.keyed(plain(KeyCode::Enter)).1 == AppActionView::Nothing
            &&& app.keyed(plain(KeyCode::Enter)).0.overlay == Overlay::Help
        },
        command != "exit"@ && command != "help"@ ==> {
            &&& app.keyed(plain(KeyCode::Enter)).1 == AppActionView::Nothing
            &&& app.keyed(plain(KeyCode::Enter)).0.status_level == StatusLevel::Warning
            &&& app.keyed(plain(KeyCode::Enter)).0.overlay == Overlay::Closed
        },
{
    reveal_strlit("/");
    reveal_strlit("exit");
    reveal_strlit("help");
    let text = "/"@ + command;
    assert(text[0] == '/');
    assert(text.skip(1) =~= command);
    assert("exit"@[0] != "help"@[0]);
}

/// The keys that edit the input do so: backspace takes the character before the
/// cursor, delete the one at it, and the others only move the cursor.
pub proof fn editing_keys_edit(input: InputView, ch: char)
    requires
        0 <= input.cursor <= input.text.len(),
    ensures
        ({
            let after = input.keyed(plain(KeyCode::Char(ch)));
            &&& after.cursor == input.cursor + 1
            &&& after.text.len() == input.text.len() + 1
            &&& after.text[input.cursor] == ch
            &&& after.text.take(input.cursor) == input.text.take(input.cursor)
            &&& after.text.skip(input.cursor + 1) == input.text.skip(input.cursor)
        }),
        input.cursor > 0 ==> {
            let after = input.keyed(plain(KeyCode::Backspace));
            &&& after.cursor == input.cursor - 1
            &&& after.text == input.text.take(input.cursor - 1) + input.text.skip(input.cursor)
        },
        input.cursor == 0 ==> input.keyed(plain(KeyCode::Backspace)) == input,
        input.cursor < input.text.len() ==> {
            let after = input.keyed(plain(KeyCode::Delete));
            &&& after.cursor == input.cursor
            &&& after.text == input.text.take(input.cursor) + input.text.skip(input.cursor + 1)
        },
        input.cursor == input.text.len() ==> input.keyed(plain(KeyCode::Delete)) == input,
        input.keyed(plain(KeyCode::Left)).text == input.text,
        input.keyed(plain(KeyCode::Right)).text == input.text,
        input.cursor > 0 ==> input.keyed(plain(KeyCode::Left)).cursor == input.cursor - 1,
        input.cursor == 0 ==> input.keyed(plain(KeyCode::Left)).cursor == 0,
        input.cursor < input.text.len() ==> input.keyed(plain(KeyCode::Right)).cursor
            == input.cursor + 1,
        input.cursor == input.text.len() ==> input.keyed(plain(KeyCode::Right)).cursor
            == input.cursor,
        input.keyed(plain(KeyCode::Home)) == (InputView { text: input.text, cursor: 0 }),
        input.keyed(plain(KeyCode::End)) == (InputView {
            text: input.text,
            cursor: input.text.len() as int,
        }),
{
    let typed = input.keyed(plain(KeyCode::Char(ch)));
    assert(typed.text.take(input.cursor) =~= input.text.take(input.cursor));
    assert(typed.text.skip(input.cursor + 1) =~= input.text.skip(input.cursor));
    if input.cursor > 0 {
        assert(input.text.remove(input.cursor - 1) =~= input.text.take(input.cursor - 1)
            + input.text.skip(input.cursor));
    }
    if input.cursor < input.text.len() {
        assert(input.text.remove(input.cursor) =~= input.text.take(input.cursor)
            + input.text.skip(input.cursor + 1));
    }
}

// ---------------------------------------------------------------------------
// The queue
// ---------------------------------------------------------------------------

/// In the queue, down and up walk from item to item and stop at its ends.
pub proof fn arrows_move_in_the_queue(app: AppView)
    requires
        app.overlay == Overlay::Queue,
        0 <= app.queue_selection < app.queue.len(),
    ensures
        ({
            let down = app.keyed(plain(KeyCode::Down));
            let up = app.keyed(plain(KeyCode::Up));
            &&& down.1 == AppActionView::Nothing
            &&& up.1 == AppActionView::Nothing
            &&& app.queue_selection + 1 < app.queue.len() ==> down.0.queue_selection
                == app.queue_selection + 1
            &&& app.queue_selection + 1 == app.queue.len() ==> down.0.queue_selection
                == app.queue_selection
            &&& app.queue_selection > 0 ==> up.0.queue_selection == app.queue_selection - 1
            &&& app.queue_selection == 0 ==> up.0.queue_selection == 0
            &&& !down.0.pending_delete_confirmation
            &&& !up.0.pending_delete_confirmation
            &&& down.0.overlay == Overlay::Queue
            &&& down.0.queue == app.queue
            &&& app.keyed(plain(KeyCode::Char('j'))) == down
            &&& app.keyed(plain(KeyCode::Char('k'))) == up
        }),
{
}

/// The item that is selected is removed by two keys, and by no less: the first
/// marks it and asks, the second removes it. Walking on takes the mark away.
pub proof fn two_keys_remove_the_selected_item(app: AppView)
    requires
        app.overlay == Overlay::Queue,
        0 <= app.queue_selection < app.queue.len(),
        !(app.playback.current_queue_item_id matches Some(id) && id@
            == app.queue[app.queue_selection].id@),
    ensures
        ({
            let marked = app.keyed(plain(KeyCode::Char('d')));
            let removed = marked.0.keyed(plain(KeyCode::Enter));
            &&& marked.1 == AppActionView::Nothing
            &&& marked.0.queue_selection == app.queue_selection
            &&& marked.0.queue == app.queue
            &&& removed.1 == AppActionView::Command(
                CommandActionView::RemoveQueueItem(app.queue[app.queue_selection].id@),
            )
            &&& removed.0.keyed(plain(KeyCode::Enter)).1 == AppActionView::Nothing
            &&& marked.0.keyed(plain(KeyCode::Down)).0.keyed(plain(KeyCode::Enter)).1
                == AppActionView::Nothing
            &&& marked.0.keyed(plain(KeyCode::Up)).0.keyed(plain(KeyCode::Enter)).1
                == AppActionView::Nothing
        }),
        !app.pending_delete_confirmation ==> app.keyed(plain(KeyCode::Enter)).1
            == AppActionView::Nothing,
{
}

/// The queue is opened at the item that comes next: behind the current one, at it
/// where it is the last, and else at the first.
pub proof fn the_queue_opens_at_what_comes_next(app: AppView, i: int)
    ensures
        ({
            let opened = app.keyed(with_control(KeyCode::Char('q')));
            &&& opened.1 == AppActionView::Nothing
            &&& opened.0.overlay == Overlay::Queue
            &&& !opened.0.pending_delete_confirmation
            &&& app.playback.current_queue_item_id is None ==> opened.0.queue_selection == 0
            &&& (app.playback.current_queue_item_id matches Some(id) && 0 <= i < app.queue.len()
                && app.queue[i].id@ == id@ && forall|j: int|
                0 <= j < i ==> (#[trigger] app.queue[j]).id@ != id@) ==> {
                &&& i + 1 < app.queue.len() ==> opened.0.queue_selection == i + 1
                &&& i + 1 == app.queue.len() ==> opened.0.queue_selection == i
            }
        }),
{
    match app.playback.current_queue_item_id {
        Some(id) => {
            if 0 <= i < app.queue.len() && app.queue[i].id@ == id@ && forall|j: int|
                0 <= j < i ==> (#[trigger] app.queue[j]).id@ != id@ {
                crate::core_state::lemma_item_index_is(app.queue, id@, i);
            }
        },
        None => {},
    }
}

/// Escape closes the queue and the help.
pub proof fn escape_closes_what_lies_over(app: AppView, code: KeyCode)
    requires
        app.overlay == Overlay::Queue || app.overlay == Overlay::Help,
        code == KeyCode::Esc || code == KeyCode::Char('q'),
    ensures
        app.keyed(plain(code)).0.overlay == Overlay::Closed,
        app.keyed(plain(code)).1 == AppActionView::Nothing,
        !(app.overlay == Overlay::Queue && app.keyed(plain(code)).0.pending_delete_confirmation),
{
}

/// The help key opens the help over anything else, and closes it again.
pub proof fn the_help_key_opens_and_closes(app: AppView)
    ensures
        app.overlay != Overlay::Help ==> app.keyed(plain(KeyCode::F(1))).0.overlay == Overlay::Help,
        app.overlay == Overlay::Help ==> app.keyed(plain(KeyCode::F(1))).0.overlay
            == Overlay::Closed,
        app.keyed(plain(KeyCode::F(1))).1 == AppActionView::Nothing,
{
}

// ---------------------------------------------------------------------------
// Shortcuts
// ---------------------------------------------------------------------------

/// The shortcuts of playback do the same whatever is on show, and change nothing
/// of the client.
pub proof fn shortcuts_control_playback(app: AppView)
    ensures
        app.keyed(with_control(KeyCode::Char('p'))) == (
            app,
            AppActionView::Command(CommandActionView::PlayPause),
        ),
        app.keyed(with_control(KeyCode::Right)) == (
            app,
            AppActionView::Command(CommandActionView::Next),
        ),
        app.keyed(with_control(KeyCode::Left)) == (
            app,
            AppActionView::Command(CommandActionView::Previous),
        ),
        app.keyed(with_control(KeyCode::Char('c'))).1 == AppActionView::Quit,
{
}

/// The volume goes up and down by five percent, up to a hundred and down to
/// nothing; the backend is asked for exactly what is shown, and for nothing where
/// it stays.
pub proof fn the_volume_moves_by_five(app: AppView)
    requires
        app.audio.volume_percent <= 100,
    ensures
        ({
            let volume = app.audio.volume_percent as int;
            let up = app.keyed(with_control(KeyCode::Up));
            let down = app.keyed(with_control(KeyCode::Down));
            &&& volume <= 95 ==> up.0.audio.volume_percent == volume + 5
            &&& volume > 95 ==> up.0.audio.volume_percent == 100
            &&& volume >= 5 ==> down.0.audio.volume_percent == volume - 5
            &&& volume < 5 ==> down.0.audio.volume_percent == 0
            &&& volume < 100 ==> up.1 == AppActionView::Command(
                CommandActionView::SetVolume(up.0.audio.volume_percent),
            )
            &&& volume == 100 ==> up.1 == AppActionView::Nothing
            &&& volume > 0 ==> down.1 == AppActionView::Command(
                CommandActionView::SetVolume(down.0.audio.volume_percent),
            )
            &&& volume == 0 ==> down.1 == AppActionView::Nothing
        }),
{
}

/// What a key leads to is the command of that name, on the very song or item.
pub proof fn actions_mean_what_they_say(text: String, volume: u8)
    ensures
        AppAction::Nothing@ == AppActionView::Nothing,
        AppAction::Quit@ == AppActionView::Quit,
        AppAction::Command(CommandAction::Search(text))@ == AppActionView::Command(
            CommandActionView::Search(text@),
        ),
        AppAction::Command(CommandAction::AddSong(text))@ == AppActionView::Command(
            CommandActionView::AddSong(text@),
        ),
        AppAction::Command(CommandAction::RemoveQueueItem(text))@ == AppActionView::Command(
            CommandActionView::RemoveQueueItem(text@),
        ),
        AppAction::Command(CommandAction::SetVolume(volume))@ == AppActionView::Command(
            CommandActionView::SetVolume(volume),
        ),
        AppAction::Command(CommandAction::PlayPause)@ == AppActionView::Command(
            CommandActionView::PlayPause,
        ),
        AppAction::Command(CommandAction::Next)@ == AppActionView::Command(CommandActionView::Next),
        AppAction::Command(CommandAction::Previous)@ == AppActionView::Command(
            CommandActionView::Previous,
        ),
{
}

// ---------------------------------------------------------------------------
// What the backend says
// ---------------------------------------------------------------------------

/// A state that the backend tells is the one that is shown from then on, with the
/// song of its current item.
pub proof fn the_told_state_is_shown(
    app: AppView,
    snapshot: StateSnapshot,
    event_id: String,
    now_ms: u64,
    i: int,
)
    requires
        app.search_overlay is None,
    ensures
        ({
            let event = BackendEvent { event_id, kind: BackendEventKind::StateUpdated(snapshot) };
            let after = app.evented(event, now_ms);
            &&& after.last_event_id == Some(event_id@)
            &&& after.playback == snapshot.playback
            &&& after.queue == snapshot.queue@
            &&& after.audio == snapshot.audio
            &&& after.backend == snapshot.backend
            &&& after.search_jobs == snapshot.search_jobs@
            &&& after.display_position_ms == snapshot.playback.position_ms
            &&& snapshot.playback.current_queue_item_id is None ==> after.current_song is None
            &&& (snapshot.playback.current_queue_item_id matches Some(id) && 0 <= i
                < snapshot.queue@.len() && snapshot.queue@[i].id@ == id@ && forall|j: int|
                0 <= j < i ==> (#[trigger] snapshot.queue@[j]).id@ != id@)
                ==> after.current_song == Some(snapshot.queue@[i].song)
            &&& after.input == app.input
            &&& after.overlay == app.overlay
        }),
{
    match snapshot.playback.current_queue_item_id {
        Some(id) => {
            if 0 <= i < snapshot.queue@.len() && snapshot.queue@[i].id@ == id@ && forall|j: int|
                0 <= j < i ==> (#[trigger] snapshot.queue@[j]).id@ != id@ {
                crate::core_state::lemma_item_index_is(snapshot.queue@, id@, i);
            }
        },
        None => {},
    }
}

/// The position that the current session reports is shown from then on; that of
/// another session is not.
pub proof fn the_reported_position_is_shown(
    app: AppView,
    session: String,
    position_ms: u64,
    event_id: String,
    now_ms: u64,
)
    ensures
        ({
            let event = BackendEvent {
                event_id,
                kind: BackendEventKind::PlaybackProgress(
                    crate::api::PlaybackProgress { playback_session_id: session, position_ms },
                ),
            };
            let after = app.evented(event, now_ms);
            let known = app.playback.playback_session_id;
            &&& after.last_event_id == Some(event_id@)
            &&& (known is None || known->0@ == session@) ==> {
                &&& after.playback.position_ms == position_ms
                &&& after.display_position_ms == position_ms
                &&& after.playback_anchor_at == now_ms
                &&& after.playback_progress_confirmed
                &&& after.playback.playback_session_id matches Some(kept)
                &&& kept@ == session@
            }
            &&& (known is Some && known->0@ != session@) ==> {
                &&& after.playback == app.playback
                &&& after.display_position_ms == app.display_position_ms
                &&& after.playback_anchor_at == app.playback_anchor_at
            }
            &&& after.queue == app.queue
            &&& after.playback.state == app.playback.state
        }),
{
}

/// While it plays, the position that is shown moves on with the time, up to the
/// end of the song.
pub proof fn the_shown_position_moves_with_the_time(app: AppView, elapsed: u64, song: Song)
    requires
        app.playback.state == PlaybackStatus::Playing,
        app.playback_progress_confirmed,
        app.current_song == Some(song),
        app.playback_anchor_at + elapsed <= u64::MAX,
    ensures
        ({
            let shown = app.position_shown((app.playback_anchor_at + elapsed) as u64);
            &&& app.playback_anchor_ms + elapsed < song.duration_ms ==> shown
                == app.playback_anchor_ms + elapsed
            &&& app.playback_anchor_ms + elapsed >= song.duration_ms ==> shown == song.duration_ms
        }),
{
}

/// An error of the backend is shown with its words and as grave as it is.
pub proof fn errors_are_shown_as_they_are(
    app: AppView,
    error: crate::api::SystemError,
    event_id: String,
    now_ms: u64,
)
    ensures
        ({
            let event = BackendEvent { event_id, kind: BackendEventKind::SystemError(error) };
            let after = app.evented(event, now_ms);
            &&& after.status_message == error.message@
            &&& error.severity == SystemErrorSeverity::Warning ==> after.status_level
                == StatusLevel::Warning
            &&& error.severity == SystemErrorSeverity::Error ==> after.status_level
                == StatusLevel::Error
            &&& after.queue == app.queue
            &&& after.playback == app.playback
            &&& after.overlay == app.overlay
        }),
{
}

/// The songs that were asked for are shown like those that were told.
pub proof fn results_that_were_asked_for_are_shown(
    app: AppView,
    search: SearchOverlayView,
    job: crate::api::SearchJobSummary,
    results: Vec<Song>,
)
    requires
        app.search_overlay == Some(search),
        !search.closed,
        job.job_id@ == search.job_id,
        0 < results@.len() <= 5,
    ensures
        ({
            let after = app.results_applied(SearchResultsOutcome::Loaded { job, results });
            &&& after.pending_search_results_request is None
            &&& offers(after, results@, 0)
        }),
{
}

// ---------------------------------------------------------------------------
// Searches that are known
// ---------------------------------------------------------------------------

/// Whether the search at `k` is the first with its id.
pub open spec fn is_known_at(jobs: Seq<SearchJobSummary>, k: int, job_id: Seq<char>) -> bool {
    &&& 0 <= k < jobs.len()
    &&& jobs[k].job_id@ == job_id
    &&& forall|j: int| 0 <= j < k ==> (#[trigger] jobs[j]).job_id@ != job_id
}

proof fn lemma_known(jobs: Seq<SearchJobSummary>, job_id: Seq<char>)
    ensures
        match crate::tui_app::job_position(jobs, job_id) {
            Some(k) => is_known_at(jobs, k, job_id),
            None => forall|j: int| 0 <= j < jobs.len() ==> (#[trigger] jobs[j]).job_id@ != job_id,
        },
    decreases jobs.len(),
{
    if jobs.len() > 0 && jobs[0].job_id@ != job_id {
        let rest = jobs.drop_first();
        lemma_known(rest, job_id);
        assert forall|j: int| 0 < j < jobs.len() implies #[trigger] jobs[j] == rest[j - 1] by {}
    }
}

proof fn lemma_known_at(jobs: Seq<SearchJobSummary>, k: int, job_id: Seq<char>)
    requires
        is_known_at(jobs, k, job_id),
    ensures
        crate::tui_app::job_position(jobs, job_id) == Some(k),
{
    lemma_known(jobs, job_id);
    match crate::tui_app::job_position(jobs, job_id) {
        Some(i) => {
            if i < k {
                assert(jobs[i].job_id@ != job_id);
            } else if k < i {
                assert(jobs[k].job_id@ != job_id);
            }
        },
        None => {
            assert(jobs[k].job_id@ != job_id);
        },
    }
}

/// News of a search that is known take its place; a new search comes behind the
/// others. No other search is touched.
pub proof fn news_take_the_place_of_the_search(
    jobs: Seq<SearchJobSummary>,
    job: SearchJobSummary,
    k: int,
)
    ensures
        ({
            let after = crate::tui_app::upserted(jobs, job);
            &&& is_known_at(jobs, k, job.job_id@) ==> {
                &&& after.len() == jobs.len()
                &&& after[k] == job
                &&& forall|j: int|
                    0 <= j < jobs.len() && j != k ==> #[trigger] after[j] == jobs[j]
            }
            &&& (forall|j: int|
                0 <= j < jobs.len() ==> (#[trigger] jobs[j]).job_id@ != job.job_id@) ==> {
                &&& after.len() == jobs.len() + 1
                &&& after.last() == job
                &&& after.drop_last() == jobs
            }
        }),
{
    lemma_known(jobs, job.job_id@);
    if is_known_at(jobs, k, job.job_id@) {
        lemma_known_at(jobs, k, job.job_id@);
    }
    assert(jobs.push(job).drop_last() =~= jobs);
}

/// Of a search that failed only the status changes, and nothing of any other.
pub proof fn only_the_failed_search_is_marked(
    jobs: Seq<SearchJobSummary>,
    job_id: Seq<char>,
    k: int,
)
    requires
        is_known_at(jobs, k, job_id),
    ensures
        ({
            let after = crate::tui_app::with_failed_job(jobs, job_id);
            &&& after.len() == jobs.len()
            &&& after[k].status == SearchJobStatus::Failed
            &&& after[k].job_id == jobs[k].job_id
            &&& after[k].query == jobs[k].query
            &&& after[k].result_count == jobs[k].result_count
            &&& forall|j: int| 0 <= j < jobs.len() && j != k ==> #[trigger] after[j] == jobs[j]
        }),
{
    lemma_known_at(jobs, k, job_id);
}

/// The events of a search keep the list of searches up to date.
pub proof fn events_keep_the_searches_up_to_date(
    app: AppView,
    event_id: String,
    job: SearchJobSummary,
    results: Vec<Song>,
    now_ms: u64,
)
    ensures
        app.evented(
            BackendEvent { event_id, kind: BackendEventKind::SearchJobStarted(job) },
            now_ms,
        ).search_jobs == crate::tui_app::upserted(app.search_jobs, job),
        app.evented(
            BackendEvent {
                event_id,
                kind: BackendEventKind::SearchJobCompleted(SearchJobCompleted { job, results }),
            },
            now_ms,
        ).search_jobs == crate::tui_app::upserted(app.search_jobs, job),
        app.results_applied(SearchResultsOutcome::Loaded { job, results }).search_jobs
            == crate::tui_app::upserted(app.search_jobs, job),
{
}

/// A search that the backend takes up again is being looked up once more, where it
/// is the one on show; any other leaves everything as it is.
pub proof fn a_started_search_is_looked_up(
    app: AppView,
    search: SearchOverlayView,
    job_id: Seq<char>,
)
    requires
        app.search_overlay == Some(search),
    ensures
        search.job_id == job_id && !search.closed ==> {
            &&& app.search_started(job_id).search_overlay matches Some(shown)
            &&& shown.state == SearchOverlayState::Loading
            &&& shown.error_message is None
            &&& shown.job_id == search.job_id
            &&& shown.query == search.query
        },
        search.job_id != job_id || search.closed ==> app.search_started(job_id) == app,
{
}

/// What was found is counted in the status, as far as it is on show; nothing more
/// is asked for then.
pub proof fn what_was_found_is_counted(
    app: AppView,
    search: SearchOverlayView,
    results: Seq<Song>,
    asked: String,
    message: String,
)
    requires
        app.search_overlay == Some(search),
        !search.closed,
    ensures
        ({
            let after = app.completed(search.job_id, results);
            &&& after.pending_search_results_request is None
            &&& after.status_level == StatusLevel::Info
            &&& 0 < results.len() <= 5 ==> crate::text::occurs_in(
                after.status_message,
                crate::text::decimal(results.len()),
            )
            &&& results.len() > 5 ==> crate::text::occurs_in(
                after.status_message,
                crate::text::decimal(5),
            )
        }),
        app.failed(search.job_id, message@).pending_search_results_request is None,
        app.results_applied(
            SearchResultsOutcome::Failed { job_id: asked, message },
        ).pending_search_results_request is None,
{
    let n = if results.len() > 5 {
        5nat
    } else {
        results.len()
    };
    crate::text_laws::parts_occur("Found "@, crate::text::decimal(n), " candidate(s)."@);
    if results.len() > 5 {
        assert(results.take(5).len() == 5);
    }
}

/// A search on show whose end was missed is made up for: the results of a completed
/// one are asked for while it is still looked up, and a failed one is shown as
/// failed. One that was closed is left alone.
pub proof fn a_missed_end_is_made_up_for(app: AppView, search: SearchOverlayView, k: int)
    requires
        app.search_overlay == Some(search),
        is_known_at(app.search_jobs, k, search.job_id),
    ensures
        ({
            let after = app.search_reconciled();
            let status = app.search_jobs[k].status;
            &&& search.closed ==> after == app
            &&& !search.closed && status == SearchJobStatus::Completed && search.state
                == SearchOverlayState::Loading ==> after.pending_search_results_request == Some(
                search.job_id,
            )
            &&& !search.closed && status == SearchJobStatus::Completed && search.state
                != SearchOverlayState::Loading ==> after == app
            &&& !search.closed && status == SearchJobStatus::Failed ==> {
                &&& after.search_overlay matches Some(shown)
                &&& shown.state == SearchOverlayState::Error
                &&& shown.error_message is Some
                &&& after.status_level == StatusLevel::Error
            }
        }),
{
    lemma_known_at(app.search_jobs, k, search.job_id);
}

/// A state that was read anew is the one that events are followed from, and the
/// user sees where it came from. Its position moves on at once where it plays and
/// has come some way.
pub proof fn a_state_read_anew_is_followed(
    app: AppView,
    snapshot: StateSnapshot,
    current_event_id: Option<Seq<char>>,
    now_ms: u64,
)
    requires
        app.search_overlay is None,
    ensures
        ({
            let after = app.snapshot_applied(snapshot, current_event_id, now_ms);
            &&& after.last_event_id == current_event_id
            &&& after.queue == snapshot.queue@
            &&& after.playback == snapshot.playback
            &&& crate::text::occurs_in(after.status_message, app.backend_addr)
            &&& after.playback_progress_confirmed <==> snapshot.playback.state
                == PlaybackStatus::Playing && snapshot.playback.position_ms > 0
        }),
{
    let all = "Connected to backend on http://"@ + app.backend_addr;
    crate::text_laws::parts_occur(
        "Connected to backend on http://"@,
        app.backend_addr,
        Seq::empty(),
    );
    assert(all + Seq::<char>::empty() =~= all);
}

/// A position that the player has not confirmed stands still, and so does one that
/// does not play.
pub proof fn an_unconfirmed_position_stands_still(app: AppView, now_ms: u64)
    ensures
        !app.playback_progress_confirmed || app.playback.state != PlaybackStatus::Playing
            ==> app.position_shown(now_ms) == app.playback_anchor_ms,
{
}

/// The selected item stays selected as long as there is one in its place; else the
/// last one is, and without items nothing is to be removed.
pub proof fn the_selection_stays_in_the_queue(app: AppView)
    requires
        0 <= app.queue_selection,
    ensures
        ({
            let after = app.selection_reconciled();
            &&& app.queue_selection < app.queue.len() ==> after == app
            &&& app.queue.len() > 0 && app.queue_selection >= app.queue.len()
                ==> after.queue_selection == app.queue.len() - 1
            &&& app.queue.len() == 0 ==> after.queue_selection == 0
                && !after.pending_delete_confirmation
            &&& after.queue == app.queue
        }),
{
}

/// A search that was sent is on show as being looked up, under its id and with its
/// query, where nothing is known of it yet.
pub proof fn a_sent_search_is_on_show(app: AppView, job_id: String, query: String)
    requires
        app.pending_search_terminal is None,
        forall|j: int|
            0 <= j < app.search_jobs.len() ==> (#[trigger] app.search_jobs[j]).job_id@ != job_id@,
    ensures
        ({
            let after = app.answered(Ok(CommandOutcome::SearchSubmitted { job_id, query }));
            &&& after.overlay == Overlay::Search
            &&& after.search_overlay matches Some(search)
            &&& search.job_id == job_id@
            &&& search.query == query@
            &&& search.state == SearchOverlayState::Loading
            &&& search.results.len() == 0
            &&& !search.closed
            &&& after.status_message == "Searching backend..."@
            &&& after.status_level == StatusLevel::Info
        }),
{
    lemma_known(app.search_jobs, job_id@);
}

/// Whatever else is opened over a search closes it, so that its results stay
/// hidden.
pub proof fn opening_something_else_closes_the_search(app: AppView, search: SearchOverlayView)
    requires
        app.search_overlay == Some(search),
    ensures
        app.keyed(with_control(KeyCode::Char('q'))).0.search_overlay == Some(
            SearchOverlayView { closed: true, ..search },
        ),
        app.overlay != Overlay::Help ==> app.keyed(plain(KeyCode::F(1))).0.search_overlay == Some(
            SearchOverlayView { closed: true, ..search },
        ),
        app.overlay == Overlay::Help ==> app.keyed(plain(KeyCode::F(1))).0.search_overlay
            == app.search_overlay,
{
}

/// White space between the slash and the command does not matter.
pub proof fn slash_commands_may_be_spaced(app: AppView, rest: Seq<char>)
    requires
        app.overlay == Overlay::Closed,
        crate::text::trimmed(app.input.text) == "/"@ + rest,
    ensures
        crate::text::trimmed(rest) == "exit"@ ==> app.keyed(plain(KeyCode::Enter)).1
            == AppActionView::Quit,
        crate::text::trimmed(rest) == "help"@ ==> app.keyed(plain(KeyCode::Enter)).0.overlay
            == Overlay::Help,
{
    reveal_strlit("/");
    reveal_strlit("exit");
    reveal_strlit("help");
    let text = "/"@ + rest;
    assert(text[0] == '/');
    assert(text.skip(1) =~= rest);
    assert("exit"@[0] != "help"@[0]);
}

/// While a search is looked up, enter does nothing; once it has ended without
/// results, enter and escape close it and empty the input.
pub proof fn a_search_without_results_is_left(app: AppView, search: SearchOverlayView)
    requires
        app.overlay == Overlay::Search,
        app.search_overlay == Some(search),
        search.state != SearchOverlayState::Results,
    ensures
        search.state == SearchOverlayState::Loading ==> app.keyed(plain(KeyCode::Enter)) == (
            app,
            AppActionView::Nothing,
        ),
        search.state == SearchOverlayState::Loading ==> app.keyed(plain(KeyCode::Esc)).0.input
            == app.input,
        search.state != SearchOverlayState::Loading ==> {
            &&& app.keyed(plain(KeyCode::Enter)).0.overlay == Overlay::Closed
            &&& app.keyed(plain(KeyCode::Enter)).0.input.text.len() == 0
            &&& app.keyed(plain(KeyCode::Enter)).0.input.cursor == 0
            &&& app.keyed(plain(KeyCode::Esc)) == app.keyed(plain(KeyCode::Enter))
            &&& app.keyed(plain(KeyCode::Enter)).1 == AppActionView::Nothing
        },
{
}

/// A character is typed by its key alone or with shift, and by no other
/// combination.
pub proof fn only_shift_types(input: InputView, ch: char, modifiers: KeyModifiers)
    ensures
        modifiers.control || modifiers.other ==> input.keyed(
            KeyEvent { code: KeyCode::Char(ch), modifiers },
        ) == input,
        !modifiers.control && !modifiers.other ==> input.keyed(
            KeyEvent { code: KeyCode::Char(ch), modifiers },
        ) == input.keyed(plain(KeyCode::Char(ch))),
{
}

} // verus!
