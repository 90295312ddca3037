use nocturne::api::{
    BackendStatus, CommandAccepted, PlaybackProgress, ProblemDetails, SearchJobStatus,
    SearchJobSummary, SearchResultsResponse, StateSnapshot, SystemError, SystemErrorSeverity,
};
use nocturne::domain::{
    AudioSettings, PlaybackState, PlaybackStatus, QueueItem, QueueItemStatus, Song,
};
use nocturne::tui_app::{
    App, AppAction, AppEvent, Overlay, SearchOverlayState, StatusLevel, MAX_SEARCH_RESULTS,
};
use nocturne::tui_client::{
    backend_stderr_is_shown, command_outcome, command_request, event_decode_error, known_event,
    ready_step, reconnect, search_results_outcome, stream_step, BackendEvent, BackendEventKind,
    CommandAction, CommandBody, CommandOutcome, HttpReply, KnownEvent, ReadyProbe, ReadyStep,
    SearchResultsOutcome, SnapshotSeed, StreamInput, StreamStep, TuiError,
    EVENT_CURSOR_NOT_FOUND_TYPE, READY_ATTEMPTS,
};
use nocturne::tui_input::{InputState, KeyCode, KeyEvent, KeyModifiers};
use nocturne::tui_view::{
    backend_label, format_duration, input_hint, now_playing, progress_bar, queue_footer, queue_row,
    queue_summary, reserved_time_width, search_panel, text_width, SearchBody,
};

fn song(id: &str) -> Song {
    Song {
        id: id.to_owned(),
        title: format!("Song {id}"),
        channel_name: String::from("Channel"),
        duration_ms: 180_000,
        source_url: format!("https://example.com/{id}"),
    }
}

fn queue_item(id: &str, status: QueueItemStatus) -> QueueItem {
    QueueItem {
        id: id.to_owned(),
        song: song(id),
        added_at: String::from("2026-04-24T00:00:00Z"),
        status,
    }
}

fn snapshot(search_jobs: Vec<SearchJobSummary>) -> StateSnapshot {
    StateSnapshot {
        backend: BackendStatus {
            ready: true,
            version: Some(String::from("test")),
            yt_dlp_version: None,
        },
        playback: PlaybackState {
            state: PlaybackStatus::Stopped,
            position_ms: 0,
            current_queue_item_id: None,
            playback_session_id: None,
        },
        audio: AudioSettings::default(),
        current_song: None,
        queue: Vec::new(),
        search_jobs,
        youtube_import_jobs: Vec::new(),
        revision: 1,
        snapshot_id: String::from("snap_1"),
        timestamp: String::from("2026-04-24T00:00:06Z"),
    }
}

fn control(code: KeyCode) -> KeyEvent {
    KeyEvent {
        code,
        modifiers: KeyModifiers { control: true, shift: false, other: false },
    }
}

#[test]
fn queue_overlay_selects_next_track_first() {
    let mut app = App::new("127.0.0.1:4100".parse().unwrap());
    app.queue = vec![
        queue_item("queue_item_1", QueueItemStatus::Playing),
        queue_item("queue_item_2", QueueItemStatus::Queued),
        queue_item("queue_item_3", QueueItemStatus::Queued),
    ];
    app.playback.current_queue_item_id = Some(String::from("queue_item_1"));

    app.open_queue_overlay();

    assert_eq!(app.queue_selection, 1);
}

#[test]
fn queue_selection_is_clamped_after_updates() {
    let mut app = App::new("127.0.0.1:4100".parse().unwrap());
    app.queue = vec![
        queue_item("queue_item_1", QueueItemStatus::Queued),
        queue_item("queue_item_2", QueueItemStatus::Queued),
    ];
    app.queue_selection = 4;

    app.reconcile_queue_selection();

    assert_eq!(app.queue_selection, 1);
}

#[test]
fn search_submit_opens_loading_overlay() {
    let mut app = App::new("127.0.0.1:4100".parse().unwrap());
    app.input.text = String::from("utada traveling");
    app.input.move_end();

    let action = app.handle_key(KeyEvent::from(KeyCode::Enter));

    assert_eq!(
        action,
        AppAction::Command(CommandAction::Search(String::from("utada traveling")))
    );

    app.apply_command_result(Ok(CommandOutcome::SearchSubmitted {
        job_id: String::from("job_1"),
        query: String::from("utada traveling"),
    }));

    assert_eq!(app.overlay, Overlay::Search);
    let search = app.search_overlay.as_ref().unwrap();
    assert_eq!(search.state, SearchOverlayState::Loading);
    assert_eq!(search.query, "utada traveling");
}

#[test]
fn completed_search_shows_results_and_enter_queues_selected_song() {
    let mut app = App::new("127.0.0.1:4100".parse().unwrap());
    app.open_search_overlay(String::from("job_1"), String::from("utada traveling"));

    app.apply_search_job_completed(String::from("job_1"), vec![song("song_1"), song("song_2")]);

    assert_eq!(app.overlay, Overlay::Search);
    let search = app.search_overlay.as_ref().unwrap();
    assert_eq!(search.state, SearchOverlayState::Results);
    assert_eq!(search.results.len(), 2);

    let action = app.handle_key(KeyEvent::from(KeyCode::Enter));
    assert_eq!(
        action,
        AppAction::Command(CommandAction::AddSong(String::from("song_1")))
    );
}

#[test]
fn completed_search_supports_jk_and_arrow_navigation() {
    let mut app = App::new("127.0.0.1:4100".parse().unwrap());
    app.open_search_overlay(String::from("job_1"), String::from("utada traveling"));

    app.apply_search_job_completed(
        String::from("job_1"),
        vec![song("song_1"), song("song_2"), song("song_3")],
    );

    let _ = app.handle_key(KeyEvent::from(KeyCode::Down));
    assert_eq!(app.search_overlay.as_ref().unwrap().selected, 1);

    let _ = app.handle_key(KeyEvent::from(KeyCode::Char('j')));
    assert_eq!(app.search_overlay.as_ref().unwrap().selected, 2);

    let _ = app.handle_key(KeyEvent::from(KeyCode::Char('j')));
    assert_eq!(app.search_overlay.as_ref().unwrap().selected, 2);

    let _ = app.handle_key(KeyEvent::from(KeyCode::Up));
    assert_eq!(app.search_overlay.as_ref().unwrap().selected, 1);

    let _ = app.handle_key(KeyEvent::from(KeyCode::Char('k')));
    assert_eq!(app.search_overlay.as_ref().unwrap().selected, 0);

    let _ = app.handle_key(KeyEvent::from(KeyCode::Char('k')));
    assert_eq!(app.search_overlay.as_ref().unwrap().selected, 0);
}

#[test]
fn completed_search_caps_visible_results_to_five_items() {
    let mut app = App::new("127.0.0.1:4100".parse().unwrap());
    app.open_search_overlay(String::from("job_1"), String::from("utada traveling"));

    app.apply_search_job_completed(
        String::from("job_1"),
        vec![
            song("song_1"),
            song("song_2"),
            song("song_3"),
            song("song_4"),
            song("song_5"),
            song("song_6"),
        ],
    );

    let search = app.search_overlay.as_ref().unwrap();
    assert_eq!(search.results.len(), MAX_SEARCH_RESULTS);
    assert_eq!(
        search.results.last().map(|song| song.id.as_str()),
        Some("song_5")
    );
}

#[test]
fn completed_search_arriving_before_command_ack_is_applied_after_overlay_opens() {
    let mut app = App::new("127.0.0.1:4100".parse().unwrap());

    app.apply_search_job_completed(String::from("job_1"), vec![song("song_1")]);
    app.apply_command_result(Ok(CommandOutcome::SearchSubmitted {
        job_id: String::from("job_1"),
        query: String::from("utada traveling"),
    }));

    let search = app.search_overlay.as_ref().unwrap();
    assert_eq!(search.state, SearchOverlayState::Results);
    assert_eq!(search.results.len(), 1);
    assert_eq!(app.status_message, "Found 1 candidate(s).");
}

#[test]
fn failed_search_arriving_before_command_ack_is_applied_after_overlay_opens() {
    let mut app = App::new("127.0.0.1:4100".parse().unwrap());

    app.apply_search_job_failed(String::from("job_1"), String::from("yt-dlp failed"));
    app.apply_command_result(Ok(CommandOutcome::SearchSubmitted {
        job_id: String::from("job_1"),
        query: String::from("utada traveling"),
    }));

    let search = app.search_overlay.as_ref().unwrap();
    assert_eq!(search.state, SearchOverlayState::Error);
    assert_eq!(search.error_message.as_deref(), Some("yt-dlp failed"));
}

#[test]
fn empty_search_closes_on_enter_esc_and_q_and_clears_query() {
    for key in [
        KeyEvent::from(KeyCode::Enter),
        KeyEvent::from(KeyCode::Esc),
        KeyEvent::from(KeyCode::Char('q')),
    ] {
        let mut app = App::new("127.0.0.1:4100".parse().unwrap());
        app.input.text = String::from("utada traveling");
        app.input.move_end();
        app.open_search_overlay(String::from("job_1"), String::from("utada traveling"));
        app.apply_search_job_completed(String::from("job_1"), Vec::new());

        let action = app.handle_key(key);

        assert_eq!(action, AppAction::Nothing);
        assert_eq!(app.overlay, Overlay::Closed);
        assert!(app.input.text.is_empty());
        let search = app.search_overlay.as_ref().unwrap();
        assert_eq!(search.state, SearchOverlayState::Empty);
        assert!(search.closed);
    }
}

#[test]
fn error_search_closes_on_enter_esc_and_q_and_clears_query() {
    for key in [
        KeyEvent::from(KeyCode::Enter),
        KeyEvent::from(KeyCode::Esc),
        KeyEvent::from(KeyCode::Char('q')),
    ] {
        let mut app = App::new("127.0.0.1:4100".parse().unwrap());
        app.input.text = String::from("utada traveling");
        app.input.move_end();
        app.open_search_overlay(String::from("job_1"), String::from("utada traveling"));
        app.apply_search_job_failed(String::from("job_1"), String::from("yt-dlp failed"));

        let action = app.handle_key(key);

        assert_eq!(action, AppAction::Nothing);
        assert_eq!(app.overlay, Overlay::Closed);
        assert!(app.input.text.is_empty());
        let search = app.search_overlay.as_ref().unwrap();
        assert_eq!(search.state, SearchOverlayState::Error);
        assert_eq!(search.error_message.as_deref(), Some("yt-dlp failed"));
        assert!(search.closed);
    }
}

#[test]
fn snapshot_marks_active_overlay_failed_when_job_failed_during_reconnect() {
    let mut app = App::new("127.0.0.1:4100".parse().unwrap());
    app.open_search_overlay(String::from("job_1"), String::from("utada traveling"));

    app.apply_snapshot(
        snapshot(vec![SearchJobSummary {
            job_id: String::from("job_1"),
            status: SearchJobStatus::Failed,
            query: String::from("utada traveling"),
            created_at: String::from("2026-04-24T00:00:00Z"),
            completed_at: Some(String::from("2026-04-24T00:00:05Z")),
            result_count: None,
        }]),
        Some(String::from("evt_1")),
        0,
    );

    let search = app.search_overlay.as_ref().unwrap();
    assert_eq!(search.state, SearchOverlayState::Error);
    assert_eq!(
        search.error_message.as_deref(),
        Some("Search failed. Reconnect completed without a detailed error.")
    );
}

#[test]
fn snapshot_requests_result_recovery_when_job_completed_during_reconnect() {
    let mut app = App::new("127.0.0.1:4100".parse().unwrap());
    app.open_search_overlay(String::from("job_1"), String::from("utada traveling"));

    app.apply_snapshot(
        snapshot(vec![SearchJobSummary {
            job_id: String::from("job_1"),
            status: SearchJobStatus::Completed,
            query: String::from("utada traveling"),
            created_at: String::from("2026-04-24T00:00:00Z"),
            completed_at: Some(String::from("2026-04-24T00:00:05Z")),
            result_count: Some(2),
        }]),
        Some(String::from("evt_1")),
        0,
    );

    assert_eq!(app.take_search_results_request().as_deref(), Some("job_1"));
    assert_eq!(app.status_message, "Refreshing search results...");
}

#[test]
fn state_updated_syncs_current_song_from_queue() {
    let mut app = App::new("127.0.0.1:4100".parse().unwrap());

    app.apply_backend_event(
        BackendEvent {
            event_id: String::from("evt_1"),
            kind: BackendEventKind::StateUpdated(StateSnapshot {
                playback: PlaybackState {
                    state: PlaybackStatus::Playing,
                    position_ms: 0,
                    current_queue_item_id: Some(String::from("queue_item_1")),
                    playback_session_id: Some(String::from("session_1")),
                },
                queue: vec![queue_item("queue_item_1", QueueItemStatus::Playing)],
                ..snapshot(Vec::new())
            }),
        },
        0,
    );

    assert_eq!(
        app.current_song.as_ref().map(|song| song.id.as_str()),
        Some("queue_item_1")
    );
    assert!(!app.playback_progress_confirmed);
}

#[test]
fn playback_progress_adopts_missing_session_id() {
    let mut app = App::new("127.0.0.1:4100".parse().unwrap());
    app.playback.state = PlaybackStatus::Playing;

    app.apply_backend_event(
        BackendEvent {
            event_id: String::from("evt_1"),
            kind: BackendEventKind::PlaybackProgress(PlaybackProgress {
                playback_session_id: String::from("session_1"),
                position_ms: 1_234,
            }),
        },
        0,
    );

    assert_eq!(app.playback.playback_session_id.as_deref(), Some("session_1"));
    assert_eq!(app.playback.position_ms, 1_234);
    assert!(app.playback_progress_confirmed);
}

#[test]
fn playback_progress_ignores_mismatched_session_id() {
    let mut app = App::new("127.0.0.1:4100".parse().unwrap());
    app.playback.playback_session_id = Some(String::from("session_1"));
    app.playback.position_ms = 500;

    app.apply_backend_event(
        BackendEvent {
            event_id: String::from("evt_1"),
            kind: BackendEventKind::PlaybackProgress(PlaybackProgress {
                playback_session_id: String::from("session_2"),
                position_ms: 1_234,
            }),
        },
        0,
    );

    assert_eq!(app.playback.playback_session_id.as_deref(), Some("session_1"));
    assert_eq!(app.playback.position_ms, 500);
    assert!(!app.playback_progress_confirmed);
}

#[test]
fn text_width_counts_display_columns_for_ascii_labels() {
    assert_eq!(text_width("Vol 68%"), 7);
}

#[test]
fn closed_search_does_not_reopen_when_results_arrive_late() {
    let mut app = App::new("127.0.0.1:4100".parse().unwrap());
    app.open_search_overlay(String::from("job_1"), String::from("late result"));

    let _ = app.handle_key(KeyEvent::from(KeyCode::Esc));
    app.apply_search_job_completed(String::from("job_1"), vec![song("song_1")]);

    assert_eq!(app.overlay, Overlay::Closed);
    assert!(app.search_overlay.as_ref().unwrap().closed);
}

#[test]
fn adding_song_clears_query_and_closes_search_overlay() {
    let mut app = App::new("127.0.0.1:4100".parse().unwrap());
    app.input.text = String::from("utada traveling");
    app.input.move_end();
    app.open_search_overlay(String::from("job_1"), String::from("utada traveling"));

    app.apply_command_result(Ok(CommandOutcome::SongQueued(String::from(
        "Added selection to queue.",
    ))));

    assert_eq!(app.overlay, Overlay::Closed);
    assert!(app.search_overlay.is_none());
    assert!(app.input.text.is_empty());
}

// -- input ----------------------------------------------------------------------

#[test]
fn a_line_can_be_edited() {
    let mut input = InputState::default();
    for ch in "añc".chars() {
        input.insert(ch);
    }
    input.move_left();
    input.insert('b');
    assert_eq!(input.text, "añbc");
    input.delete_before_cursor();
    assert_eq!(input.text, "añc");
    input.delete_at_cursor();
    assert_eq!(input.text, "añ");
    input.delete_at_cursor();
    assert_eq!(input.text, "añ");
    input.move_home();
    input.delete_before_cursor();
    assert_eq!(input.text, "añ");
    input.move_right();
    assert_eq!(input.split_for_render(), ("a".to_owned(), "ñ".to_owned()));
    input.move_end();
    input.move_right();
    assert_eq!(input.cursor, 2);
    assert_eq!(input.len_chars(), 2);
    input.clear();
    assert_eq!(input, InputState::default());
}

#[test]
fn keys_edit_the_input() {
    let mut app = App::new("addr".to_owned());
    for code in [
        KeyCode::Char('x'),
        KeyCode::Char('y'),
        KeyCode::Left,
        KeyCode::Backspace,
        KeyCode::Delete,
        KeyCode::Char('z'),
        KeyCode::Home,
        KeyCode::End,
    ] {
        assert_eq!(app.handle_key(KeyEvent::from(code)), AppAction::Nothing);
    }
    assert_eq!(app.input.text, "z");
    app.handle_key(control(KeyCode::Char('x')));
    assert_eq!(app.input.text, "z");
    app.handle_key(KeyEvent {
        code: KeyCode::Char('A'),
        modifiers: KeyModifiers { control: false, shift: true, other: false },
    });
    assert_eq!(app.input.text, "zA");
}

#[test]
fn slash_commands_are_understood() {
    let mut app = App::new("addr".to_owned());
    assert_eq!(app.handle_key(KeyEvent::from(KeyCode::Enter)), AppAction::Nothing);
    assert_eq!(app.status_message, "Enter a search query first.");
    app.input.text = " / exit ".to_owned();
    app.input.move_end();
    assert_eq!(app.handle_key(KeyEvent::from(KeyCode::Enter)), AppAction::Quit);
    app.input.text = "/nope".to_owned();
    app.input.move_end();
    assert_eq!(app.handle_key(KeyEvent::from(KeyCode::Enter)), AppAction::Nothing);
    assert_eq!(app.status_message, "Unknown slash command. Try /help or /exit.");
    assert_eq!(app.status_level, StatusLevel::Warning);
    app.input.text = "/help".to_owned();
    app.input.move_end();
    app.handle_key(KeyEvent::from(KeyCode::Enter));
    assert_eq!(app.overlay, Overlay::Help);
    app.handle_key(KeyEvent::from(KeyCode::Esc));
    assert_eq!(app.overlay, Overlay::Closed);
    app.handle_key(KeyEvent::from(KeyCode::F(1)));
    assert_eq!(app.overlay, Overlay::Help);
    app.handle_key(KeyEvent::from(KeyCode::F(1)));
    assert_eq!(app.overlay, Overlay::Closed);
}

#[test]
fn shortcuts_work_everywhere() {
    let mut app = App::new("addr".to_owned());
    assert_eq!(app.handle_key(control(KeyCode::Char('c'))), AppAction::Quit);
    assert_eq!(
        app.handle_key(control(KeyCode::Char('p'))),
        AppAction::Command(CommandAction::PlayPause)
    );
    assert_eq!(
        app.handle_key(control(KeyCode::Left)),
        AppAction::Command(CommandAction::Previous)
    );
    assert_eq!(
        app.handle_key(control(KeyCode::Right)),
        AppAction::Command(CommandAction::Next)
    );
    assert_eq!(
        app.handle_key(control(KeyCode::Up)),
        AppAction::Command(CommandAction::SetVolume(55))
    );
    app.audio = AudioSettings::new(3);
    assert_eq!(
        app.handle_key(control(KeyCode::Down)),
        AppAction::Command(CommandAction::SetVolume(0))
    );
    assert_eq!(app.handle_key(control(KeyCode::Down)), AppAction::Nothing);
    app.audio = AudioSettings::new(100);
    assert_eq!(app.handle_key(control(KeyCode::Up)), AppAction::Nothing);
}

#[test]
fn items_are_removed_after_a_confirmation() {
    let mut app = App::new("addr".to_owned());
    app.queue = vec![
        queue_item("a", QueueItemStatus::Playing),
        queue_item("b", QueueItemStatus::Queued),
    ];
    app.playback.current_queue_item_id = Some("a".to_owned());
    app.handle_key(control(KeyCode::Char('q')));
    assert_eq!(app.overlay, Overlay::Queue);
    app.handle_key(KeyEvent::from(KeyCode::Char('d')));
    assert_eq!(app.status_message, "Press Enter to remove 'Song b'.");
    assert_eq!(
        queue_footer(&app),
        "Enter confirms delete • Esc or q closes • Ctrl playback keys stay active"
    );
    assert_eq!(
        app.handle_key(KeyEvent::from(KeyCode::Enter)),
        AppAction::Command(CommandAction::RemoveQueueItem("b".to_owned()))
    );
    assert_eq!(app.handle_key(KeyEvent::from(KeyCode::Enter)), AppAction::Nothing);
    app.handle_key(KeyEvent::from(KeyCode::Up));
    assert_eq!(app.queue_selection, 0);
    app.handle_key(KeyEvent::from(KeyCode::Char('d')));
    assert_eq!(app.status_message, "The currently playing item cannot be removed.");
    assert!(!app.pending_delete_confirmation);
    app.handle_key(KeyEvent::from(KeyCode::Char('j')));
    app.handle_key(KeyEvent::from(KeyCode::Down));
    assert_eq!(app.queue_selection, 1);
    app.handle_key(KeyEvent::from(KeyCode::Char('q')));
    assert_eq!(app.overlay, Overlay::Closed);
}

#[test]
fn the_shown_position_moves_on_to_the_end_of_the_song() {
    let mut app = App::new("addr".to_owned());
    app.apply_snapshot(
        StateSnapshot {
            playback: PlaybackState {
                state: PlaybackStatus::Playing,
                position_ms: 1_000,
                current_queue_item_id: Some("a".to_owned()),
                playback_session_id: None,
            },
            queue: vec![queue_item("a", QueueItemStatus::Playing)],
            ..snapshot(Vec::new())
        },
        None,
        500,
    );
    app.tick(1_500);
    assert_eq!(app.display_position_ms, 2_000);
    app.tick(1_000_000);
    assert_eq!(app.display_position_ms, 180_000);
    assert_eq!(app.status_message, "Connected to backend on http://addr");
    app.playback.state = PlaybackStatus::Paused;
    assert_eq!(app.current_display_position_ms(9_000), 1_000);
}

#[test]
fn events_are_dealt_with_by_their_kind() {
    let mut app = App::new("addr".to_owned());
    let action = app.handle_event(AppEvent::Input(control(KeyCode::Char('c'))), 0);
    assert_eq!(action, AppAction::Quit);
    app.handle_event(AppEvent::ConnectionStatus("lost".to_owned()), 0);
    assert_eq!(app.status_message, "lost");
    app.handle_event(
        AppEvent::Backend(BackendEvent {
            event_id: "evt_7".to_owned(),
            kind: BackendEventKind::SystemError(SystemError {
                code: "c".to_owned(),
                message: "broken".to_owned(),
                severity: SystemErrorSeverity::Error,
                context: None,
            }),
        }),
        0,
    );
    assert_eq!(app.status_level, StatusLevel::Error);
    assert_eq!(app.last_event_id().as_deref(), Some("evt_7"));
    app.handle_event(AppEvent::CommandResult(Err("no".to_owned())), 0);
    assert_eq!(app.status_message, "no");
    app.handle_event(
        AppEvent::SearchResults(SearchResultsOutcome::Failed {
            job_id: "job_1".to_owned(),
            message: "gone".to_owned(),
        }),
        0,
    );
    assert!(app.pending_search_terminal.is_some());
    app.handle_event(
        AppEvent::Snapshot(SnapshotSeed {
            snapshot: snapshot(Vec::new()),
            current_event_id: Some("evt_9".to_owned()),
        }),
        0,
    );
    assert_eq!(app.last_event_id().as_deref(), Some("evt_9"));
}

// -- what is shown ------------------------------------------------------------------

#[test]
fn durations_are_minutes_and_seconds() {
    assert_eq!(format_duration(0), "0:00");
    assert_eq!(format_duration(61_999), "1:01");
    assert_eq!(format_duration(3_600_000), "60:00");
}

#[test]
fn a_bar_has_brackets_round_its_parts() {
    assert_eq!(progress_bar(2, 6), vec!["[", "━━", "──", "]"]);
    assert_eq!(progress_bar(9, 4), vec!["[", "━━", "", "]"]);
    assert!(progress_bar(1, 0).is_empty());
    assert_eq!(progress_bar(1, 1), vec!["["]);
    assert_eq!(progress_bar(1, 2), vec!["[]"]);
}

#[test]
fn the_playback_widget_shows_the_song() {
    let mut app = App::new("addr".to_owned());
    let shown = now_playing(&app);
    assert_eq!(shown.title, "Nothing queued yet");
    assert_eq!(shown.state_label, "Stopped");
    assert_eq!(shown.time_label, "0:00 / 0:00");
    assert_eq!(shown.duration_ms, 1);
    app.current_song = Some(song("a"));
    app.display_position_ms = 61_000;
    app.playback.state = PlaybackStatus::Playing;
    let shown = now_playing(&app);
    assert_eq!(shown.title, "Song a");
    assert_eq!(shown.volume_label, "Vol 50%");
    assert_eq!(shown.time_label, "1:01 / 3:00");
    assert_eq!(reserved_time_width(&shown.time_label, 80), 12);
    assert_eq!(reserved_time_width(&shown.time_label, 5), 5);
    assert_eq!(backend_label(&app), "starting (unknown)");
}

#[test]
fn the_queue_is_shown_in_short() {
    let mut app = App::new("addr".to_owned());
    assert_eq!(queue_summary(&app).note.as_deref(), Some("Queue is empty."));
    assert!(input_hint(&app).starts_with("Summon"));
    for i in 0..10 {
        app.queue.push(queue_item(&format!("i{i}"), QueueItemStatus::Queued));
    }
    app.queue[1].status = QueueItemStatus::Failed;
    app.playback.current_queue_item_id = Some("i0".to_owned());
    let summary = queue_summary(&app);
    assert_eq!(summary.rows.len(), 8);
    assert_eq!(summary.rows[0].marker, "▶");
    assert_eq!(summary.rows[1].marker, "!");
    assert_eq!(summary.rows[2].marker, "•");
    assert_eq!(
        summary.note.as_deref(),
        Some("… and 2 more items. Open Queue with Ctrl+Q.")
    );
    let row = queue_row(&app, &app.queue[2]);
    assert_eq!(row.title, "Song i2");
    assert_eq!(row.detail, "Channel • 3:00");
    assert!(input_hint(&app).starts_with("Enter searches"));
}

#[test]
fn a_search_shows_its_results() {
    let mut app = App::new("addr".to_owned());
    assert!(search_panel(&app).is_none());
    app.open_search_overlay("job_1".to_owned(), "utada".to_owned());
    let panel = search_panel(&app).unwrap();
    assert_eq!(panel.query, "utada");
    assert_eq!(panel.heading, "Looking up candidates on the backend...");
    app.apply_search_job_completed("job_1".to_owned(), vec![song("a"), song("b")]);
    let panel = search_panel(&app).unwrap();
    let SearchBody::Results { rows, selected } = panel.body else {
        panic!("expected results");
    };
    assert_eq!(selected, 0);
    assert_eq!(rows[0].detail.as_deref(), Some("Channel • 3:00"));
    assert_eq!(rows[1].detail, None);
    app.apply_search_job_failed("job_1".to_owned(), "broken".to_owned());
    let panel = search_panel(&app).unwrap();
    assert_eq!(panel.body, SearchBody::Failure("broken".to_owned()));
    assert_eq!(panel.footer, "Enter, Esc, or q closes • query clears on close");
}

// -- the client ---------------------------------------------------------------------

fn accepted(job_id: Option<&str>) -> HttpReply<CommandAccepted> {
    HttpReply::Success {
        payload: CommandAccepted {
            ok: true,
            command_id: "cmd_1".to_owned(),
            accepted_at: None,
            job_id: job_id.map(str::to_owned),
            queue_item_id: None,
        },
    }
}

fn problem(kind: &str) -> ProblemDetails {
    ProblemDetails {
        kind: kind.to_owned(),
        title: "t".to_owned(),
        status: 409,
        detail: "detail".to_owned(),
        instance: None,
        errors: Vec::new(),
    }
}

#[test]
fn commands_are_sent_and_answered() {
    assert_eq!(
        command_request(&CommandAction::Search("q".to_owned())),
        ("/api/v1/commands/search", CommandBody::Search { query: "q".to_owned() })
    );
    assert_eq!(
        command_request(&CommandAction::Previous),
        ("/api/v1/commands/playback/previous", CommandBody::Empty)
    );
    assert_eq!(
        command_outcome(CommandAction::Search("q".to_owned()), accepted(Some("job_1"))),
        Ok(CommandOutcome::SearchSubmitted { job_id: "job_1".to_owned(), query: "q".to_owned() })
    );
    assert_eq!(
        command_outcome(CommandAction::Search("q".to_owned()), accepted(None)),
        Err("search command was accepted but no job id was returned".to_owned())
    );
    assert_eq!(
        command_outcome(CommandAction::SetVolume(65), accepted(None)),
        Ok(CommandOutcome::StatusMessage("Volume set to 65%.".to_owned()))
    );
    assert_eq!(
        command_outcome(CommandAction::AddSong("s".to_owned()), accepted(None)),
        Ok(CommandOutcome::SongQueued("Added selection to queue.".to_owned()))
    );
}

#[test]
fn failed_requests_say_why() {
    for (reply, message) in [
        (
            HttpReply::NotSent { detail: "x".to_owned() },
            "request to /api/v1/commands/playback/next failed: x",
        ),
        (
            HttpReply::Garbled { detail: "x".to_owned() },
            "command response from /api/v1/commands/playback/next was invalid: x",
        ),
        (HttpReply::Refused { problem: problem("k") }, "detail"),
        (
            HttpReply::GarbledRefusal { detail: "x".to_owned() },
            "request to /api/v1/commands/playback/next failed with undecodable error: x",
        ),
    ] {
        assert_eq!(command_outcome(CommandAction::Next, reply), Err(message.to_owned()));
    }
    let reply: HttpReply<SearchResultsResponse> = HttpReply::Garbled { detail: "x".to_owned() };
    assert_eq!(
        search_results_outcome("job_1", reply),
        SearchResultsOutcome::Failed {
            job_id: "job_1".to_owned(),
            message: "search results response from /api/v1/search/results/job_1 was invalid: x"
                .to_owned(),
        }
    );
}

#[test]
fn an_expired_cursor_leads_to_a_refresh() {
    let cursor = Some("evt_missing".to_owned());
    let step = stream_step(
        cursor.clone(),
        StreamInput::Refused {
            status: "409 Conflict".to_owned(),
            problem: problem(EVENT_CURSOR_NOT_FOUND_TYPE),
        },
    );
    assert!(matches!(step, StreamStep::Refresh));
    let step = stream_step(
        cursor.clone(),
        StreamInput::Refreshed { current_event_id: Some("evt_latest".to_owned()) },
    );
    let StreamStep::HandOverSnapshot { cursor: reached } = step else {
        panic!("expected the snapshot to be handed over");
    };
    assert_eq!(reached.as_deref(), Some("evt_latest"));
    let step = stream_step(
        cursor,
        StreamInput::Refused { status: "500".to_owned(), problem: problem("other") },
    );
    let StreamStep::Fail { error } = step else {
        panic!("expected a failure");
    };
    assert_eq!(error.describe(), "event stream failed with status 500: detail");
}

#[test]
fn events_move_the_cursor() {
    let step = stream_step(
        None,
        StreamInput::Event { event_id: "evt_2".to_owned(), decoded: Some(Ok(())) },
    );
    let StreamStep::HandOverEvent { cursor } = step else {
        panic!("expected the event to be handed over");
    };
    let step = stream_step(
        cursor,
        StreamInput::Event { event_id: "evt_3".to_owned(), decoded: None },
    );
    let StreamStep::GoOn { cursor } = step else {
        panic!("expected the stream to go on");
    };
    let StreamStep::Finish { cursor } = stream_step(cursor, StreamInput::Ended) else {
        panic!("expected the end");
    };
    assert_eq!(cursor.as_deref(), Some("evt_3"));
    let (next, message) = reconnect(None, Ok(cursor));
    assert_eq!(next.as_deref(), Some("evt_3"));
    assert_eq!(message, "Event stream disconnected. Reconnecting...");
    let (next, message) = reconnect(
        Some("evt_1".to_owned()),
        Err(TuiError::new("broken".to_owned())),
    );
    assert_eq!(next.as_deref(), Some("evt_1"));
    assert_eq!(message, "Event stream error: broken. Reconnecting...");
}

#[test]
fn broken_streams_say_why() {
    for (input, message) in [
        (
            StreamInput::BadCursor { detail: "x".to_owned() },
            "invalid Last-Event-ID header value: x",
        ),
        (
            StreamInput::NotConnected { detail: "x".to_owned() },
            "failed to connect to event stream: x",
        ),
        (
            StreamInput::GarbledRefusal { status: "500".to_owned(), detail: "x".to_owned() },
            "event stream failed with status 500 and undecodable error: x",
        ),
        (
            StreamInput::RefreshFailed { detail: "x".to_owned() },
            "event cursor expired and snapshot refresh failed: x",
        ),
        (StreamInput::Broken { detail: "x".to_owned() }, "event stream error: x"),
        (
            StreamInput::GarbledEvent { data: "d".to_owned(), detail: "x".to_owned() },
            "failed to decode SSE payload 'd': x",
        ),
    ] {
        let StreamStep::Fail { error } = stream_step(None, input) else {
            panic!("expected a failure");
        };
        assert_eq!(error.describe(), message);
    }
    assert_eq!(known_event("search.job.failed"), Some(KnownEvent::SearchJobFailed));
    assert_eq!(known_event("queue.updated"), None);
    assert_eq!(
        event_decode_error(KnownEvent::StateUpdated, "x").describe(),
        "failed to decode state.updated: x"
    );
}

#[test]
fn a_starting_backend_is_waited_for() {
    assert!(matches!(ready_step(1, ReadyProbe::Silent), ReadyStep::Retry));
    assert!(matches!(
        ready_step(1, ReadyProbe::Answered { ready: false }),
        ReadyStep::Retry
    ));
    assert!(matches!(
        ready_step(READY_ATTEMPTS, ReadyProbe::Answered { ready: true }),
        ReadyStep::Ready
    ));
    let ReadyStep::Fail { error } = ready_step(READY_ATTEMPTS, ReadyProbe::Silent) else {
        panic!("expected a failure");
    };
    assert_eq!(error.describe(), "backend did not become ready within 5 seconds");
    let ReadyStep::Fail { error } =
        ready_step(1, ReadyProbe::Exited { status: "exit status: 1".to_owned() })
    else {
        panic!("expected a failure");
    };
    assert_eq!(error.describe(), "backend exited before becoming ready: exit status: 1");
}

#[test]
fn the_errors_of_the_backend_are_shown_on_demand() {
    assert!(backend_stderr_is_shown(Some(" TRUE ")));
    assert!(backend_stderr_is_shown(Some("1")));
    assert!(backend_stderr_is_shown(Some("inherit")));
    assert!(!backend_stderr_is_shown(Some("0")));
    assert!(!backend_stderr_is_shown(None));
}
