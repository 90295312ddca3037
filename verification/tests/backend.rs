use nocturne::address::{configured_bind_addr, validate_bind_addr, BindAddr, HostAddr};
use nocturne::api::{ApiVersion, EventName, ServerEvent, SystemErrorSeverity as ApiSeverity};
use nocturne::audio::{LocalPlaybackAdapter, PlaybackWorkerEvent, WorkerCommand, WorkerRequest};
use nocturne::clock::LocalClock;
use nocturne::domain::{AudioSettings, PlaybackStatus, Song};
use nocturne::events::{EventCursorError, LocalEventLog, LocalEventPublisher};
use nocturne::ids::LocalIdGenerator;
use nocturne::mapping::{
    map_core_error, map_cursor_error, map_event_envelope, map_json_rejection, BodyRejection,
};
use nocturne::models::{
    BackendState, CoreEvent, CoreEventEnvelope, CoreEventKind, SearchJobStatus, SystemErrorEvent,
    SystemErrorSeverity, YoutubeImportJobStatus,
};
use nocturne::orchestrator::{CoreError, Orchestrator};
use nocturne::ports::{EventPublisherPort, PortError};
use nocturne::profile::{InfrastructureProfile, NocturneCore};
use nocturne::search::{
    ImportPlan, LocalSearchAdapter, LocalSearchRuntime, SearchPlan, YoutubeImportResolution,
};
use nocturne::server::{
    check_import_request, health_response, search_results_response, serve, serve_import,
    volume_save_warning,
    ReplayedIds, ServerCommand,
};
use nocturne::workers::{
    bridge_playback_event, core_error_code, import_completion_failure, import_step,
    report_playback_command_error, search_worker_delay, settle_import, settle_search,
    user_message_for_playback_failure, user_message_for_playback_interruption,
    user_message_for_search_failure, user_message_for_youtube_import_completion_error,
    user_message_for_youtube_import_failure, ImportAnswer, ImportStep, SearchAnswer,
};
use nocturne::youtube::LocalSearchFailure;

type BackendOrchestrator = Orchestrator<
    LocalClock,
    LocalIdGenerator,
    LocalEventPublisher,
    LocalPlaybackAdapter,
    LocalSearchAdapter,
>;

fn backend() -> BackendOrchestrator {
    Orchestrator::new(
        LocalClock::new(),
        LocalIdGenerator::new(),
        LocalEventPublisher::new(LocalEventLog::default()),
        LocalPlaybackAdapter::new(),
        LocalSearchAdapter::new(LocalSearchRuntime::default()),
    )
}

fn song(id: &str) -> Song {
    Song {
        id: id.to_owned(),
        title: format!("Song {id}"),
        channel_name: String::from("Fixture Channel"),
        duration_ms: 123_000,
        source_url: format!("https://example.com/{id}"),
    }
}

fn system_errors(orchestrator: &mut BackendOrchestrator) -> Vec<(String, String)> {
    orchestrator
        .event_port()
        .log()
        .snapshot()
        .into_iter()
        .filter_map(|event| match event.data {
            CoreEvent::SystemError(error) => Some((error.code, error.message)),
            _ => None,
        })
        .collect()
}

#[test]
fn validate_bind_addr_rejects_non_loopback_addresses() {
    let addr = BindAddr { host: HostAddr::V4 { octets: [0, 0, 0, 0] }, port: 8080 };
    assert!(validate_bind_addr(addr, "0.0.0.0:8080").is_err());

    let loopback_addr = BindAddr { host: HostAddr::V4 { octets: [127, 0, 0, 1] }, port: 8080 };
    assert_eq!(
        validate_bind_addr(loopback_addr, "127.0.0.1:8080").unwrap(),
        loopback_addr
    );
}

#[test]
fn configured_addresses_stay_on_this_machine() {
    let v6 = BindAddr { host: HostAddr::V6 { segments: [0, 0, 0, 0, 0, 0, 0, 1] }, port: 0 };
    assert_eq!(configured_bind_addr(v6, "[::1]:0").unwrap(), v6);
    let other = BindAddr { host: HostAddr::V6 { segments: [1, 0, 0, 0, 0, 0, 0, 1] }, port: 1 };
    assert_eq!(
        configured_bind_addr(other, "[1::1]:1").unwrap_err(),
        "NOCTURNE_BACKEND_ADDR must use a loopback address, got [1::1]:1"
    );
    assert_eq!(
        validate_bind_addr(other, "[1::1]:1").unwrap_err(),
        "NOCTURNE_BACKEND_ADDR must stay on loopback, got [1::1]:1"
    );
}

fn report_port_error(orchestrator: &mut BackendOrchestrator) -> SystemErrorEvent {
    report_playback_command_error(
        orchestrator,
        &CoreError::Port {
            code: String::from("audio_output_unavailable"),
            message: String::from("hidden detail"),
        },
    )
    .unwrap();

    let snapshot = orchestrator.event_port().log().snapshot();
    snapshot
        .into_iter()
        .find_map(|event| match event.data {
            CoreEvent::SystemError(system_error) => Some(system_error),
            _ => None,
        })
        .expect("expected a system.error event")
}

#[test]
fn main_playback_port_errors_emit_user_visible_system_errors() {
    let mut orchestrator = backend();
    let system_error = report_port_error(&mut orchestrator);

    assert_eq!(system_error.code, "audio_output_unavailable");
    assert_eq!(
        system_error.message,
        "Audio output is unavailable on the backend."
    );
    assert_eq!(system_error.severity, SystemErrorSeverity::Error);
}

#[test]
fn workers_playback_port_errors_emit_user_visible_system_errors() {
    let mut orchestrator = backend();
    let system_error = report_port_error(&mut orchestrator);

    assert_eq!(system_error.code, "audio_output_unavailable");
    assert_eq!(
        system_error.message,
        "Audio output is unavailable on the backend."
    );
    assert_eq!(system_error.severity, SystemErrorSeverity::Error);
}

#[test]
fn other_command_errors_are_told_to_nobody() {
    let mut orchestrator = backend();
    report_playback_command_error(&mut orchestrator, &CoreError::conflict("c", "m")).unwrap();
    assert!(orchestrator.event_port().log().is_empty());
}

#[test]
fn core_events_map_to_api_envelopes() {
    let envelope = map_event_envelope(CoreEventEnvelope::new(
        String::from("evt_0001"),
        CoreEventKind::SystemError,
        String::from("2026-04-23T12:34:56Z"),
        CoreEvent::SystemError(SystemErrorEvent {
            code: String::from("test_error"),
            message: String::from("test message"),
            severity: SystemErrorSeverity::Error,
        }),
    ));

    assert_eq!(envelope.event_id, "evt_0001");
    assert_eq!(envelope.event, EventName::SystemError.name());
    let ServerEvent::SystemError(data) = envelope.data else {
        panic!("expected a system error");
    };
    assert_eq!(data.code, "test_error");
    assert_eq!(data.severity, ApiSeverity::Error);
}

#[test]
fn validation_errors_map_to_problem_details() {
    let (status, body) = map_core_error(
        CoreError::validation("empty_query", "query must not be empty"),
        "/api/v1/commands/search",
    );

    assert_eq!(status, 422);
    assert_eq!(body.detail, "query must not be empty");
}

#[test]
fn every_error_has_its_status() {
    let (status, body) = map_core_error(CoreError::not_found("song", "x"), "/p");
    assert_eq!(status, 404);
    assert_eq!(body.kind, "https://nocturne.local/problems/song-not-found");
    assert_eq!(body.detail, "song 'x' was not found.");
    assert_eq!(map_core_error(CoreError::conflict("c", "m"), "/p").0, 409);
    let port = CoreError::Port { code: "c".to_owned(), message: "m".to_owned() };
    assert_eq!(map_core_error(port, "/p").0, 502);
    assert_eq!(map_cursor_error(EventCursorError::CursorNotFound).0, 409);
    for (rejection, status) in [
        (BodyRejection::SyntaxError, 400),
        (BodyRejection::DataError, 422),
        (BodyRejection::MissingContentType, 415),
        (BodyRejection::BytesRejected, 400),
    ] {
        let (found, body) = map_json_rejection(rejection, "d", "/p");
        assert_eq!(found, status);
        assert_eq!(body.instance.as_deref(), Some("/p"));
    }
}

#[test]
fn commands_are_served() {
    let mut orchestrator = backend();
    let reply = serve(&mut orchestrator, &ServerCommand::Search { query: "utada".to_owned() });
    let (status, accepted) = reply.answer.unwrap();
    assert_eq!(status, 202);
    assert!(accepted.ok);
    let job_id = accepted.job_id.unwrap();
    assert_eq!(
        search_results_response(&orchestrator, &job_id).unwrap_err().1.detail,
        format!("No completed search results were found for job '{job_id}'.")
    );
    settle_search(&mut orchestrator, &job_id, SearchAnswer::Songs(vec![song("s1")]));
    let found = search_results_response(&orchestrator, &job_id).unwrap();
    assert_eq!(found.results.len(), 1);
    let add = ServerCommand::QueueAdd { song_id: "s1".to_owned() };
    assert!(serve(&mut orchestrator, &add).answer.is_ok());
    assert!(serve(&mut orchestrator, &ServerCommand::PlayPause).answer.is_ok());
    assert_eq!(orchestrator.state().playback().state, PlaybackStatus::Playing);
    assert!(serve(&mut orchestrator, &ServerCommand::Seek { position_ms: 5 }).answer.is_ok());
    assert!(serve(&mut orchestrator, &ServerCommand::Pause).answer.is_ok());
    assert!(serve(&mut orchestrator, &ServerCommand::Play).answer.is_ok());
    assert!(serve(&mut orchestrator, &ServerCommand::Stop).answer.is_ok());
    assert!(serve(&mut orchestrator, &ServerCommand::QueueClear).answer.is_ok());
    assert!(orchestrator.queue().is_empty());
}

#[test]
fn refused_commands_are_answered_and_change_nothing() {
    let mut orchestrator = backend();
    let reply = serve(&mut orchestrator, &ServerCommand::Search { query: " ".to_owned() });
    let (status, problem) = reply.answer.unwrap_err();
    assert_eq!(status, 422);
    assert_eq!(problem.instance.as_deref(), Some("/api/v1/commands/search"));
    assert!(reply.told.is_none());
    let remove = ServerCommand::QueueRemove { queue_item_id: "nope".to_owned() };
    assert_eq!(serve(&mut orchestrator, &remove).answer.unwrap_err().0, 404);
    let moved = ServerCommand::QueueMove { queue_item_id: "nope".to_owned(), to_index: 0 };
    assert_eq!(serve(&mut orchestrator, &moved).answer.unwrap_err().0, 404);
    assert_eq!(serve(&mut orchestrator, &ServerCommand::Next).answer.unwrap_err().0, 409);
    assert!(orchestrator.event_port().log().is_empty());
}

#[test]
fn a_lost_player_is_told_to_everybody() {
    let mut orchestrator = backend();
    orchestrator.enqueue_song(song("s1")).unwrap();
    orchestrator.playback_port().lose_worker();
    let reply = serve(&mut orchestrator, &ServerCommand::Play);
    assert_eq!(reply.answer.unwrap_err().0, 502);
    assert!(reply.told.unwrap().is_ok());
    assert_eq!(
        system_errors(&mut orchestrator),
        vec![(
            "playback_worker_unavailable".to_owned(),
            "The backend playback worker is unavailable.".to_owned()
        )]
    );
}

#[test]
fn searches_are_settled_by_their_worker() {
    let mut orchestrator = backend();
    orchestrator.search_port().runtime().set_fixture("worker fixture", vec![song("w1")]);
    let job_id = orchestrator.submit_search("worker fixture").unwrap().job_id.unwrap();
    let pending = orchestrator.search_port().runtime().drain_pending();
    assert_eq!(pending.len(), 1);
    let SearchPlan::Answered(Ok(songs)) =
        orchestrator.search_port().runtime().resolve(&pending[0].query)
    else {
        panic!("expected prepared songs");
    };
    settle_search(&mut orchestrator, &pending[0].job_id, SearchAnswer::Songs(songs));
    let results = orchestrator.search_results(&job_id).unwrap();
    assert_eq!(results.job.status, SearchJobStatus::Completed);
    assert_eq!(results.results[0].title, "Song w1");
}

#[test]
fn a_missing_provider_is_told_to_everybody() {
    let mut orchestrator = backend();
    let job_id = orchestrator.submit_search("q").unwrap().job_id.unwrap();
    let failure = LocalSearchFailure::new("yt_dlp_missing", "hidden internal detail");
    let settlement = settle_search(&mut orchestrator, &job_id, SearchAnswer::Failure(failure));
    assert!(settlement.recorded.is_ok());
    assert!(settlement.told.unwrap().is_ok());
    assert_eq!(
        system_errors(&mut orchestrator),
        vec![(
            "yt_dlp_missing".to_owned(),
            "yt-dlp is not installed for this backend.".to_owned()
        )]
    );
    let job_id = orchestrator.submit_search("q").unwrap().job_id.unwrap();
    let failure = LocalSearchFailure::new("yt_dlp_failed", "detail");
    let settlement = settle_search(&mut orchestrator, &job_id, SearchAnswer::Failure(failure));
    assert!(settlement.told.is_none());
    let job_id = orchestrator.submit_search("q").unwrap().job_id.unwrap();
    let lost = SearchAnswer::WorkerLost { detail: "panicked".to_owned() };
    assert!(settle_search(&mut orchestrator, &job_id, lost).recorded.is_ok());
}

fn current_session_id(orchestrator: &BackendOrchestrator) -> String {
    let session = orchestrator.state().playback().playback_session_id.clone();
    session.expect("expected playback session id")
}

fn playing() -> (BackendOrchestrator, String, String) {
    let mut orchestrator = backend();
    let receipt = orchestrator.enqueue_song(song("interrupted-song")).unwrap();
    let queue_item_id = receipt.queue_item_id.unwrap();
    let session = current_session_id(&orchestrator);
    orchestrator.confirm_playback_started(&session, &queue_item_id, 321).unwrap();
    (orchestrator, queue_item_id, session)
}

#[test]
fn workers_interrupted_playback_event_stops_playback_and_emits_system_error() {
    let (mut orchestrator, queue_item_id, playback_session_id) = playing();
    let event = PlaybackWorkerEvent::Interrupted {
        playback_session_id,
        queue_item_id,
        code: String::from("audio_output_changed"),
        message: String::from("recovery failed after device loss"),
    };
    bridge_playback_event(&mut orchestrator, &event);
    assert_eq!(orchestrator.state().playback().state, PlaybackStatus::Stopped);
    assert!(orchestrator.state().playback().current_queue_item_id.is_none());
    assert_eq!(
        system_errors(&mut orchestrator),
        vec![(
            "audio_output_changed".to_owned(),
            "Audio output changed. Playback stopped, and the next play will use the current default device."
                .to_owned()
        )]
    );
}

#[test]
fn workers_interrupted_stream_error_emits_generic_audio_output_message() {
    let (mut orchestrator, queue_item_id, playback_session_id) = playing();
    let event = PlaybackWorkerEvent::Interrupted {
        playback_session_id,
        queue_item_id,
        code: String::from("audio_output_stream_lost"),
        message: String::from("stream error: device disappeared"),
    };
    bridge_playback_event(&mut orchestrator, &event);
    assert_eq!(
        system_errors(&mut orchestrator),
        vec![(
            "audio_output_stream_lost".to_owned(),
            "Playback stopped because the backend lost its audio output stream. Try playing again."
                .to_owned()
        )]
    );
}

#[test]
fn queue_queue_remove_endpoint_rejects_current_item() {
    let (mut orchestrator, queue_item_id, _) = playing();
    let reply = serve(&mut orchestrator, &ServerCommand::QueueRemove { queue_item_id });
    let (status, problem) = reply.answer.unwrap_err();
    assert_eq!(status, 409);
    assert_eq!(
        problem.kind,
        "https://nocturne.local/problems/current_queue_item_not_removable"
    );
}

#[test]
fn queue_queue_move_endpoint_reorders_items() {
    let mut orchestrator = backend();
    orchestrator.enqueue_song(song("song_a")).unwrap();
    let second_id = orchestrator.enqueue_song(song("song_b")).unwrap().queue_item_id.unwrap();
    let session = current_session_id(&orchestrator);
    assert_eq!(
        orchestrator.confirm_playback_started(&session, "queue_item_0001", 0),
        Ok(true)
    );
    orchestrator.stop().unwrap();
    let moved = ServerCommand::QueueMove { queue_item_id: second_id, to_index: 0 };
    assert_eq!(serve(&mut orchestrator, &moved).answer.unwrap().0, 202);
    assert_eq!(orchestrator.queue()[0].song.id, "song_b");
    assert_eq!(orchestrator.queue()[1].song.id, "song_a");
}

#[test]
fn playback_playback_seek_endpoint_updates_position() {
    let mut orchestrator = backend();
    orchestrator.enqueue_song(song("song_a")).unwrap();
    let session = current_session_id(&orchestrator);
    orchestrator.confirm_playback_started(&session, "queue_item_0001", 0).unwrap();
    let seek = ServerCommand::Seek { position_ms: 321 };
    assert_eq!(serve(&mut orchestrator, &seek).answer.unwrap().0, 202);
    assert_eq!(orchestrator.state().playback().position_ms, 321);
}

#[test]
fn an_added_song_is_loading_at_once() {
    let mut orchestrator = backend();
    orchestrator.enqueue_song(song("song_a")).unwrap();
    assert_eq!(orchestrator.state().playback().state, PlaybackStatus::Loading);
    assert_eq!(
        orchestrator.state().playback().current_queue_item_id.as_deref(),
        Some("queue_item_0001")
    );
}

#[test]
fn an_interruption_stops_playback_and_is_told() {
    let (mut orchestrator, queue_item_id, playback_session_id) = playing();
    let interrupted = |playback_session_id| PlaybackWorkerEvent::Interrupted {
        playback_session_id,
        queue_item_id: queue_item_id.clone(),
        code: String::from("audio_output_changed"),
        message: String::from("recovery failed after device loss"),
    };
    let stale = interrupted("another session".to_owned());
    assert!(bridge_playback_event(&mut orchestrator, &stale).stopped.is_none());
    assert_eq!(orchestrator.state().playback().state, PlaybackStatus::Playing);
    bridge_playback_event(&mut orchestrator, &interrupted(playback_session_id));
    assert!(orchestrator.state().playback().playback_session_id.is_none());
    assert_eq!(orchestrator.state().playback().state, PlaybackStatus::Stopped);
    assert!(orchestrator.state().playback().current_queue_item_id.is_none());
    assert_eq!(
        system_errors(&mut orchestrator),
        vec![(
            "audio_output_changed".to_owned(),
            "Audio output changed. Playback stopped, and the next play will use the current default device."
                .to_owned()
        )]
    );
}

#[test]
fn progress_and_ends_are_taken_over() {
    let (mut orchestrator, queue_item_id, session) = playing();
    let progress = |paused| PlaybackWorkerEvent::Progress {
        playback_session_id: session.clone(),
        position_ms: 654,
        paused,
    };
    assert!(bridge_playback_event(&mut orchestrator, &progress(true))
        .noted
        .is_none());
    bridge_playback_event(&mut orchestrator, &progress(false));
    assert_eq!(orchestrator.state().playback().position_ms, 654);
    let told = orchestrator.event_port().log().snapshot().pop().unwrap();
    assert_eq!(told.event, "playback.progress");
    assert!(matches!(
        told.data,
        CoreEvent::PlaybackProgress(progress)
            if progress.playback_session_id == session && progress.position_ms == 654
    ));
    let started = PlaybackWorkerEvent::Started {
        playback_session_id: session.clone(),
        queue_item_id: queue_item_id.clone(),
        position_ms: 0,
    };
    assert!(bridge_playback_event(&mut orchestrator, &started).noted.is_none());
    let ended = PlaybackWorkerEvent::Ended {
        playback_session_id: session.clone(),
        queue_item_id,
        position_ms: 9,
    };
    bridge_playback_event(&mut orchestrator, &ended);
    assert_eq!(orchestrator.state().playback().state, PlaybackStatus::Stopped);
    assert!(bridge_playback_event(&mut orchestrator, &ended).noted.is_none());
}

#[test]
fn a_start_is_taken_over() {
    let mut orchestrator = backend();
    orchestrator.enqueue_song(song("song_a")).unwrap();
    let started = PlaybackWorkerEvent::Started {
        playback_session_id: current_session_id(&orchestrator),
        queue_item_id: "queue_item_0001".to_owned(),
        position_ms: 7,
    };
    let outcome = bridge_playback_event(&mut orchestrator, &started);
    assert!(matches!(outcome.noted, Some(Ok(()))));
    assert_eq!(orchestrator.state().playback().state, PlaybackStatus::Playing);
    assert_eq!(orchestrator.state().playback().position_ms, 7);
    let told = orchestrator.event_port().log().snapshot().pop().unwrap();
    let CoreEvent::StateUpdated(update) = told.data else {
        panic!("expected the whole state");
    };
    assert_eq!(update.snapshot.playback, *orchestrator.state().playback());
}

#[test]
fn a_failed_start_stops_playback_and_is_told() {
    let mut orchestrator = backend();
    let receipt = orchestrator.enqueue_song(song("song_a")).unwrap();
    let queue_item_id = receipt.queue_item_id.unwrap();
    let session = current_session_id(&orchestrator);
    let failed = PlaybackWorkerEvent::StartFailed {
        playback_session_id: session.clone(),
        queue_item_id,
        code: "playback_decode_failed".to_owned(),
        message: "hidden".to_owned(),
    };
    bridge_playback_event(&mut orchestrator, &failed);
    assert_eq!(orchestrator.state().playback().state, PlaybackStatus::Stopped);
    assert_eq!(
        system_errors(&mut orchestrator)[0].1,
        "The backend could not load audio for playback."
    );
}

#[test]
fn imports_are_completed_or_failed() {
    let failure = LocalSearchFailure::new("yt_dlp_timeout", "d");
    let ImportStep::Fail(fault) = import_step(ImportAnswer::Failure(failure)) else {
        panic!("expected a failure");
    };
    assert_eq!(fault.code, "yt_dlp_timeout");
    assert_eq!(fault.message, "YouTube URL resolution timed out.");
    assert!(fault.announced);
    let ImportStep::Fail(lost) =
        import_step(ImportAnswer::WorkerLost { detail: "gone".to_owned() })
    else {
        panic!("expected a failure");
    };
    assert!(!lost.announced);
    let port = CoreError::Port {
        code: "audio_output_unavailable".to_owned(),
        message: "m".to_owned(),
    };
    let fault = import_completion_failure(&port);
    assert_eq!(fault.message, "Audio output is unavailable on the backend.");
    assert!(fault.announced);
    let conflict = CoreError::conflict("youtube_import_empty", "m");
    assert!(!import_completion_failure(&conflict).announced);
    assert_eq!(core_error_code(&CoreError::not_found("song", "x")), "song");
    assert_eq!(
        user_message_for_youtube_import_completion_error(&conflict),
        "The backend did not find any playable videos for this YouTube URL."
    );
    assert_eq!(search_worker_delay(0), 100);
    assert_eq!(search_worker_delay(3), 10);
}

const IMPORT_URL: &str = "https://www.youtube.com/watch?v=tuyZ9f6mHZk";

fn resolution(songs: Vec<Song>, total_count: u64, failed_count: u64) -> ImportAnswer {
    ImportAnswer::Resolved(YoutubeImportResolution {
        canonical_url: IMPORT_URL.to_owned(),
        songs,
        total_count,
        failed_count,
    })
}

fn event_names(orchestrator: &mut BackendOrchestrator) -> Vec<String> {
    let log = orchestrator.event_port().log().snapshot();
    log.into_iter().map(|event| event.event).collect()
}

fn traveling() -> Song {
    Song {
        id: String::from("youtube:tuyZ9f6mHZk"),
        title: String::from("traveling"),
        channel_name: String::from("Hikaru Utada"),
        duration_ms: 295_000,
        source_url: String::from(IMPORT_URL),
    }
}

/// Settles every import that waits, with what the runtime knows of it.
fn process_imports(orchestrator: &mut BackendOrchestrator) -> usize {
    let pending = orchestrator.search_port().runtime().drain_pending_youtube_imports();
    for job in &pending {
        let answer = match orchestrator.search_port().runtime().resolve_youtube_url(&job.url) {
            ImportPlan::Answered(Ok(found)) => ImportAnswer::Resolved(found),
            ImportPlan::Answered(Err(failure)) => ImportAnswer::Failure(failure),
            ImportPlan::AskProvider { .. } => panic!("expected a known answer"),
        };
        settle_import(orchestrator, &job.job_id, answer);
    }
    pending.len()
}

#[test]
fn pending_youtube_import_jobs_are_completed_by_worker_helper() {
    let mut orchestrator = backend();
    orchestrator.search_port().runtime().set_fixture(IMPORT_URL, vec![traveling()]);
    orchestrator.submit_youtube_import(IMPORT_URL).unwrap();

    assert_eq!(process_imports(&mut orchestrator), 1);

    assert_eq!(orchestrator.queue().len(), 1);
    assert_eq!(orchestrator.queue()[0].song.id, "youtube:tuyZ9f6mHZk");
    assert_eq!(
        event_names(&mut orchestrator),
        vec![
            "youtube.import.started",
            "queue.updated",
            "playback.track.changed",
            "playback.state.changed",
            "youtube.import.completed",
            "state.updated"
        ]
    );
    assert_eq!(process_imports(&mut orchestrator), 0);
}

#[test]
fn pending_search_jobs_are_completed_by_worker_helper() {
    let mut orchestrator = backend();
    let fixture = Song {
        id: String::from("youtube:worker-fixture"),
        title: String::from("Worker Fixture Song"),
        channel_name: String::from("Fixture Channel"),
        duration_ms: 123_000,
        source_url: String::from("https://example.com/worker-fixture"),
    };
    orchestrator.search_port().runtime().set_fixture("worker fixture", vec![fixture]);
    let job_id = orchestrator.submit_search("worker fixture").unwrap().job_id.unwrap();

    let pending = orchestrator.search_port().runtime().drain_pending();
    assert_eq!(pending.len(), 1);
    let plan = orchestrator.search_port().runtime().resolve(&pending[0].query);
    let SearchPlan::Answered(Ok(songs)) = plan else {
        panic!("expected a known answer");
    };
    settle_search(&mut orchestrator, &pending[0].job_id, SearchAnswer::Songs(songs));

    let results = orchestrator.search_results(&job_id).unwrap();
    assert_eq!(results.job.status, SearchJobStatus::Completed);
    assert_eq!(results.results.len(), 1);
    assert_eq!(results.results[0].title, "Worker Fixture Song");
}

#[test]
fn youtube_import_youtube_import_endpoint_canonicalizes_short_urls_before_job_submission() {
    let mut orchestrator = backend();
    let answer = serve_import(
        &mut orchestrator,
        "https://youtu.be/tuyZ9f6mHZk?list=PL1234567890",
    );
    assert_eq!(answer.unwrap().0, 202);
    assert_eq!(orchestrator.youtube_import_jobs().len(), 1);
    assert_eq!(orchestrator.youtube_import_jobs()[0].url, IMPORT_URL);
    assert_eq!(orchestrator.youtube_import_jobs()[0].status, YoutubeImportJobStatus::Running);
    assert_eq!(orchestrator.snapshot().youtube_import_jobs.len(), 1);
}

#[test]
fn youtube_import_youtube_import_endpoint_accepts_url_and_enqueues_song() {
    let mut orchestrator = backend();
    orchestrator.search_port().runtime().set_fixture(IMPORT_URL, vec![traveling()]);
    let (status, accepted) = serve_import(&mut orchestrator, IMPORT_URL).unwrap();
    assert_eq!(status, 202);
    assert_eq!(
        accepted.job_id.as_deref(),
        Some(orchestrator.youtube_import_jobs()[0].job_id.as_str())
    );
    process_imports(&mut orchestrator);
    assert_eq!(orchestrator.queue().len(), 1);
    assert_eq!(orchestrator.queue()[0].song.source_url, IMPORT_URL);
}

#[test]
fn imported_songs_are_appended() {
    let mut orchestrator = backend();
    orchestrator.enqueue_song(song("s0")).unwrap();
    let job_id = orchestrator.submit_youtube_import(IMPORT_URL).unwrap().job_id.unwrap();
    let settlement = settle_import(
        &mut orchestrator,
        &job_id,
        resolution(vec![song("s1"), song("s2")], 3, 1),
    );
    assert!(matches!(settlement.completed, Some(Ok(()))));
    assert!(settlement.failed.is_none() && settlement.told.is_none());
    let queue: Vec<&str> =
        orchestrator.queue().iter().map(|item| item.song.id.as_str()).collect();
    assert_eq!(queue, vec!["s0", "s1", "s2"]);
    assert!(system_errors(&mut orchestrator).is_empty());
    let job = &orchestrator.youtube_import_jobs()[0];
    assert_eq!(job.status, YoutubeImportJobStatus::Completed);
    assert_eq!((job.total_count, job.queued_count, job.failed_count), (3, 2, 1));
    assert!(job.completed_at.is_some());
    let ids: Vec<&str> = orchestrator.queue().iter().map(|item| item.id.as_str()).collect();
    assert!(ids[0] != ids[1] && ids[1] != ids[2] && ids[0] != ids[2]);
}

#[test]
fn an_import_of_nothing_fails() {
    let mut orchestrator = backend();
    let job_id = orchestrator.submit_youtube_import(IMPORT_URL).unwrap().job_id.unwrap();
    let settlement = settle_import(&mut orchestrator, &job_id, resolution(Vec::new(), 2, 2));
    assert!(matches!(settlement.completed, Some(Err(CoreError::Conflict { .. }))));
    assert!(matches!(settlement.failed, Some(Ok(()))));
    assert!(settlement.told.is_none());
    let job = &orchestrator.youtube_import_jobs()[0];
    assert_eq!(job.status, YoutubeImportJobStatus::Failed);
    assert_eq!(job.error_code.as_deref(), Some("youtube_import_empty"));
    assert_eq!(
        job.error_message.as_deref(),
        Some("The backend did not find any playable videos for this YouTube URL.")
    );
    assert_eq!(
        event_names(&mut orchestrator),
        vec!["youtube.import.started", "youtube.import.failed"]
    );
    let unknown = settle_import(&mut orchestrator, "nope", resolution(vec![song("s")], 1, 0));
    assert!(matches!(unknown.completed, Some(Err(CoreError::NotFound { .. }))));
    assert!(matches!(unknown.failed, Some(Err(CoreError::NotFound { .. }))));
    assert!(orchestrator.queue().is_empty());
}

struct RefusingPublisher {
    refused: String,
}

impl EventPublisherPort for RefusingPublisher {
    fn publish(&mut self, event: CoreEventEnvelope<CoreEvent>) -> Result<(), PortError> {
        if event.event == self.refused {
            Err(PortError::new("playback_worker_unavailable", "hidden"))
        } else {
            Ok(())
        }
    }
}

#[test]
fn an_import_fails_where_its_songs_are_refused() {
    let mut orchestrator = Orchestrator::new(
        LocalClock::new(),
        LocalIdGenerator::new(),
        RefusingPublisher { refused: "queue.updated".to_owned() },
        LocalPlaybackAdapter::new(),
        LocalSearchAdapter::new(LocalSearchRuntime::default()),
    );
    let job_id = orchestrator.submit_youtube_import(IMPORT_URL).unwrap().job_id.unwrap();
    let settlement = settle_import(
        &mut orchestrator,
        &job_id,
        resolution(vec![song("s1"), song("s2")], 2, 0),
    );
    assert!(matches!(settlement.completed, Some(Err(CoreError::Port { .. }))));
    assert!(matches!(settlement.failed, Some(Ok(()))));
    assert!(matches!(settlement.told, Some(Ok(()))));
    let job = &orchestrator.youtube_import_jobs()[0];
    assert_eq!(job.status, YoutubeImportJobStatus::Failed);
    assert_eq!(job.error_code.as_deref(), Some("playback_worker_unavailable"));
    assert_eq!(
        job.error_message.as_deref(),
        Some(user_message_for_playback_failure("playback_worker_unavailable"))
    );
}

#[test]
fn failed_imports_are_announced_where_the_provider_is_out() {
    let mut orchestrator = backend();
    let job_id = orchestrator.submit_youtube_import(IMPORT_URL).unwrap().job_id.unwrap();
    let failure = LocalSearchFailure::new("yt_dlp_missing", "hidden");
    let settlement =
        settle_import(&mut orchestrator, &job_id, ImportAnswer::Failure(failure));
    assert!(settlement.completed.is_none());
    assert!(matches!(settlement.failed, Some(Ok(()))));
    assert!(matches!(settlement.told, Some(Ok(()))));
    let job = &orchestrator.youtube_import_jobs()[0];
    assert_eq!(job.error_code.as_deref(), Some("yt_dlp_missing"));
    assert_eq!(
        job.error_message.as_deref(),
        Some("yt-dlp is not installed for this backend.")
    );
    let job_id = orchestrator.submit_youtube_import(IMPORT_URL).unwrap().job_id.unwrap();
    let lost = ImportAnswer::WorkerLost { detail: "gone".to_owned() };
    assert!(settle_import(&mut orchestrator, &job_id, lost).told.is_none());
    let job = &orchestrator.youtube_import_jobs()[1];
    assert_eq!(job.error_code.as_deref(), Some("youtube_import_worker_join_failed"));
    assert_eq!(job.error_message.as_deref(), Some("gone"));
    assert!(orchestrator.queue().is_empty());
    assert_eq!(
        system_errors(&mut orchestrator),
        vec![(
            "yt_dlp_missing".to_owned(),
            "yt-dlp is not installed for this backend.".to_owned()
        )]
    );
}

#[test]
fn volumes_and_versions_are_shown() {
    let mut orchestrator = backend();
    assert_eq!(orchestrator.snapshot().audio.volume_percent, 50);
    orchestrator.hydrate_audio_settings(AudioSettings { volume_percent: 130 }).unwrap();
    assert_eq!(orchestrator.state().audio().volume_percent, 100);
    assert_eq!(
        orchestrator.playback_port().take_requests(),
        vec![WorkerRequest::Command(WorkerCommand::SetVolume { volume_percent: 100 })]
    );
    let reply = serve(&mut orchestrator, &ServerCommand::SetVolume { volume_percent: 65 });
    assert_eq!(reply.answer.unwrap().0, 202);
    assert_eq!(orchestrator.snapshot().audio.volume_percent, 65);
    assert_eq!(
        orchestrator.playback_port().take_requests(),
        vec![WorkerRequest::Command(WorkerCommand::SetVolume { volume_percent: 65 })]
    );
    orchestrator.set_yt_dlp_version(Some("2026.05.01".to_owned()));
    assert_eq!(
        orchestrator.snapshot().backend.yt_dlp_version.as_deref(),
        Some("2026.05.01")
    );
    orchestrator.update_yt_dlp_version(Some("2026.06.01".to_owned())).unwrap();
    let told = orchestrator.event_port().log().snapshot().pop().unwrap();
    let CoreEvent::StateUpdated(update) = told.data else {
        panic!("expected the whole state");
    };
    assert_eq!(update.snapshot.backend.yt_dlp_version.as_deref(), Some("2026.06.01"));
    assert_eq!(update.snapshot.audio.volume_percent, 65);
    orchestrator.playback_port().lose_worker();
    let settings = AudioSettings { volume_percent: 20 };
    assert!(matches!(
        orchestrator.hydrate_audio_settings(settings),
        Err(CoreError::Port { .. })
    ));
    let reply = serve(&mut orchestrator, &ServerCommand::SetVolume { volume_percent: 10 });
    let (status, problem) = reply.answer.unwrap_err();
    assert_eq!(status, 502);
    assert_eq!(problem.instance.as_deref(), Some("/api/v1/commands/playback/volume"));
    assert!(matches!(reply.told, Some(Ok(()))));
    assert_eq!(orchestrator.state().audio().volume_percent, 65);
}

#[test]
fn restarts_name_their_own_path() {
    let mut orchestrator = backend();
    let reply = serve(&mut orchestrator, &ServerCommand::RestartCurrent);
    let (status, problem) = reply.answer.unwrap_err();
    assert_eq!(status, 409);
    assert_eq!(
        problem.instance.as_deref(),
        Some("/api/v1/commands/playback/restart_current")
    );
    orchestrator.enqueue_song(song("s1")).unwrap();
    orchestrator.enqueue_song(song("s2")).unwrap();
    orchestrator.play().unwrap();
    orchestrator.next().unwrap();
    orchestrator.seek(500).unwrap();
    assert!(serve(&mut orchestrator, &ServerCommand::RestartCurrent).answer.is_ok());
    assert_eq!(orchestrator.state().playback().position_ms, 0);
    assert!(serve(&mut orchestrator, &ServerCommand::Previous).answer.is_ok());
    let first = orchestrator.queue()[0].id.clone();
    assert_eq!(
        orchestrator.state().playback().current_queue_item_id,
        Some(first)
    );
}

#[test]
fn every_start_has_a_session_of_its_own() {
    let (mut orchestrator, _, first) = playing();
    let confirmed = PlaybackWorkerEvent::Started {
        playback_session_id: first.clone(),
        queue_item_id: "queue_item_0001".to_owned(),
        position_ms: 0,
    };
    assert!(bridge_playback_event(&mut orchestrator, &confirmed).noted.is_none());
    orchestrator.pause().unwrap();
    orchestrator.play().unwrap();
    assert_eq!(
        orchestrator.state().playback().playback_session_id.as_deref(),
        Some(first.as_str())
    );
    orchestrator.previous().unwrap();
    let second = orchestrator.state().playback().playback_session_id.clone().unwrap();
    assert_ne!(first, second);
    let requests = orchestrator.playback_port().take_requests();
    let sessions: Vec<String> = requests
        .into_iter()
        .filter_map(|request| match request {
            WorkerRequest::Start { playback_session_id, .. } => Some(playback_session_id),
            _ => None,
        })
        .collect();
    assert_eq!(sessions, vec![first, second]);
    orchestrator.stop().unwrap();
    assert!(orchestrator.state().playback().playback_session_id.is_none());
}

#[test]
fn the_current_item_is_in_the_queue_once() {
    let mut orchestrator = backend();
    let commands = [
        ServerCommand::Play,
        ServerCommand::QueueMove { queue_item_id: "queue_item_0001".to_owned(), to_index: 2 },
        ServerCommand::Next,
        ServerCommand::Play,
        ServerCommand::Next,
        ServerCommand::Previous,
        ServerCommand::Pause,
        ServerCommand::PlayPause,
        ServerCommand::RestartCurrent,
        ServerCommand::QueueClear,
    ];
    for id in ["a", "b", "a"] {
        orchestrator.enqueue_song(song(id)).unwrap();
    }
    for command in &commands {
        serve(&mut orchestrator, command);
        let playback = orchestrator.state().playback();
        let current = playback.current_queue_item_id.clone();
        assert_eq!(playback.state == PlaybackStatus::Stopped, current.is_none());
        if let Some(id) = current {
            let found = orchestrator.queue().iter().filter(|item| item.id == id).count();
            assert_eq!(found, 1);
        }
    }
    assert!(orchestrator.queue().is_empty());
}

#[test]
fn port_errors_become_core_errors() {
    assert_eq!(
        CoreError::from(PortError::new("code", "message")),
        CoreError::Port { code: "code".to_owned(), message: "message".to_owned() }
    );
}

#[test]
fn the_current_item_is_not_removed() {
    let mut orchestrator = backend();
    orchestrator.enqueue_song(song("s1")).unwrap();
    orchestrator.enqueue_song(song("s2")).unwrap();
    orchestrator.play().unwrap();
    let ids: Vec<String> = orchestrator.queue().iter().map(|item| item.id.clone()).collect();
    let current = ServerCommand::QueueRemove { queue_item_id: ids[0].clone() };
    let reply = serve(&mut orchestrator, &current);
    let (status, problem) = reply.answer.unwrap_err();
    assert_eq!(status, 409);
    assert_eq!(
        problem.kind,
        "https://nocturne.local/problems/current_queue_item_not_removable"
    );
    assert!(reply.told.is_none());
    assert_eq!(orchestrator.queue().len(), 2);
    assert_eq!(orchestrator.state().playback().state, PlaybackStatus::Playing);
    let other = ServerCommand::QueueRemove { queue_item_id: ids[1].clone() };
    assert!(serve(&mut orchestrator, &other).answer.is_ok());
    assert_eq!(orchestrator.queue().len(), 1);
    orchestrator.stop().unwrap();
    assert!(serve(&mut orchestrator, &current).answer.is_ok());
    assert!(orchestrator.queue().is_empty());
}

#[test]
fn users_are_told_in_plain_words() {
    assert_eq!(
        user_message_for_search_failure("yt_dlp_invalid_response"),
        "The search provider returned unreadable results."
    );
    assert_eq!(user_message_for_search_failure("else"), "Search failed on the backend.");
    assert_eq!(
        user_message_for_youtube_import_failure("youtube_url_unsupported"),
        "This YouTube URL format is not supported yet."
    );
    assert_eq!(
        user_message_for_playback_failure("playback_runtime_failed"),
        "The backend could not prepare playback."
    );
    assert_eq!(user_message_for_playback_failure("else"), "Playback failed on the backend.");
    assert_eq!(
        user_message_for_playback_interruption("audio_output_stream_lost"),
        "Playback stopped because the backend lost its audio output stream. Try playing again."
    );
    assert_eq!(
        user_message_for_playback_interruption("else"),
        "Playback stopped because audio output became unavailable on the backend."
    );
}

#[test]
fn import_requests_are_checked() {
    assert_eq!(
        check_import_request("https://youtu.be/tuyZ9f6mHZk?list=PL1234567890").unwrap(),
        "https://www.youtube.com/watch?v=tuyZ9f6mHZk"
    );
    let (status, problem) = check_import_request("nonsense").unwrap_err();
    assert_eq!(status, 422);
    assert_eq!(problem.kind, "https://nocturne.local/problems/youtube_url_invalid");
    assert_eq!(problem.instance.as_deref(), Some("/api/v1/commands/import/youtube"));
}

#[test]
fn replayed_events_are_held_back_once() {
    let mut replayed = ReplayedIds::new(vec!["evt_1".to_owned(), "evt_2".to_owned()]);
    assert!(!replayed.is_new("evt_2"));
    assert!(replayed.is_new("evt_2"));
    assert!(replayed.is_new("evt_3"));
    assert!(!replayed.is_new("evt_1"));
}

#[test]
fn the_backend_tells_what_it_is() {
    let state = BackendState {
        ready: true,
        version: Some("1".to_owned()),
        yt_dlp_version: Some("2".to_owned()),
    };
    let health = health_response(&state);
    assert!(health.ok && health.ready);
    assert_eq!(health.yt_dlp_version.as_deref(), Some("2"));
    assert_eq!(NocturneCore::new().workspace_profile(), "client-server-v1");
    assert_eq!(
        NocturneCore::default().initial_playback_state().state,
        PlaybackStatus::Stopped
    );
    assert_eq!(InfrastructureProfile::Local.name(), "local-subprocess-adapters");
    assert_eq!(ApiVersion::V1.base_path(), "/api/v1");
    assert_eq!(ApiVersion::V1.name(), "v1");
    let (code, message, severity) = volume_save_warning("disk full");
    assert_eq!(code, "audio_settings_persist_failed");
    assert_eq!(message, "Volume changed for this session, but saving it failed: disk full");
    assert_eq!(severity, SystemErrorSeverity::Warning);
}
