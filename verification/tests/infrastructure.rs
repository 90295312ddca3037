use nocturne::audio::{
    derive_playback_flags, simulated_position_ms, DeviceCommand, DeviceReport, DeviceState,
    LocalPlaybackAdapter, PlaybackCommand, PlaybackWorker, PlaybackWorkerEvent, SharedPlaybackState,
    StartStep, WorkerCommand, WorkerRequest,
};
use nocturne::clock::{reading_at, LocalClock};
use nocturne::domain::{AudioSettings, QueueItem, QueueItemStatus, Song};
use nocturne::events::{EventCursorError, LocalEventLog, LocalEventPublisher};
use nocturne::ids::LocalIdGenerator;
use nocturne::json::{parse_json, Json};
use nocturne::models::{
    CoreEvent, CoreEventEnvelope, CoreEventKind, SystemErrorEvent, SystemErrorSeverity,
};
use nocturne::playback_source::{
    advance_open, begin_open, first_non_empty_line, map_yt_dlp_spawn_error, playback_fault,
    playback_url_arguments, url_from_run, OpenAction, OpenEvent, PlaybackFault, PlaybackUrlCache,
    UrlRun, PLAYBACK_URL_CACHE_LIMIT, PLAYBACK_URL_CACHE_TTL, YT_DLP_AUDIO_FORMAT,
};
use nocturne::ports::{
    ClockPort, EventPublisherPort, IdGeneratorPort, IdKind, PlaybackPort, PortError, SearchPort,
};
use nocturne::search::{
    import_arguments, import_outcome, map_search_spawn_error, map_youtube_import_spawn_error,
    parse_yt_dlp_search_output, parse_yt_dlp_youtube_output, search_arguments, search_outcome,
    ImportPlan, LocalSearchAdapter, LocalSearchRuntime, ProviderRun, SearchPlan, SpawnFault,
};
use nocturne::seconds::seconds_to_millis;
use nocturne::settings::{
    settings_location, ConfigBase, KnownPlaces, LocalAudioSettingsStore, StoredAudioSettings,
    AUDIO_SETTINGS_FILE_NAME,
};
use nocturne::text_map::TextMap;
use nocturne::youtube::{
    canonicalize_supported_youtube_url, is_real_playback_source, is_youtube_url,
    parse_supported_youtube_url, should_simulate_source,
};

fn song(id: &str, title: &str, channel_name: &str, duration_ms: u64, source_url: &str) -> Song {
    Song {
        id: id.to_owned(),
        title: title.to_owned(),
        channel_name: channel_name.to_owned(),
        duration_ms,
        source_url: source_url.to_owned(),
    }
}

fn queue_item(id: &str) -> QueueItem {
    QueueItem {
        id: id.to_owned(),
        song: Song {
            id: format!("song_{id}"),
            title: format!("Song {id}"),
            channel_name: "Channel".to_owned(),
            duration_ms: 180_000,
            source_url: format!("https://example.com/{id}"),
        },
        added_at: "2026-04-23T12:34:56Z".to_owned(),
        status: QueueItemStatus::Queued,
    }
}

fn system_error_event(event_id: &str) -> CoreEventEnvelope<CoreEvent> {
    CoreEventEnvelope::new(
        event_id.to_owned(),
        CoreEventKind::SystemError,
        String::from("2026-04-23T12:34:56Z"),
        CoreEvent::SystemError(SystemErrorEvent {
            code: String::from("test_error"),
            message: String::from("test message"),
            severity: SystemErrorSeverity::Warning,
        }),
    )
}

// -- events -------------------------------------------------------------------

#[test]
fn events_after_without_cursor_returns_empty_replay() {
    let log = LocalEventLog::default();
    assert_eq!(log.events_after(None).unwrap(), Vec::new());
}

#[test]
fn events_after_returns_error_when_cursor_is_missing() {
    let mut log = LocalEventLog::default();
    log.push(system_error_event("evt_0001"));

    assert_eq!(
        log.events_after(Some("evt_missing")),
        Err(EventCursorError::CursorNotFound)
    );
}

#[test]
fn a_full_log_forgets_its_oldest_event() {
    let mut log = LocalEventLog::new(2);
    assert!(log.is_empty());
    for id in ["evt_0001", "evt_0002", "evt_0003"] {
        log.push(system_error_event(id));
    }
    assert_eq!(log.len(), 2);
    assert_eq!(log.latest_event_id().as_deref(), Some("evt_0003"));
    assert_eq!(log.snapshot()[0].event_id, "evt_0002");
    assert_eq!(
        log.events_after(Some("evt_0001")),
        Err(EventCursorError::CursorNotFound)
    );
    let replay = log.events_after(Some("evt_0002")).unwrap();
    assert_eq!(replay.len(), 1);
    assert_eq!(replay[0].event_id, "evt_0003");
    assert_eq!(log.events_after(Some("evt_0003")).unwrap(), Vec::new());
}

#[test]
fn a_local_publisher_puts_events_on_record() {
    let mut publisher = LocalEventPublisher::new(LocalEventLog::default());
    publisher.publish(system_error_event("evt_0001")).unwrap();
    assert_eq!(publisher.log().len(), 1);
    assert_eq!(LocalEventLog::DEFAULT_MAX_ENTRIES, 256);
}

// -- clock and ids --------------------------------------------------------------

#[test]
fn the_local_clock_counts_seconds() {
    let clock = LocalClock::new();
    let copy = clock.clone();
    assert_eq!(clock.now(), "2026-04-23T12:34:00Z");
    assert_eq!(copy.now(), "2026-04-23T12:34:01Z");
    assert_eq!(LocalClock::default().now(), "2026-04-23T12:34:00Z");
    assert_eq!(reading_at(125), "2026-04-23T12:34:05Z");
}

#[test]
fn local_ids_are_numbered() {
    let mut ids = LocalIdGenerator::new();
    assert_eq!(ids.next_id(IdKind::Command), "cmd_0001");
    assert_eq!(ids.next_id(IdKind::Event), "evt_0002");
    assert_eq!(ids.next_id(IdKind::Snapshot), "snap_0003");
    assert_eq!(ids.next_id(IdKind::QueueItem), "queue_item_0004");
    assert_eq!(ids.next_id(IdKind::SearchJob), "job_0005");
    assert_eq!(ids.next_id(IdKind::PlaybackSession), "playback_session_0006");
    for _ in 6..10_000 {
        ids.next_id(IdKind::Event);
    }
    assert_eq!(ids.next_id(IdKind::Event), "evt_10001");
}

// -- searches -------------------------------------------------------------------

#[test]
fn pending_jobs_are_drained_and_resolved() {
    let mut runtime = LocalSearchRuntime::default();
    runtime.set_fixture(
        "utada traveling",
        vec![
            song(
                "song_utada_traveling_1",
                "traveling",
                "宇多田ヒカル",
                301_000,
                "https://youtube.com/watch?v=utada-traveling-1",
            ),
            song(
                "song_utada_traveling_2",
                "Traveling (Live)",
                "宇多田ヒカル",
                322_000,
                "https://youtube.com/watch?v=utada-traveling-2",
            ),
        ],
    );
    let mut adapter = LocalSearchAdapter::new(runtime);

    adapter.start_search("job_0001", "utada traveling").unwrap();
    let pending = adapter.runtime().drain_pending();
    assert_eq!(pending.len(), 1);
    assert_eq!(pending[0].job_id, "job_0001");

    let SearchPlan::Answered(Ok(results)) = adapter.runtime().resolve(&pending[0].query) else {
        panic!("expected prepared songs");
    };
    assert_eq!(results.len(), 2);
    assert!(adapter.runtime().drain_pending().is_empty());
}

#[test]
fn failures_can_be_configured() {
    let mut runtime = LocalSearchRuntime::default();
    runtime.set_failure("broken query", "yt_dlp_missing", "yt-dlp not installed");

    let SearchPlan::Answered(Err(failure)) = runtime.resolve("broken query") else {
        panic!("expected a prepared failure");
    };
    assert_eq!(failure.code, "yt_dlp_missing");
}

#[test]
fn prepared_answers_ignore_case_and_space() {
    let mut runtime = LocalSearchRuntime::default();
    runtime.set_fixture("ÄRGER traveling", vec![song("a", "b", "c", 1, "d")]);
    let SearchPlan::Answered(Ok(songs)) = runtime.resolve("  ärger TRAVELING ") else {
        panic!("expected prepared songs");
    };
    assert_eq!(songs[0].id, "a");
    runtime.set_failure("ärger Traveling", "code", "message");
    assert!(matches!(
        runtime.resolve("ÄRGER traveling"),
        SearchPlan::Answered(Err(_))
    ));
    let SearchPlan::AskProvider { query } = runtime.resolve("  other words ") else {
        panic!("expected a question to the provider");
    };
    assert_eq!(query, "other words");
}

#[test]
fn imports_wait_and_are_resolved() {
    let mut adapter = LocalSearchAdapter::new(LocalSearchRuntime::default());
    adapter.start_youtube_import("job_0001", "https://youtu.be/tuyZ9f6mHZk").unwrap();
    let pending = adapter.runtime().drain_pending_youtube_imports();
    assert_eq!(pending.len(), 1);
    assert_eq!(pending[0].url, "https://youtu.be/tuyZ9f6mHZk");
    let ImportPlan::AskProvider { canonical_url } =
        adapter.runtime().resolve_youtube_url(&pending[0].url)
    else {
        panic!("expected a question to the provider");
    };
    assert_eq!(canonical_url, "https://www.youtube.com/watch?v=tuyZ9f6mHZk");
    let ImportPlan::Answered(Err(failure)) = adapter.runtime().resolve_youtube_url("nonsense")
    else {
        panic!("expected a refusal");
    };
    assert_eq!(failure.code, "youtube_url_invalid");
    adapter.runtime().set_fixture(
        "https://youtu.be/tuyZ9f6mHZk",
        vec![song("a", "b", "c", 1, "d")],
    );
    let ImportPlan::Answered(Ok(resolution)) =
        adapter.runtime().resolve_youtube_url(" https://youtu.be/tuyZ9f6mHZk")
    else {
        panic!("expected prepared songs");
    };
    assert_eq!(resolution.total_count, 1);
    assert_eq!(resolution.canonical_url, "https://youtu.be/tuyZ9f6mHZk");
}

#[test]
fn yt_dlp_json_is_mapped_into_song_results() {
    let payload = br#"{
            "entries": [
                {
                    "id": "tuyZ9f6mHZk",
                    "title": "Hikaru Utada - traveling",
                    "channel": "Hikaru Utada",
                    "duration": 295.0,
                    "url": "https://www.youtube.com/watch?v=tuyZ9f6mHZk"
                },
                {
                    "id": "OCWu_pgHUcQ",
                    "title": "Hikaru Utada - traveling (Live)",
                    "uploader": "Dennis Holierhoek",
                    "duration": 315.0
                }
            ]
        }"#;

    let results = parse_yt_dlp_search_output(payload).unwrap();

    assert_eq!(results.len(), 2);
    assert_eq!(results[0].id, "youtube:tuyZ9f6mHZk");
    assert_eq!(results[0].channel_name, "Hikaru Utada");
    assert_eq!(results[0].duration_ms, 295_000);
    assert_eq!(
        results[1].source_url,
        "https://www.youtube.com/watch?v=OCWu_pgHUcQ"
    );
}

#[test]
fn youtube_watch_url_is_normalized_to_canonical_song() {
    let payload = br#"{
            "id": "tuyZ9f6mHZk",
            "title": "Hikaru Utada - traveling",
            "channel": "Hikaru Utada",
            "duration": 295.0
        }"#;

    let result =
        parse_yt_dlp_youtube_output(payload, "https://www.youtube.com/watch?v=tuyZ9f6mHZk")
            .unwrap();

    assert_eq!(result.songs[0].id, "youtube:tuyZ9f6mHZk");
    assert_eq!(result.songs[0].channel_name, "Hikaru Utada");
    assert_eq!(result.songs[0].duration_ms, 295_000);
    assert_eq!(
        result.songs[0].source_url,
        "https://www.youtube.com/watch?v=tuyZ9f6mHZk"
    );
    assert_eq!(result.total_count, 1);
    assert_eq!(result.failed_count, 0);
}

#[test]
fn unreadable_provider_output_is_refused() {
    let failure = parse_yt_dlp_search_output(b"not json").unwrap_err();
    assert_eq!(failure.code, "yt_dlp_invalid_json");
    let failure = parse_yt_dlp_search_output(b"{}").unwrap_err();
    assert_eq!(failure.code, "yt_dlp_invalid_response");
    let failure = parse_yt_dlp_search_output(br#"{"entries":[{"id":""}]}"#).unwrap_err();
    assert_eq!(failure.code, "yt_dlp_invalid_response");
    let songs = parse_yt_dlp_search_output(br#"{"entries":[{"id":"x"}]}"#).unwrap();
    assert_eq!(songs[0].title, "x");
    assert_eq!(songs[0].channel_name, "Unknown channel");
}

#[test]
fn a_playlist_counts_what_it_cannot_play() {
    let payload = br#"{"entries": [
        {"id": "tuyZ9f6mHZk", "title": "one", "channel": "c", "duration": 1.5},
        null
    ]}"#;
    let result = parse_yt_dlp_youtube_output(
        payload,
        "https://www.youtube.com/playlist?list=PL1234567890",
    )
    .unwrap();
    assert_eq!(result.songs.len(), 1);
    assert_eq!(result.songs[0].duration_ms, 1_500);
    assert_eq!(result.total_count, 2);
    assert_eq!(result.failed_count, 1);
}

#[test]
fn runs_of_the_provider_are_judged() {
    let failure = search_outcome(&ProviderRun::NotStarted(SpawnFault::Other)).unwrap_err();
    assert_eq!(failure.code, "yt_dlp_spawn_failed");
    let failure = search_outcome(&ProviderRun::Failed).unwrap_err();
    assert_eq!(failure.code, "yt_dlp_failed");
    assert_eq!(failure.message, "Search provider failed to return results.");
    let run = ProviderRun::Finished { stdout: br#"{"entries":[]}"#.to_vec() };
    assert!(search_outcome(&run).unwrap().is_empty());
    let url = "https://www.youtube.com/watch?v=tuyZ9f6mHZk";
    let failure = import_outcome(&ProviderRun::Failed, url).unwrap_err();
    assert_eq!(failure.message, "YouTube URL resolution failed to return metadata.");
    let failure = import_outcome(&ProviderRun::NotStarted(SpawnFault::Missing), url).unwrap_err();
    assert_eq!(failure.code, "yt_dlp_missing");
}

#[test]
fn the_provider_is_asked_with_these_arguments() {
    assert_eq!(
        search_arguments("utada"),
        vec![
            "--dump-single-json",
            "--flat-playlist",
            "--no-warnings",
            "--quiet",
            "--skip-download",
            "ytsearch5:utada",
        ]
    );
    assert_eq!(import_arguments("u").last().map(String::as_str), Some("u"));
    assert_eq!(
        playback_url_arguments("u"),
        vec![
            "--get-url",
            "--format",
            YT_DLP_AUDIO_FORMAT,
            "--no-playlist",
            "--no-warnings",
            "--quiet",
            "u",
        ]
    );
}

#[test]
fn supported_youtube_url_parser_accepts_watch_and_short_urls() {
    assert_eq!(
        parse_supported_youtube_url("https://www.youtube.com/watch?v=tuyZ9f6mHZk")
            .unwrap()
            .canonical_url,
        "https://www.youtube.com/watch?v=tuyZ9f6mHZk"
    );
    assert_eq!(
        parse_supported_youtube_url("https://youtu.be/tuyZ9f6mHZk")
            .unwrap()
            .canonical_url,
        "https://www.youtube.com/watch?v=tuyZ9f6mHZk"
    );
    assert_eq!(
        parse_supported_youtube_url("https://youtu.be/tuyZ9f6mHZk?list=PL1234567890")
            .unwrap()
            .canonical_url,
        "https://www.youtube.com/watch?v=tuyZ9f6mHZk"
    );
}

#[test]
fn supported_youtube_url_parser_rejects_unsupported_formats() {
    assert_eq!(
        parse_supported_youtube_url(
            "https://www.youtube.com/watch?v=tuyZ9f6mHZk&list=PL1234567890",
        )
        .unwrap()
        .canonical_url,
        "https://www.youtube.com/watch?v=tuyZ9f6mHZk"
    );

    assert_eq!(
        parse_supported_youtube_url("https://www.youtube.com/playlist?list=PL1234567890")
            .unwrap()
            .canonical_url,
        "https://www.youtube.com/playlist?list=PL1234567890"
    );

    let shorts_error =
        parse_supported_youtube_url("https://www.youtube.com/shorts/tuyZ9f6mHZk").unwrap_err();
    assert_eq!(shorts_error.code, "youtube_url_unsupported");
}

#[test]
fn canonical_urls_stay_what_they_are() {
    let url = "https://www.youtube.com/watch?v=dQw4w9WgXcQ";
    assert_eq!(canonicalize_supported_youtube_url(url).unwrap(), url);
    assert_eq!(
        canonicalize_supported_youtube_url("HTTPS://YouTu.be/dQw4w9WgXcQ?t=43").unwrap(),
        url
    );
    assert_eq!(
        canonicalize_supported_youtube_url("https://example.com/watch?v=dQw4w9WgXcQ")
            .unwrap_err()
            .code,
        "youtube_url_invalid"
    );
    assert_eq!(
        canonicalize_supported_youtube_url("no url at all").unwrap_err().code,
        "youtube_url_invalid"
    );
}

#[test]
fn youtube_import_failures_use_import_specific_messages() {
    let failure = map_search_spawn_error(SpawnFault::Missing);

    assert_eq!(failure.code, "yt_dlp_missing");
    assert_eq!(
        failure.message,
        "Search provider is unavailable on this backend."
    );

    let import_failure = map_youtube_import_spawn_error(SpawnFault::Missing);

    assert_eq!(import_failure.code, "yt_dlp_missing");
    assert_eq!(
        import_failure.message,
        "YouTube URL resolution is unavailable on this backend."
    );
}

fn float_millis(seconds: f64) -> u64 {
    if !seconds.is_finite() || seconds.is_sign_negative() {
        return 0;
    }
    let millis = seconds * 1_000.0;
    if millis >= u64::MAX as f64 {
        u64::MAX
    } else {
        millis.round() as u64
    }
}

#[test]
fn seconds_are_turned_into_milliseconds_as_floats_are() {
    for seconds in [
        0.0_f64, 0.0004, 0.0005, 0.0015, 0.1, 0.3, 1.0, 1.2345, 1.9999, 2.675, 295.0, 315.5,
        1e9 + 0.1, 4503599627370.4965, 1e15, 1e16, 1.8446744073709552e16, 1e300, -0.0, -0.0004,
        5e-324, f64::NAN, f64::INFINITY, f64::NEG_INFINITY,
    ] {
        assert_eq!(seconds_to_millis(seconds.to_bits()), float_millis(seconds), "{seconds}");
    }
    let mut bits: u64 = 0x3f00_0000_0000_0000;
    for _ in 0..100_000 {
        bits = bits.wrapping_mul(6364136223846793005).wrapping_add(1442695040888963407);
        let seconds = f64::from_bits(bits);
        assert_eq!(seconds_to_millis(bits), float_millis(seconds), "{seconds}");
    }
    assert_eq!(seconds_to_millis(1.2345_f64.to_bits()), 1_235);
    assert_eq!(seconds_to_millis(295.0_f64.to_bits()), 295_000);
}

#[test]
fn json_is_read_into_plain_values() {
    let json = parse_json(br#"{"a": ["x", 1, null, true]}"#).unwrap();
    let Some(Json::Array(items)) = json.get("a") else {
        panic!("expected an array");
    };
    assert_eq!(items.len(), 4);
    assert_eq!(items[0].as_text(), Some("x"));
    assert!(items[1].as_text().is_none());
    assert!(json.get("b").is_none());
    assert!(parse_json(b"{").is_none());
    assert_eq!(json.text_of("a"), None);
    let text = parse_json("{\"t\": \"grün\"}".as_bytes()).unwrap();
    assert_eq!(text.text_of("t"), Some("grün"));
    assert!(matches!(parse_json(b"null"), Some(Json::Null)));
}

#[test]
fn a_text_map_keeps_its_keys_in_order() {
    let mut map: TextMap<u64> = TextMap::new();
    map.insert("b".to_owned(), 1);
    map.insert("a".to_owned(), 2);
    map.insert("b".to_owned(), 3);
    assert_eq!(map.len(), 2);
    assert_eq!(map.get("b"), Some(&3));
    assert_eq!(map.in_order()[0].0, "a");
    map.remove("a");
    assert_eq!(map.get("a"), None);
    assert_eq!(map.len(), 1);
}

// -- playback sources -------------------------------------------------------------

#[test]
fn first_non_empty_line_skips_blank_output() {
    let line = first_non_empty_line(b"\n\nhttps://example.com/audio\nignored\n");
    assert_eq!(line.as_deref(), Some("https://example.com/audio"));
}

#[test]
fn unreadable_bytes_are_replaced() {
    assert_eq!(first_non_empty_line(b" \n  a\xffb \r\n").as_deref(), Some("a\u{fffd}b"));
    assert_eq!(first_non_empty_line(b" \n\t\n"), None);
}

#[test]
fn fixture_like_urls_stay_simulated() {
    assert!(!is_real_playback_source("https://example.com/queue_item_1"));
    assert!(!is_real_playback_source(
        "https://www.youtube.com/watch?v=current-song"
    ));
    assert!(is_real_playback_source(
        "https://www.youtube.com/watch?v=dQw4w9WgXcQ"
    ));
    assert!(is_real_playback_source("https://youtu.be/dQw4w9WgXcQ?t=43"));
}

#[test]
fn youtube_sources_are_told_from_others() {
    assert!(is_youtube_url(" HTTPS://YOUTUBE.COM/x"));
    assert!(is_youtube_url("youtu.be"));
    assert!(!is_youtube_url("https://example.com"));
    assert!(should_simulate_source("https://example.com"));
    assert!(!should_simulate_source("https://youtu.be/dQw4w9WgXcQ"));
}

#[test]
fn youtube_format_prefers_backend_decodable_audio() {
    assert_eq!(
        YT_DLP_AUDIO_FORMAT,
        "140/139/bestaudio[ext=m4a]/bestaudio[acodec^=mp4a]/bestaudio[ext=mp3]/bestaudio[acodec^=mp3]/best[ext=mp4]/best"
    );
}

#[test]
fn a_cached_url_is_found_while_it_is_good() {
    let mut cache = PlaybackUrlCache::new();
    cache.insert("source", "url".to_owned(), 1_000);
    assert_eq!(
        cache.cached("source", 1_000 + PLAYBACK_URL_CACHE_TTL).as_deref(),
        Some("url")
    );
    assert_eq!(cache.cached("source", 1_001 + PLAYBACK_URL_CACHE_TTL), None);
    assert_eq!(cache.len(), 0);
}

#[test]
fn a_full_cache_lets_go_of_its_oldest_url() {
    let mut cache = PlaybackUrlCache::new();
    for i in 0..PLAYBACK_URL_CACHE_LIMIT {
        cache.insert(&format!("source {i}"), format!("url {i}"), 100 + i as u64);
    }
    assert_eq!(cache.len(), PLAYBACK_URL_CACHE_LIMIT);
    cache.insert("one more", "url".to_owned(), 1_000);
    assert_eq!(cache.len(), PLAYBACK_URL_CACHE_LIMIT);
    assert_eq!(cache.cached("source 0", 1_000), None);
    assert_eq!(cache.cached("source 1", 1_000).as_deref(), Some("url 1"));
    assert_eq!(cache.cached("one more", 1_000).as_deref(), Some("url"));
}

#[test]
fn a_video_is_streamed_or_resolved() {
    let source = "https://youtu.be/dQw4w9WgXcQ";
    let mut cache = PlaybackUrlCache::new();
    assert_eq!(begin_open(source), OpenAction::OpenProcess);
    assert_eq!(
        advance_open(&mut cache, source, OpenEvent::ProcessOpened, 0),
        OpenAction::Play
    );
    assert_eq!(
        advance_open(&mut cache, source, OpenEvent::ProcessFailed, 0),
        OpenAction::AskUrl
    );
    let run = UrlRun::Finished { stdout: b"\nhttps://media.example/x\n".to_vec() };
    assert_eq!(
        advance_open(&mut cache, source, OpenEvent::UrlRan { run }, 5),
        OpenAction::OpenHttp { playback_url: "https://media.example/x".to_owned() }
    );
    assert_eq!(
        advance_open(&mut cache, source, OpenEvent::ProcessFailed, 6),
        OpenAction::OpenHttp { playback_url: "https://media.example/x".to_owned() }
    );
    assert_eq!(
        advance_open(&mut cache, source, OpenEvent::HttpOpened, 7),
        OpenAction::Play
    );
    let error = PortError::new("playback_stream_open_failed", "gone");
    assert_eq!(
        advance_open(&mut cache, source, OpenEvent::HttpFailed { error: error.clone() }, 8),
        OpenAction::Fail { error }
    );
    assert_eq!(
        begin_open("https://example.com/a"),
        OpenAction::OpenHttp { playback_url: "https://example.com/a".to_owned() }
    );
}

#[test]
fn failed_resolutions_say_why() {
    let silent = url_from_run(&UrlRun::Failed { stderr: b"  \n".to_vec() }).unwrap_err();
    assert_eq!(silent.code(), "audio_source_resolve_failed");
    assert_eq!(silent.message(), "yt-dlp did not return a playable audio stream URL");
    let said = url_from_run(&UrlRun::Failed { stderr: b" no such video \n".to_vec() }).unwrap_err();
    assert_eq!(
        said.message(),
        "yt-dlp failed to resolve a playable audio stream URL: no such video"
    );
    let empty = url_from_run(&UrlRun::Finished { stdout: Vec::new() }).unwrap_err();
    assert_eq!(empty.message(), "yt-dlp did not return a playable audio stream URL");
    let missing = url_from_run(&UrlRun::NotStarted {
        fault: SpawnFault::Missing,
        detail: "not found".to_owned(),
    })
    .unwrap_err();
    assert_eq!(missing.code(), "yt_dlp_missing");
    assert_eq!(missing.message(), "yt-dlp is unavailable for playback: not found");
    assert_eq!(
        map_yt_dlp_spawn_error(SpawnFault::Other, "denied").code(),
        "yt_dlp_spawn_failed"
    );
}

#[test]
fn playback_faults_have_their_codes() {
    for (fault, code, message) in [
        (
            PlaybackFault::OutputUnavailable,
            "audio_output_unavailable",
            "failed to initialize the audio output: x",
        ),
        (
            PlaybackFault::RuntimeFailed,
            "playback_runtime_failed",
            "failed to build playback runtime: x",
        ),
        (
            PlaybackFault::UrlInvalid,
            "playback_url_invalid",
            "playback URL could not be parsed: x",
        ),
        (
            PlaybackFault::StreamOpenFailed,
            "playback_stream_open_failed",
            "failed to open the playback stream: x",
        ),
        (
            PlaybackFault::ProcessSpawnFailed,
            "yt_dlp_spawn_failed",
            "failed to spawn yt-dlp playback stream: x",
        ),
        (
            PlaybackFault::DecodeFailed,
            "playback_decode_failed",
            "failed to decode the playback stream: x",
        ),
        (
            PlaybackFault::StartFailed,
            "playback_start_failed",
            "failed to start playback: x",
        ),
    ] {
        let error = playback_fault(fault, "x");
        assert_eq!(error.code(), code);
        assert_eq!(error.message(), message);
    }
}

// -- the playback worker ------------------------------------------------------------

#[test]
fn derive_playback_flags_only_treats_stopped_as_finished() {
    assert_eq!(derive_playback_flags(DeviceState::Playing), (false, false));
    assert_eq!(derive_playback_flags(DeviceState::Paused), (true, false));
    assert_eq!(derive_playback_flags(DeviceState::Pausing), (true, false));
    assert_eq!(derive_playback_flags(DeviceState::Stopped), (false, true));
}

fn started(worker: &mut PlaybackWorker, item: QueueItem, position_ms: u64, now_ms: u64) {
    let (asked, step) =
        worker.handle_start(item, "playback_session_1".to_owned(), position_ms, now_ms);
    assert_eq!(asked, None);
    assert!(matches!(step, StartStep::Started { .. }));
}

#[test]
fn playback_commands_are_recorded_by_the_worker() {
    let mut worker = PlaybackWorker::new();
    started(&mut worker, queue_item("queue_item_1"), 0, 0);
    worker.handle(WorkerCommand::Seek { position_ms: 42_000 }, 20);
    worker.handle(WorkerCommand::Pause, 20);
    worker.handle(WorkerCommand::Resume, 20);

    let snapshot = worker.shared().snapshot();
    assert_eq!(snapshot.position_ms, 42_000);
    assert!(!snapshot.paused);
    assert_eq!(snapshot.history.len(), 4);
    assert_eq!(snapshot.playback_session_id.as_deref(), Some("playback_session_1"));
    assert_eq!(snapshot.history[2], PlaybackCommand::Pause);
}

#[test]
fn simulated_playback_can_be_stopped() {
    let mut worker = PlaybackWorker::new();
    started(&mut worker, queue_item("queue_item_1"), 1_500, 0);
    assert_eq!(worker.handle_stop(), None);
    let snapshot = worker.shared().snapshot();
    assert!(snapshot.current_item.is_none());
    assert_eq!(snapshot.position_ms, 0);
    assert_eq!(snapshot.history.len(), 2);
    assert_eq!(snapshot.playback_session_id, None);
}

#[test]
fn simulated_playback_honors_pause_resume_and_seek() {
    let mut worker = PlaybackWorker::new();
    started(&mut worker, queue_item("queue_item_1"), 0, 1_000);
    worker.poll_active_playback(1_300, None);
    assert_eq!(worker.shared().snapshot().position_ms, 300);
    worker.handle_pause(1_300);
    worker.poll_active_playback(9_000, None);
    let paused = worker.shared().snapshot();
    assert!(paused.paused);
    assert_eq!(paused.position_ms, 300);
    worker.handle_seek(42_000, 9_000);
    worker.poll_active_playback(9_900, None);
    assert_eq!(worker.shared().snapshot().position_ms, 42_000);
    worker.handle_resume(10_000);
    let told = worker.poll_active_playback(10_300, None);
    assert_eq!(
        told.progress,
        Some(PlaybackWorkerEvent::Progress {
            playback_session_id: "playback_session_1".to_owned(),
            position_ms: 42_300,
            paused: false,
        })
    );
    assert!(told.ended.is_none());
}

#[test]
fn finished_simulated_playback_clears_the_snapshot() {
    let mut worker = PlaybackWorker::new();
    let mut short_item = queue_item("queue_item_short");
    short_item.song.duration_ms = 50;
    started(&mut worker, short_item, 0, 0);
    let told = worker.poll_active_playback(400, None);
    assert_eq!(
        told.ended,
        Some(PlaybackWorkerEvent::Ended {
            playback_session_id: "playback_session_1".to_owned(),
            queue_item_id: "queue_item_short".to_owned(),
            position_ms: 50,
        })
    );
    let snapshot = worker.shared().snapshot();
    assert!(snapshot.current_item.is_none());
    assert_eq!(snapshot.playback_session_id, None);
    assert_eq!(snapshot.position_ms, 50);
    assert!(!snapshot.paused);
    assert!(worker.poll_active_playback(500, None).progress.is_none());
}

#[test]
fn a_real_source_is_opened_on_the_device() {
    let mut worker = PlaybackWorker::new();
    worker.handle_set_volume(70);
    let mut item = queue_item("queue_item_1");
    item.song.source_url = "https://youtu.be/dQw4w9WgXcQ".to_owned();
    let (asked, step) = worker.handle_start(item, "s1".to_owned(), 10, 0);
    assert_eq!(asked, None);
    let StartStep::Open { item, playback_session_id, position_ms } = step else {
        panic!("expected the device to be needed");
    };
    let event = worker.finish_start(item, playback_session_id, position_ms, Ok(()));
    assert!(matches!(event, PlaybackWorkerEvent::Started { position_ms: 10, .. }));
    assert!(worker.on_device());
    assert_eq!(worker.shared().snapshot().volume_percent, 70);
    assert_eq!(worker.volume_percent(), 70);
    assert_eq!(worker.handle(WorkerCommand::Pause, 0), (Some(DeviceCommand::Pause), true));
    let told = worker.poll_active_playback(
        0,
        Some(DeviceReport { state: DeviceState::Stopped, position_ms: 99 }),
    );
    assert!(told.ended.is_some());
    assert!(!worker.on_device());
    assert_eq!(worker.handle(WorkerCommand::Shutdown, 0), (None, false));
}

#[test]
fn a_source_that_cannot_be_opened_fails_the_start() {
    let mut worker = PlaybackWorker::new();
    let item = queue_item("queue_item_1");
    let event = worker.finish_start(
        item,
        "s1".to_owned(),
        0,
        Err(PortError::new("audio_output_unavailable", "none")),
    );
    assert_eq!(
        event,
        PlaybackWorkerEvent::StartFailed {
            playback_session_id: "s1".to_owned(),
            queue_item_id: "queue_item_1".to_owned(),
            code: "audio_output_unavailable".to_owned(),
            message: "none".to_owned(),
        }
    );
    assert!(worker.shared().snapshot().history.is_empty());
}

#[test]
fn simulated_positions_stop_at_the_end() {
    assert_eq!(simulated_position_ms(100, 5, 1_000, 150), 55);
    assert_eq!(simulated_position_ms(100, 5, 1_000, 50), 5);
    assert_eq!(simulated_position_ms(0, u64::MAX, 1_000, 9), 1_000);
    assert_eq!(SharedPlaybackState::default().snapshot().volume_percent, 50);
}

#[test]
fn the_adapter_hands_calls_to_the_worker() {
    let mut adapter = LocalPlaybackAdapter::new();
    let item = queue_item("queue_item_1");
    adapter.start(&item, "playback_session_0001", 7).unwrap();
    adapter.pause().unwrap();
    adapter.resume().unwrap();
    adapter.seek(9).unwrap();
    adapter.set_volume(30).unwrap();
    adapter.stop().unwrap();
    let requests = adapter.take_requests();
    assert_eq!(
        requests[0],
        WorkerRequest::Start {
            item: item.clone(),
            playback_session_id: "playback_session_0001".to_owned(),
            position_ms: 7,
        }
    );
    assert_eq!(requests[4], WorkerRequest::Command(WorkerCommand::SetVolume { volume_percent: 30 }));
    assert_eq!(requests[5], WorkerRequest::Command(WorkerCommand::Stop));
    assert_eq!(requests.len(), 6);
    adapter.start(&item, "playback_session_0002", 0).unwrap();
    adapter.take_requests();
    adapter.lose_worker();
    let error = adapter.pause().unwrap_err();
    assert_eq!(error.code(), "playback_worker_unavailable");
    assert!(adapter.take_requests().is_empty());
}

// -- settings -----------------------------------------------------------------------

#[test]
fn stored_settings_are_brought_into_range() {
    let store = LocalAudioSettingsStore::from_path("/tmp/x.json".to_owned());
    assert_eq!(store.path(), "/tmp/x.json");
    assert_eq!(store.load(StoredAudioSettings::Missing), AudioSettings::default());
    let loud = AudioSettings::new(130);
    assert_eq!(store.load(StoredAudioSettings::Found(loud)).volume_percent, 100);
    assert_eq!(store.save(&loud).volume_percent, 100);
    assert_eq!(store.save(&AudioSettings::new(65)), AudioSettings::new(65));
    assert_eq!(AudioSettings::new(101).clamped().clamped().volume_percent, 100);
}

#[test]
fn settings_lie_where_the_platform_wants_them() {
    let nowhere = KnownPlaces {
        named: false,
        windows: false,
        app_data: false,
        xdg_config_home: false,
        home: false,
    };
    let (base, parts) = settings_location(nowhere, AUDIO_SETTINGS_FILE_NAME);
    assert_eq!(base, ConfigBase::CurrentDir);
    assert_eq!(parts, vec![".nocturne", "audio-settings.json"]);
    let (base, parts) = settings_location(KnownPlaces { home: true, ..nowhere }, "f");
    assert_eq!(base, ConfigBase::Home);
    assert_eq!(parts, vec![".config", "nocturne", "f"]);
    let both = KnownPlaces { home: true, xdg_config_home: true, ..nowhere };
    assert_eq!(settings_location(both, "f").0, ConfigBase::XdgConfigHome);
    let windows = KnownPlaces { windows: true, ..both };
    assert_eq!(
        settings_location(windows, "f").1,
        vec![".nocturne", "Nocturne", "f"]
    );
    let roaming = KnownPlaces { app_data: true, ..windows };
    assert_eq!(settings_location(roaming, "f").1, vec!["Nocturne", "f"]);
    let named = KnownPlaces { named: true, ..roaming };
    assert_eq!(settings_location(named, "f"), (ConfigBase::Named, vec!["f".to_owned()]));
}
