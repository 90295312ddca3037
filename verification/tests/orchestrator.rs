use std::cell::RefCell;
use std::rc::Rc;

use nocturne::domain::{PlaybackStatus, QueueItem, QueueItemStatus, Song};
use nocturne::models::{
    CoreEvent, CoreEventEnvelope, SearchJobStatus, SystemErrorSeverity,
};
use nocturne::orchestrator::{CoreError, Orchestrator};
use nocturne::ports::{
    ClockPort, EventPublisherPort, IdGeneratorPort, IdKind, PlaybackPort, PortError, SearchPort,
};

#[derive(Default)]
struct StubClock;

impl ClockPort for StubClock {
    fn now(&self) -> String {
        "2026-04-23T12:34:56Z".to_owned()
    }
}

#[derive(Default)]
struct StubIds {
    next: u64,
}

impl IdGeneratorPort for StubIds {
    fn next_id(&mut self, kind: IdKind) -> String {
        self.next += 1;
        let prefix = match kind {
            IdKind::Command => "cmd",
            IdKind::Event => "evt",
            IdKind::Snapshot => "snap",
            IdKind::PlaybackSession => "playback_session",
            IdKind::QueueItem => "queue_item",
            IdKind::SearchJob => "job",
        };
        format!("{prefix}_{:04}", self.next)
    }
}

#[derive(Default, Clone)]
struct StubEvents {
    published: Rc<RefCell<Vec<CoreEventEnvelope<CoreEvent>>>>,
    refusing: Rc<RefCell<bool>>,
}

impl StubEvents {
    fn names(&self) -> Vec<String> {
        self.published.borrow().iter().map(|event| event.event.clone()).collect()
    }
}

impl EventPublisherPort for StubEvents {
    fn publish(&mut self, event: CoreEventEnvelope<CoreEvent>) -> Result<(), PortError> {
        if *self.refusing.borrow() {
            return Err(PortError::new("events_down", "nobody listens"));
        }
        self.published.borrow_mut().push(event);
        Ok(())
    }
}

#[derive(Default, Clone)]
struct StubPlayback {
    started: Rc<RefCell<Vec<String>>>,
    paused: Rc<RefCell<usize>>,
    resumed: Rc<RefCell<usize>>,
    stopped: Rc<RefCell<usize>>,
    seeks: Rc<RefCell<Vec<u64>>>,
    sessions: Rc<RefCell<Vec<String>>>,
    volumes: Rc<RefCell<Vec<u8>>>,
    broken: Rc<RefCell<bool>>,
}

impl StubPlayback {
    fn reply(&self) -> Result<(), PortError> {
        if *self.broken.borrow() {
            Err(PortError::new("player_broken", "no sound"))
        } else {
            Ok(())
        }
    }
}

impl PlaybackPort for StubPlayback {
    fn start(
        &mut self,
        item: &QueueItem,
        playback_session_id: &str,
        position_ms: u64,
    ) -> Result<(), PortError> {
        self.started.borrow_mut().push(format!("{}@{}", item.id, position_ms));
        self.sessions.borrow_mut().push(playback_session_id.to_owned());
        self.reply()
    }

    fn set_volume(&mut self, volume_percent: u8) -> Result<(), PortError> {
        self.volumes.borrow_mut().push(volume_percent);
        self.reply()
    }

    fn pause(&mut self) -> Result<(), PortError> {
        *self.paused.borrow_mut() += 1;
        self.reply()
    }

    fn resume(&mut self) -> Result<(), PortError> {
        *self.resumed.borrow_mut() += 1;
        self.reply()
    }

    fn stop(&mut self) -> Result<(), PortError> {
        *self.stopped.borrow_mut() += 1;
        self.reply()
    }

    fn seek(&mut self, position_ms: u64) -> Result<(), PortError> {
        self.seeks.borrow_mut().push(position_ms);
        self.reply()
    }
}

#[derive(Default)]
struct StubSearch {
    started: Vec<(String, String)>,
    broken: bool,
}

impl SearchPort for StubSearch {
    fn start_search(&mut self, job_id: &str, query: &str) -> Result<(), PortError> {
        if self.broken {
            return Err(PortError::new("search_down", "no provider"));
        }
        self.started.push((job_id.to_owned(), query.to_owned()));
        Ok(())
    }

    fn start_youtube_import(&mut self, job_id: &str, url: &str) -> Result<(), PortError> {
        if self.broken {
            return Err(PortError::new("search_down", "no provider"));
        }
        self.started.push((job_id.to_owned(), url.to_owned()));
        Ok(())
    }
}

struct FailingPlayback;

impl PlaybackPort for FailingPlayback {
    fn start(
        &mut self,
        _item: &QueueItem,
        _playback_session_id: &str,
        _position_ms: u64,
    ) -> Result<(), PortError> {
        Err(PortError::new("playback_start_failed", "stub start failure"))
    }

    fn set_volume(&mut self, _volume_percent: u8) -> Result<(), PortError> {
        Ok(())
    }

    fn pause(&mut self) -> Result<(), PortError> {
        Ok(())
    }

    fn resume(&mut self) -> Result<(), PortError> {
        Ok(())
    }

    fn stop(&mut self) -> Result<(), PortError> {
        Ok(())
    }

    fn seek(&mut self, _position_ms: u64) -> Result<(), PortError> {
        Ok(())
    }
}

fn song(id: &str) -> Song {
    Song {
        id: id.to_owned(),
        title: format!("Song {id}"),
        channel_name: "Channel".to_owned(),
        duration_ms: 180_000,
        source_url: format!("https://example.com/{id}"),
    }
}

type Player = Orchestrator<StubClock, StubIds, StubEvents, StubPlayback, StubSearch>;

fn player() -> (Player, StubEvents, StubPlayback) {
    let events = StubEvents::default();
    let playback = StubPlayback::default();
    let orchestrator = Orchestrator::new(
        StubClock,
        StubIds::default(),
        events.clone(),
        playback.clone(),
        StubSearch::default(),
    );
    (orchestrator, events, playback)
}

fn queue_of(count: usize) -> (Player, StubEvents, StubPlayback, Vec<String>) {
    let (mut orchestrator, events, playback) = player();
    let mut ids = Vec::new();
    for i in 0..count {
        let receipt = orchestrator.enqueue_song(song(&format!("song_{i}"))).unwrap();
        ids.push(receipt.queue_item_id.unwrap());
    }
    (orchestrator, events, playback, ids)
}

fn queue_ids(orchestrator: &Player) -> Vec<String> {
    orchestrator.queue().iter().map(|item| item.id.clone()).collect()
}

#[test]
fn enqueue_and_play_updates_state() {
    let mut orchestrator = Orchestrator::new(
        StubClock,
        StubIds::default(),
        StubEvents::default(),
        StubPlayback::default(),
        StubSearch::default(),
    );

    orchestrator.enqueue_song(song("song_1")).unwrap();
    assert_eq!(orchestrator.queue().len(), 1);

    orchestrator.play().unwrap();
    assert_eq!(orchestrator.state().playback().state, PlaybackStatus::Playing);
    assert_eq!(
        orchestrator.state().playback().current_queue_item_id.as_deref(),
        Some("queue_item_0001")
    );
}

#[test]
fn search_lifecycle_is_tracked() {
    let mut orchestrator = Orchestrator::new(
        StubClock,
        StubIds::default(),
        StubEvents::default(),
        StubPlayback::default(),
        StubSearch::default(),
    );

    let accepted = orchestrator.submit_search("utada traveling").unwrap();
    let job_id = accepted.job_id.unwrap();

    orchestrator
        .complete_search(&job_id, vec![song("song_1"), song("song_2")])
        .unwrap();

    let results = orchestrator.search_results(&job_id).unwrap();
    assert_eq!(results.results.len(), 2);
    assert_eq!(results.job.status, SearchJobStatus::Completed);
}

#[test]
fn full_search_to_play_flow_emits_expected_events() {
    let mut orchestrator = Orchestrator::new(
        StubClock,
        StubIds::default(),
        StubEvents::default(),
        StubPlayback::default(),
        StubSearch::default(),
    );

    let accepted = orchestrator.submit_search("utada traveling").unwrap();
    let job_id = accepted.job_id.clone().unwrap();
    orchestrator.complete_search(&job_id, vec![song("song_1")]).unwrap();
    orchestrator.enqueue_song_by_id("song_1").unwrap();
    orchestrator.play().unwrap();
    orchestrator.seek(12_345).unwrap();
    orchestrator.stop().unwrap();

    let snapshot = orchestrator.snapshot();
    assert_eq!(snapshot.queue.len(), 1);
    assert_eq!(snapshot.search_jobs.len(), 1);
    assert_eq!(snapshot.playback.state, PlaybackStatus::Stopped);
    assert_eq!(snapshot.queue[0].status, QueueItemStatus::Queued);
}

#[test]
fn playback_port_errors_are_mapped_to_core_errors() {
    let mut orchestrator = Orchestrator::new(
        StubClock,
        StubIds::default(),
        StubEvents::default(),
        FailingPlayback,
        StubSearch::default(),
    );

    orchestrator.enqueue_song(song("song_1")).unwrap();
    let error = orchestrator.play().unwrap_err();

    match error {
        CoreError::Port { code, message } => {
            assert_eq!(code, "playback_start_failed");
            assert_eq!(message, "stub start failure");
        }
        other => panic!("unexpected error: {}", other.describe()),
    }
}

#[test]
fn a_play_tells_of_the_state_the_track_and_the_queue() {
    let (mut orchestrator, events, playback, ids) = queue_of(2);
    orchestrator.stop().unwrap();
    playback.started.borrow_mut().clear();
    events.published.borrow_mut().clear();
    orchestrator.play().unwrap();
    assert_eq!(
        *playback.started.borrow(),
        vec![format!("{}@0", ids[0])]
    );
    assert_eq!(
        events.names(),
        vec![
            "playback.track.changed",
            "playback.state.changed",
            "queue.updated",
            "state.updated"
        ]
    );
    assert_eq!(orchestrator.queue()[0].status, QueueItemStatus::Playing);
    assert_eq!(orchestrator.queue()[1].status, QueueItemStatus::Queued);
}

#[test]
fn a_song_added_to_an_idle_player_is_loaded() {
    let (mut orchestrator, events, playback, ids) = queue_of(2);
    let state = orchestrator.state().playback();
    assert_eq!(state.state, PlaybackStatus::Loading);
    assert_eq!(state.current_queue_item_id.as_deref(), Some(ids[0].as_str()));
    assert_eq!(state.position_ms, 0);
    assert_eq!(
        state.playback_session_id.as_deref(),
        Some(playback.sessions.borrow()[0].as_str())
    );
    assert_eq!(orchestrator.queue()[0].status, QueueItemStatus::Loading);
    assert_eq!(orchestrator.queue()[1].status, QueueItemStatus::Queued);
    assert_eq!(*playback.started.borrow(), vec![format!("{}@0", ids[0])]);
    assert_eq!(
        events.names(),
        vec![
            "queue.updated",
            "playback.track.changed",
            "playback.state.changed",
            "state.updated",
            "queue.updated",
            "state.updated"
        ]
    );
    assert!(orchestrator.pause().is_err());
    orchestrator.move_queue_item(&ids[0], 1).unwrap();
    assert_eq!(orchestrator.queue()[1].status, QueueItemStatus::Loading);
    assert_eq!(orchestrator.queue()[0].status, QueueItemStatus::Finished);
    orchestrator.stop().unwrap();
    assert_eq!(orchestrator.queue()[1].status, QueueItemStatus::Queued);
}

#[test]
fn a_refusing_player_lets_an_added_song_wait() {
    let (mut orchestrator, _events, playback) = player();
    *playback.broken.borrow_mut() = true;
    let receipt = orchestrator.enqueue_song(song("a")).unwrap();
    assert!(receipt.queue_item_id.is_some());
    assert_eq!(orchestrator.state().playback().state, PlaybackStatus::Stopped);
    assert_eq!(orchestrator.state().playback().current_queue_item_id, None);
    assert_eq!(orchestrator.queue()[0].status, QueueItemStatus::Queued);
    assert_eq!(playback.started.borrow().len(), 1);
}

#[test]
fn a_start_is_confirmed_once() {
    let (mut orchestrator, _events, playback, ids) = queue_of(2);
    let session = playback.sessions.borrow()[0].clone();
    assert_eq!(orchestrator.confirm_playback_started("other", &ids[0], 3), Ok(false));
    assert_eq!(orchestrator.confirm_playback_started(&session, &ids[1], 3), Ok(false));
    assert_eq!(orchestrator.state().playback().state, PlaybackStatus::Loading);
    assert_eq!(orchestrator.confirm_playback_started(&session, &ids[0], 3), Ok(true));
    assert_eq!(orchestrator.state().playback().state, PlaybackStatus::Playing);
    assert_eq!(orchestrator.state().playback().position_ms, 3);
    assert_eq!(orchestrator.queue()[0].status, QueueItemStatus::Playing);
    assert_eq!(orchestrator.confirm_playback_started(&session, &ids[0], 9), Ok(false));
    assert_eq!(orchestrator.state().playback().position_ms, 3);
}

#[test]
fn an_empty_queue_cannot_be_played() {
    let (mut orchestrator, events, playback) = player();
    let error = orchestrator.play().unwrap_err();
    assert!(matches!(error, CoreError::Conflict { .. }), "{}", error.describe());
    assert!(events.names().is_empty());
    assert!(playback.started.borrow().is_empty());
}

#[test]
fn a_pause_and_a_play_restore_the_state() {
    let (mut orchestrator, _events, playback, ids) = queue_of(1);
    orchestrator.play().unwrap();
    orchestrator.note_position(4_000).unwrap();
    let before = orchestrator.state().playback().clone();
    orchestrator.pause().unwrap();
    assert_eq!(orchestrator.state().playback().state, PlaybackStatus::Paused);
    orchestrator.play().unwrap();
    assert_eq!(*orchestrator.state().playback(), before);
    assert_eq!(*playback.resumed.borrow(), 1);
    assert_eq!(before.current_queue_item_id, Some(ids[0].clone()));
    assert_eq!(before.position_ms, 4_000);
}

#[test]
fn a_play_pause_toggles() {
    let (mut orchestrator, _events, playback, _ids) = queue_of(1);
    orchestrator.play_pause().unwrap();
    assert_eq!(orchestrator.state().playback().state, PlaybackStatus::Playing);
    orchestrator.play_pause().unwrap();
    assert_eq!(orchestrator.state().playback().state, PlaybackStatus::Paused);
    orchestrator.play_pause().unwrap();
    assert_eq!(orchestrator.state().playback().state, PlaybackStatus::Playing);
    assert_eq!(*playback.paused.borrow(), 1);
}

#[test]
fn next_and_previous_return_to_the_item() {
    let (mut orchestrator, _events, playback, ids) = queue_of(3);
    orchestrator.play().unwrap();
    playback.started.borrow_mut().clear();
    orchestrator.next().unwrap();
    assert_eq!(orchestrator.state().playback().current_queue_item_id, Some(ids[1].clone()));
    orchestrator.previous().unwrap();
    assert_eq!(orchestrator.state().playback().current_queue_item_id, Some(ids[0].clone()));
    assert_eq!(orchestrator.state().playback().position_ms, 0);
    assert_eq!(playback.started.borrow().len(), 2);
}

#[test]
fn a_finished_track_goes_on_and_the_last_one_stops() {
    let (mut orchestrator, _events, _playback, ids) = queue_of(2);
    orchestrator.play().unwrap();
    orchestrator.finish_current_track().unwrap();
    assert_eq!(orchestrator.state().playback().current_queue_item_id, Some(ids[1].clone()));
    assert_eq!(orchestrator.state().playback().state, PlaybackStatus::Playing);
    orchestrator.finish_current_track().unwrap();
    assert_eq!(orchestrator.state().playback().state, PlaybackStatus::Stopped);
    assert_eq!(orchestrator.state().playback().current_queue_item_id, None);
    orchestrator.finish_current_track().unwrap();
    assert_eq!(orchestrator.queue().len(), 2);
}

#[test]
fn a_removed_item_is_gone_and_the_others_keep_their_order() {
    let (mut orchestrator, _events, _playback, ids) = queue_of(3);
    orchestrator.remove_queue_item(&ids[1]).unwrap();
    assert_eq!(queue_ids(&orchestrator), vec![ids[0].clone(), ids[2].clone()]);
    let error = orchestrator.remove_queue_item(&ids[1]).unwrap_err();
    assert_eq!(error.describe(), format!("queue_item not found: {}", ids[1]));
}

#[test]
fn a_move_reorders_and_can_be_undone() {
    let (mut orchestrator, _events, _playback, ids) = queue_of(3);
    orchestrator.move_queue_item(&ids[0], 2).unwrap();
    assert_eq!(queue_ids(&orchestrator), vec![ids[1].clone(), ids[2].clone(), ids[0].clone()]);
    orchestrator.move_queue_item(&ids[0], 0).unwrap();
    assert_eq!(queue_ids(&orchestrator), ids);
    let error = orchestrator.move_queue_item(&ids[0], 9).unwrap_err();
    assert!(matches!(error, CoreError::Validation { .. }), "{}", error.describe());
    assert_eq!(queue_ids(&orchestrator), ids);
}

#[test]
fn a_cleared_queue_is_empty_and_silent() {
    let (mut orchestrator, _events, playback, _ids) = queue_of(2);
    orchestrator.play().unwrap();
    orchestrator.clear_queue().unwrap();
    assert!(orchestrator.queue().is_empty());
    assert_eq!(orchestrator.state().playback().state, PlaybackStatus::Stopped);
    assert_eq!(*playback.stopped.borrow(), 1);
}

#[test]
fn seeking_needs_something_that_plays() {
    let (mut orchestrator, _events, playback, _ids) = queue_of(1);
    orchestrator.stop().unwrap();
    assert!(orchestrator.seek(10).is_err());
    assert!(playback.seeks.borrow().is_empty());
    orchestrator.play().unwrap();
    orchestrator.seek(10).unwrap();
    assert_eq!(*playback.seeks.borrow(), vec![10]);
    assert_eq!(orchestrator.state().playback().position_ms, 10);
}

#[test]
fn an_empty_query_is_refused_and_changes_nothing() {
    let (mut orchestrator, events, _playback) = player();
    let error = orchestrator.submit_search("   ").unwrap_err();
    assert!(matches!(error, CoreError::Validation { .. }));
    assert!(orchestrator.search_jobs().is_empty());
    assert!(events.names().is_empty());
}

#[test]
fn a_failed_search_cannot_fail_again() {
    let (mut orchestrator, events, _playback) = player();
    let job_id = orchestrator.submit_search("query").unwrap().job_id.unwrap();
    assert!(orchestrator.search_results(&job_id).is_none());
    orchestrator.fail_search(&job_id, "yt_dlp_failed", "it failed").unwrap();
    assert_eq!(orchestrator.search_jobs()[0].status, SearchJobStatus::Failed);
    let error = orchestrator.fail_search(&job_id, "yt_dlp_failed", "it failed").unwrap_err();
    assert_eq!(
        error.describe(),
        "conflict (search_job_not_running): cannot fail a search job that is no longer running"
    );
    assert!(events.names().contains(&"search.job.failed".to_owned()));
    let missing = orchestrator.fail_search("job_none", "c", "m").unwrap_err();
    assert_eq!(missing.describe(), "search_job not found: job_none");
}

#[test]
fn a_refusing_searcher_fails_the_submission() {
    let mut orchestrator = Orchestrator::new(
        StubClock,
        StubIds::default(),
        StubEvents::default(),
        StubPlayback::default(),
        StubSearch { started: Vec::new(), broken: true },
    );
    let error = orchestrator.submit_search("query").unwrap_err();
    assert_eq!(error.describe(), "port error (search_down): no provider");
}

#[test]
fn a_refusing_publisher_is_reported() {
    let (mut orchestrator, events, _playback) = player();
    *events.refusing.borrow_mut() = true;
    let error = orchestrator
        .emit_system_error("code", "message", SystemErrorSeverity::Warning)
        .unwrap_err();
    assert_eq!(error.describe(), "port error (events_down): nobody listens");
}

#[test]
fn a_refusing_player_leaves_the_pause_undone() {
    let (mut orchestrator, _events, playback, _ids) = queue_of(1);
    orchestrator.play().unwrap();
    *playback.broken.borrow_mut() = true;
    let error = orchestrator.pause().unwrap_err();
    assert_eq!(error.describe(), "port error (player_broken): no sound");
    assert_eq!(orchestrator.state().playback().state, PlaybackStatus::Playing);
}

#[test]
fn an_unknown_song_cannot_be_enqueued() {
    let (mut orchestrator, _events, _playback) = player();
    let error = orchestrator.enqueue_song_by_id("song_1").unwrap_err();
    assert_eq!(error.describe(), "song not found: song_1");
}

#[test]
fn the_backend_state_can_be_set() {
    let (mut orchestrator, _events, _playback) = player();
    assert!(orchestrator.state().backend().ready);
    orchestrator.set_backend_ready(false);
    orchestrator.set_backend_version(Some("1.2.3".to_owned()));
    assert!(!orchestrator.state().backend().ready);
    assert_eq!(orchestrator.state().backend().version.as_deref(), Some("1.2.3"));
    let snapshot = orchestrator.snapshot();
    assert_eq!(snapshot.backend.version.as_deref(), Some("1.2.3"));
    assert!(snapshot.snapshot_id.starts_with("snap_"));
    assert_eq!(snapshot.audio.volume_percent, 50);
}
