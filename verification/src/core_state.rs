//! The mathematical model of the core's state: what each command makes of it,
//! and the laws that hold of every state the core can be in.

use vstd::prelude::*;

use crate::domain::{
    AudioSettings, PlaybackState, PlaybackStatus, QueueItem, QueueItemStatus, Song,
};
use crate::models::{
    BackendState, CoreEventView, CoreSnapshotView, QueueUpdateReason, SearchJobRecord, SearchJobStatus,
    YoutubeImportJobRecord, YoutubeImportJobStatus,
};

verus! {

// ---------------------------------------------------------------------------
// The queue
// ---------------------------------------------------------------------------

/// The position of the first item with the given id.
pub open spec fn item_index(queue: Seq<QueueItem>, id: Seq<char>) -> Option<int>
    decreases queue.len(),
{
    if queue.len() == 0 {
        None
    } else if queue[0].id@ == id {
        Some(0)
    } else {
        match item_index(queue.drop_first(), id) {
            Some(i) => Some(i + 1),
            None => None,
        }
    }
}

pub(crate) proof fn lemma_item_index(queue: Seq<QueueItem>, id: Seq<char>)
    ensures
        match item_index(queue, id) {
            Some(i) => 0 <= i < queue.len() && queue[i].id@ == id && forall|j: int|
                0 <= j < i ==> (#[trigger] queue[j]).id@ != id,
            None => forall|j: int| 0 <= j < queue.len() ==> (#[trigger] queue[j]).id@ != id,
        },
    decreases queue.len(),
{
    if queue.len() > 0 && queue[0].id@ != id {
        let rest = queue.drop_first();
        lemma_item_index(rest, id);
        assert forall|j: int| 0 < j < queue.len() implies #[trigger] queue[j] == rest[j - 1] by {}
    }
}

pub(crate) proof fn lemma_item_index_is(queue: Seq<QueueItem>, id: Seq<char>, i: int)
    requires
        0 <= i < queue.len(),
        queue[i].id@ == id,
        forall|j: int| 0 <= j < i ==> (#[trigger] queue[j]).id@ != id,
    ensures
        item_index(queue, id) == Some(i),
{
    lemma_item_index(queue, id);
    match item_index(queue, id) {
        Some(k) => {
            if k < i {
                assert(queue[k].id@ != id);
            } else if k > i {
                assert(queue[i].id@ != id);
            }
        },
        None => {
            assert(queue[i].id@ != id);
        },
    }
}

/// The status of the item at `index` while the item at `current` has a status.
pub open spec fn status_around(index: int, current: int, status: QueueItemStatus) -> QueueItemStatus {
    if index < current {
        QueueItemStatus::Finished
    } else if index == current {
        status
    } else {
        QueueItemStatus::Queued
    }
}

/// The queue around the item at `current`: everything before it is finished,
/// everything behind it waits.
pub open spec fn queue_around(
    queue: Seq<QueueItem>,
    current: int,
    status: QueueItemStatus,
) -> Seq<QueueItem> {
    queue.map(|i: int, item: QueueItem| item.with_status(status_around(i, current, status)))
}

/// An item that nothing plays or loads any more.
pub open spec fn resting_item(item: QueueItem) -> QueueItem {
    match item.status {
        QueueItemStatus::Playing | QueueItemStatus::Loading => item.with_status(
            QueueItemStatus::Queued,
        ),
        _ => item,
    }
}

/// The queue while nothing plays.
pub open spec fn resting(queue: Seq<QueueItem>) -> Seq<QueueItem> {
    queue.map_values(|item: QueueItem| resting_item(item))
}

/// The queue with the item at `from` taken out and put back at `to`.
pub open spec fn moved(queue: Seq<QueueItem>, from: int, to: int) -> Seq<QueueItem> {
    queue.remove(from).insert(to, queue[from])
}

/// The ids of the items, in order.
pub open spec fn item_ids(queue: Seq<QueueItem>) -> Seq<Seq<char>> {
    queue.map_values(|item: QueueItem| item.id@)
}

// ---------------------------------------------------------------------------
// Search jobs and results
// ---------------------------------------------------------------------------

/// The position of the first job with the given id.
pub open spec fn job_index(jobs: Seq<SearchJobRecord>, id: Seq<char>) -> Option<int>
    decreases jobs.len(),
{
    if jobs.len() == 0 {
        None
    } else if jobs[0].job_id@ == id {
        Some(0)
    } else {
        match job_index(jobs.drop_first(), id) {
            Some(i) => Some(i + 1),
            None => None,
        }
    }
}

pub(crate) proof fn lemma_job_index(jobs: Seq<SearchJobRecord>, id: Seq<char>)
    ensures
        match job_index(jobs, id) {
            Some(i) => 0 <= i < jobs.len() && jobs[i].job_id@ == id && forall|j: int|
                0 <= j < i ==> (#[trigger] jobs[j]).job_id@ != id,
            None => forall|j: int| 0 <= j < jobs.len() ==> (#[trigger] jobs[j]).job_id@ != id,
        },
    decreases jobs.len(),
{
    if jobs.len() > 0 && jobs[0].job_id@ != id {
        let rest = jobs.drop_first();
        lemma_job_index(rest, id);
        assert forall|j: int| 0 < j < jobs.len() implies #[trigger] jobs[j] == rest[j - 1] by {}
    }
}

pub(crate) proof fn lemma_job_index_is(jobs: Seq<SearchJobRecord>, id: Seq<char>, i: int)
    requires
        0 <= i < jobs.len(),
        jobs[i].job_id@ == id,
        forall|j: int| 0 <= j < i ==> (#[trigger] jobs[j]).job_id@ != id,
    ensures
        job_index(jobs, id) == Some(i),
{
    lemma_job_index(jobs, id);
    match job_index(jobs, id) {
        Some(k) => {
            if k < i {
                assert(jobs[k].job_id@ != id);
            } else if k > i {
                assert(jobs[i].job_id@ != id);
            }
        },
        None => {
            assert(jobs[i].job_id@ != id);
        },
    }
}

/// The position of the first import with the given id.
pub open spec fn import_index(jobs: Seq<YoutubeImportJobRecord>, id: Seq<char>) -> Option<int>
    decreases jobs.len(),
{
    if jobs.len() == 0 {
        None
    } else if jobs[0].job_id@ == id {
        Some(0)
    } else {
        match import_index(jobs.drop_first(), id) {
            Some(i) => Some(i + 1),
            None => None,
        }
    }
}

pub(crate) proof fn lemma_import_index(jobs: Seq<YoutubeImportJobRecord>, id: Seq<char>)
    ensures
        match import_index(jobs, id) {
            Some(i) => 0 <= i < jobs.len() && jobs[i].job_id@ == id && forall|j: int|
                0 <= j < i ==> (#[trigger] jobs[j]).job_id@ != id,
            None => forall|j: int| 0 <= j < jobs.len() ==> (#[trigger] jobs[j]).job_id@ != id,
        },
    decreases jobs.len(),
{
    if jobs.len() > 0 && jobs[0].job_id@ != id {
        let rest = jobs.drop_first();
        lemma_import_index(rest, id);
        assert forall|j: int| 0 < j < jobs.len() implies #[trigger] jobs[j] == rest[j - 1] by {}
    }
}

pub(crate) proof fn lemma_import_index_is(
    jobs: Seq<YoutubeImportJobRecord>,
    id: Seq<char>,
    i: int,
)
    requires
        0 <= i < jobs.len(),
        jobs[i].job_id@ == id,
        forall|j: int| 0 <= j < i ==> (#[trigger] jobs[j]).job_id@ != id,
    ensures
        import_index(jobs, id) == Some(i),
{
    lemma_import_index(jobs, id);
    match import_index(jobs, id) {
        Some(k) => {
            if k < i {
                assert(jobs[k].job_id@ != id);
            } else if k > i {
                assert(jobs[i].job_id@ != id);
            }
        },
        None => {
            assert(jobs[i].job_id@ != id);
        },
    }
}

/// An import as it stands once its songs are in the queue.
pub open spec fn completed_import(
    job: YoutubeImportJobRecord,
    total_count: u64,
    queued_count: u64,
    failed_count: u64,
    completed_at: String,
) -> YoutubeImportJobRecord {
    YoutubeImportJobRecord {
        status: YoutubeImportJobStatus::Completed,
        total_count,
        queued_count,
        failed_count,
        completed_at: Some(completed_at),
        error_code: None,
        error_message: None,
        ..job
    }
}

/// Whether `failed` is an import as it stands once it has failed.
pub open spec fn is_failed_import(
    job: YoutubeImportJobRecord,
    code: Seq<char>,
    message: Seq<char>,
    completed_at: String,
    failed: YoutubeImportJobRecord,
) -> bool {
    &&& failed == (YoutubeImportJobRecord {
        status: YoutubeImportJobStatus::Failed,
        completed_at: Some(completed_at),
        error_code: failed.error_code,
        error_message: failed.error_message,
        ..job
    })
    &&& crate::text::opt_is(failed.error_code, code)
    &&& crate::text::opt_is(failed.error_message, message)
}

/// The first song of a list with the given id.
pub open spec fn song_in(songs: Seq<Song>, id: Seq<char>) -> Option<Song>
    decreases songs.len(),
{
    if songs.len() == 0 {
        None
    } else if songs[0].id@ == id {
        Some(songs[0])
    } else {
        song_in(songs.drop_first(), id)
    }
}

/// Whether `found` is the song with the given id that the results hold: the
/// first one among the results of the least job id that has such a song.
pub open spec fn song_among(
    results: Map<Seq<char>, Vec<Song>>,
    id: Seq<char>,
    found: Option<Song>,
) -> bool {
    match found {
        Some(song) => exists|job: Seq<char>| #[trigger]
            results.contains_key(job) && song_in(results[job]@, id) == Some(song) && forall|
                earlier: Seq<char>,
            | #[trigger]
                results.contains_key(earlier) && crate::text::text_less(earlier, job) ==> song_in(
                    results[earlier]@,
                    id,
                ) is None,
        None => forall|job: Seq<char>| #[trigger]
            results.contains_key(job) ==> song_in(results[job]@, id) is None,
    }
}

/// At most one song answers to an id.
pub proof fn song_lookup_is_unambiguous(
    results: Map<Seq<char>, Vec<Song>>,
    id: Seq<char>,
    a: Option<Song>,
    b: Option<Song>,
)
    requires
        song_among(results, id, a),
        song_among(results, id, b),
    ensures
        a == b,
{
    if a is Some && b is Some {
        let ja = choose|job: Seq<char>| #[trigger]
            results.contains_key(job) && song_in(results[job]@, id) == a && forall|
                earlier: Seq<char>,
            | #[trigger]
                results.contains_key(earlier) && crate::text::text_less(earlier, job) ==> song_in(
                    results[earlier]@,
                    id,
                ) is None;
        let jb = choose|job: Seq<char>| #[trigger]
            results.contains_key(job) && song_in(results[job]@, id) == b && forall|
                earlier: Seq<char>,
            | #[trigger]
                results.contains_key(earlier) && crate::text::text_less(earlier, job) ==> song_in(
                    results[earlier]@,
                    id,
                ) is None;
        crate::text::lemma_text_less_total(ja, jb);
    }
}

// ---------------------------------------------------------------------------
// The state
// ---------------------------------------------------------------------------

/// The state of the core, with its lists as sequences and its results as a map.
pub struct CoreStateView {
    pub backend: BackendState,
    pub playback: PlaybackState,
    pub audio: AudioSettings,
    pub queue: Seq<QueueItem>,
    pub search_jobs: Seq<SearchJobRecord>,
    pub youtube_import_jobs: Seq<YoutubeImportJobRecord>,
    pub search_results: Map<Seq<char>, Vec<Song>>,
}

impl CoreStateView {
    /// A current item and a playback session are set exactly while the player is
    /// not stopped.
    pub open spec fn consistent(self) -> bool {
        &&& self.playback.state == PlaybackStatus::Stopped <==> self.playback.current_queue_item_id
            is None
        &&& self.playback.state == PlaybackStatus::Stopped <==> self.playback.playback_session_id
            is None
    }

    /// The position of the current item in the queue.
    pub open spec fn current_index(self) -> Option<int> {
        match self.playback.current_queue_item_id {
            Some(id) => item_index(self.queue, id@),
            None => None,
        }
    }

    /// The song of the current item.
    pub open spec fn current_song(self) -> Option<Song> {
        match self.current_index() {
            Some(i) => Some(self.queue[i].song),
            None => None,
        }
    }

    pub open spec fn with_queue(self, queue: Seq<QueueItem>) -> Self {
        CoreStateView { queue, ..self }
    }

    pub open spec fn with_status(self, state: PlaybackStatus) -> Self {
        CoreStateView { playback: PlaybackState { state, ..self.playback }, ..self }
    }

    pub open spec fn with_position(self, position_ms: u64) -> Self {
        CoreStateView { playback: PlaybackState { position_ms, ..self.playback }, ..self }
    }

    pub open spec fn with_jobs(self, search_jobs: Seq<SearchJobRecord>) -> Self {
        CoreStateView { search_jobs, ..self }
    }

    pub open spec fn with_imports(self, youtube_import_jobs: Seq<YoutubeImportJobRecord>) -> Self {
        CoreStateView { youtube_import_jobs, ..self }
    }

    pub open spec fn with_audio(self, audio: AudioSettings) -> Self {
        CoreStateView { audio, ..self }
    }

    /// The state after playback was stopped, with the queue as it is.
    pub open spec fn silenced(self) -> Self {
        CoreStateView {
            playback: PlaybackState {
                state: PlaybackStatus::Stopped,
                position_ms: 0,
                current_queue_item_id: None,
                playback_session_id: None,
            },
            ..self
        }
    }

    /// The state after playback was stopped.
    pub open spec fn stopped(self) -> Self {
        self.silenced().with_queue(resting(self.queue))
    }

    /// The state after the item at `index` was started in a session.
    pub open spec fn started(self, index: int, session: String, position_ms: u64) -> Self {
        CoreStateView {
            playback: PlaybackState {
                state: PlaybackStatus::Playing,
                position_ms,
                current_queue_item_id: Some(self.queue[index].id),
                playback_session_id: Some(session),
            },
            queue: queue_around(self.queue, index, QueueItemStatus::Playing),
            ..self
        }
    }

    /// The state while the item at `index` is being loaded in a session.
    pub open spec fn loading(self, index: int, session: String) -> Self {
        CoreStateView {
            playback: PlaybackState {
                state: PlaybackStatus::Loading,
                position_ms: 0,
                current_queue_item_id: Some(self.queue[index].id),
                playback_session_id: Some(session),
            },
            queue: self.queue.update(
                index,
                self.queue[index].with_status(QueueItemStatus::Loading),
            ),
            ..self
        }
    }

    /// The state once the item that was being loaded plays.
    pub open spec fn confirmed(self, position_ms: u64) -> Self {
        CoreStateView {
            playback: PlaybackState {
                state: PlaybackStatus::Playing,
                position_ms,
                ..self.playback
            },
            queue: match self.current_index() {
                Some(current) => queue_around(self.queue, current, QueueItemStatus::Playing),
                None => self.queue,
            },
            ..self
        }
    }

    /// The status of the current item.
    pub open spec fn current_status(self) -> QueueItemStatus {
        if self.playback.state == PlaybackStatus::Loading {
            QueueItemStatus::Loading
        } else {
            QueueItemStatus::Playing
        }
    }

    /// The whole state as it is shown, under an id and a time.
    pub open spec fn shown(self, snapshot_id: String, timestamp: String) -> CoreSnapshotView {
        CoreSnapshotView {
            backend: self.backend,
            playback: self.playback,
            audio: self.audio,
            current_song: self.current_song(),
            queue: self.queue,
            search_jobs: self.search_jobs,
            youtube_import_jobs: self.youtube_import_jobs,
            revision: 0,
            snapshot_id,
            timestamp,
        }
    }

    /// The state after an item was moved.
    pub open spec fn rearranged(self, from: int, to: int) -> Self {
        let next = self.with_queue(moved(self.queue, from, to));
        match next.current_index() {
            Some(current) => next.with_queue(
                queue_around(next.queue, current, self.current_status()),
            ),
            None => next,
        }
    }

    /// The state after the current item came to its end, before what follows it starts.
    pub open spec fn finished(self, current: int) -> Self {
        self.with_queue(
            self.queue.update(
                current,
                self.queue[current].with_status(QueueItemStatus::Finished),
            ),
        )
    }

    /// The event that tells of the playback state.
    pub open spec fn playback_event(self) -> CoreEventView {
        CoreEventView::PlaybackStateChanged {
            state: self.playback.state,
            current_queue_item_id: self.playback.current_queue_item_id,
            position_ms: self.playback.position_ms,
        }
    }

    /// The event that tells of the queue.
    pub open spec fn queue_event(self, reason: QueueUpdateReason) -> CoreEventView {
        CoreEventView::QueueUpdated { reason, items: self.queue }
    }

    /// The events that tell of a started item: the track where it is another
    /// one than before, the playback state, and the queue.
    pub open spec fn start_events(self, index: int, session: String, position_ms: u64) -> Seq<
        CoreEventView,
    > {
        let after = self.started(index, session, position_ms);
        let item = self.queue[index];
        let news = seq![
            after.playback_event(),
            after.queue_event(QueueUpdateReason::CurrentChanged),
        ];
        if crate::text::opt_is(self.playback.current_queue_item_id, item.id@) {
            news
        } else {
            seq![CoreEventView::PlaybackTrackChanged { queue_item_id: item.id, song: item.song }]
                + news
        }
    }

    /// The events that tell of items that were added, the first of them at
    /// `index`: the queue, and where that item is being loaded, the track and the
    /// playback state.
    pub open spec fn add_events(self, index: int, loaded: bool) -> Seq<CoreEventView> {
        let item = self.queue[index];
        if loaded {
            seq![
                self.queue_event(QueueUpdateReason::Add),
                CoreEventView::PlaybackTrackChanged { queue_item_id: item.id, song: item.song },
                self.playback_event(),
            ]
        } else {
            seq![self.queue_event(QueueUpdateReason::Add)]
        }
    }

    /// A job as it stands once its search has come back.
    pub open spec fn settled_job(
        self,
        index: int,
        status: SearchJobStatus,
        completed_at: String,
        result_count: Option<u64>,
    ) -> SearchJobRecord {
        SearchJobRecord {
            status,
            completed_at: Some(completed_at),
            result_count,
            ..self.search_jobs[index]
        }
    }
}

// ---------------------------------------------------------------------------
// Laws
// ---------------------------------------------------------------------------

/// Starting, stopping and finishing change no item but its status: ids, songs
/// and order stay.
pub proof fn playback_keeps_the_items(
    state: CoreStateView,
    index: int,
    session: String,
    position_ms: u64,
)
    requires
        0 <= index < state.queue.len(),
    ensures
        item_ids(state.started(index, session, position_ms).queue) == item_ids(state.queue),
        item_ids(state.stopped().queue) == item_ids(state.queue),
        item_ids(state.finished(index).queue) == item_ids(state.queue),
        forall|i: int|
            0 <= i < state.queue.len() ==> {
                &&& (#[trigger] state.queue[i]).song == state.started(
                    index,
                    session,
                    position_ms,
                ).queue[i].song
                &&& state.queue[i].song == state.stopped().queue[i].song
                &&& state.queue[i].song == state.finished(index).queue[i].song
            },
{
    assert(item_ids(state.started(index, session, position_ms).queue) =~= item_ids(state.queue));
    assert(item_ids(state.stopped().queue) =~= item_ids(state.queue));
    assert(item_ids(state.finished(index).queue) =~= item_ids(state.queue));
}

/// After a start exactly one item plays, the started one. Where no earlier item
/// has its id, it is the current item.
pub proof fn a_start_plays_one_item(
    state: CoreStateView,
    index: int,
    session: String,
    position_ms: u64,
)
    requires
        0 <= index < state.queue.len(),
    ensures
        forall|i: int|
            0 <= i < state.queue.len() ==> ((#[trigger] state.started(
                index,
                session,
                position_ms,
            ).queue[i]).status == QueueItemStatus::Playing <==> i == index),
        forall|i: int|
            0 <= i < index ==> (#[trigger] state.started(index, session, position_ms).queue[i]).status
                == QueueItemStatus::Finished,
        forall|i: int|
            index < i < state.queue.len() ==> (#[trigger] state.started(
                index,
                session,
                position_ms,
            ).queue[i]).status == QueueItemStatus::Queued,
        item_index(state.queue, state.queue[index].id@) == Some(index) ==> state.started(
            index,
            session,
            position_ms,
        ).current_index() == Some(index),
{
    let after = state.started(index, session, position_ms);
    if item_index(state.queue, state.queue[index].id@) == Some(index) {
        lemma_item_index(state.queue, state.queue[index].id@);
        assert forall|j: int| 0 <= j < index implies (#[trigger] after.queue[j]).id@
            != state.queue[index].id@ by {
            assert(state.queue[j].id@ != state.queue[index].id@);
        }
        lemma_item_index_is(after.queue, state.queue[index].id@, index);
    }
}

/// After a stop nothing plays or loads and no item is current; stopping again
/// changes nothing.
pub proof fn a_stop_silences_the_queue(state: CoreStateView)
    ensures
        state.stopped().playback.state == PlaybackStatus::Stopped,
        state.stopped().playback.position_ms == 0,
        state.stopped().current_index() is None,
        forall|i: int|
            0 <= i < state.queue.len() ==> (#[trigger] state.stopped().queue[i]).status
                != QueueItemStatus::Playing && state.stopped().queue[i].status
                != QueueItemStatus::Loading,
        state.stopped().stopped() == state.stopped(),
{
    let once = state.stopped();
    assert(once.stopped().queue =~= once.queue);
}

/// Moving an item and moving it back restores the order of the queue.
pub proof fn a_move_can_be_undone(queue: Seq<QueueItem>, from: int, to: int)
    requires
        0 <= from < queue.len(),
        0 <= to < queue.len(),
    ensures
        moved(moved(queue, from, to), to, from) == queue,
{
    assert(moved(moved(queue, from, to), to, from) =~= queue);
}

/// A move keeps every item: the queue has the same items as before, each as
/// often as before.
pub proof fn a_move_keeps_every_item(queue: Seq<QueueItem>, from: int, to: int)
    requires
        0 <= from < queue.len(),
        0 <= to < queue.len(),
    ensures
        moved(queue, from, to).len() == queue.len(),
        moved(queue, from, to)[to] == queue[from],
        moved(queue, from, to).to_multiset() == queue.to_multiset(),
{
    broadcast use vstd::seq_lib::group_to_multiset_ensures;

    let rest = queue.remove(from);
    assert(rest.insert(to, queue[from]) =~= rest.subrange(0, to).push(queue[from])
        + rest.subrange(to, rest.len() as int));
    let a = rest.subrange(0, to);
    let b = rest.subrange(to, rest.len() as int);
    assert(rest =~= a + b);
    vstd::seq_lib::lemma_multiset_commutative(a, b);
    vstd::seq_lib::lemma_multiset_commutative(a.push(queue[from]), b);
    assert(moved(queue, from, to).to_multiset() =~= queue.to_multiset());
}

/// Pausing and playing on leaves the state as it was.
pub proof fn a_pause_can_be_undone(state: CoreStateView)
    requires
        state.playback.state == PlaybackStatus::Playing,
    ensures
        state.with_status(PlaybackStatus::Paused).with_status(PlaybackStatus::Playing) == state,
        state.with_status(PlaybackStatus::Paused).current_index() == state.current_index(),
{
}

} // verus!
