//! Laws of the orchestrator: what holds across its commands, whatever the ports
//! reply.

use vstd::prelude::*;

use crate::core_state::CoreStateView;
use crate::domain::{PlaybackStatus, QueueItem, QueueItemStatus, Song};
use crate::models::{CommandReceipt, CoreEventView, SearchJobStatus, YoutubeImportJobStatus};
use crate::orchestrator::{CoreError, CoreErrorView};
use crate::ports::PortStep;

verus! {

/// A failure to report something always stems from a port.
pub proof fn reports_fail_by_ports_alone(
    steps: Seq<PortStep>,
    events: Seq<CoreEventView>,
    failure: Option<CoreErrorView>,
)
    requires
        crate::orchestrator::reports(steps, events, failure),
    ensures
        failure matches Some(error) ==> error is Port,
    decreases events.len(),
{
    if events.len() > 0 && steps[2]->Publish_reply is Ok {
        reports_fail_by_ports_alone(steps.skip(3), events.drop_first(), failure);
    }
}

/// One of the commands that answer with a receipt.
pub enum Command {
    Play,
    Pause,
    Stop,
    Next,
    Previous,
    Seek { position_ms: u64 },
    Remove { queue_item_id: Seq<char> },
    Move { queue_item_id: Seq<char>, to_index: u64 },
    Clear,
    Enqueue { song: Song },
    EnqueueFound { song_id: Seq<char> },
    Search { query: Seq<char> },
    Import { url: Seq<char> },
    SetVolume { volume_percent: u8 },
}

impl Command {
    /// What the command does to a state and says to the ports.
    pub open spec fn acts(
        self,
        before: CoreStateView,
        steps: Seq<PortStep>,
        after: CoreStateView,
        result: Result<CommandReceipt, CoreError>,
    ) -> bool {
        match self {
            Command::Play => crate::orchestrator::plays(before, steps, after, result),
            Command::Pause => crate::orchestrator::pauses(before, steps, after, result),
            Command::Stop => crate::orchestrator::stops(before, steps, after, result),
            Command::Next => crate::orchestrator::goes_on(before, steps, after, result),
            Command::Previous => crate::orchestrator::goes_back(before, steps, after, result),
            Command::Seek { position_ms } => crate::orchestrator::seeks(
                before,
                position_ms,
                steps,
                after,
                result,
            ),
            Command::Remove { queue_item_id } => crate::orchestrator::removes(
                before,
                queue_item_id,
                steps,
                after,
                result,
            ),
            Command::Move { queue_item_id, to_index } => crate::orchestrator::moves(
                before,
                queue_item_id,
                to_index,
                steps,
                after,
                result,
            ),
            Command::Clear => crate::orchestrator::clears(before, steps, after, result),
            Command::Enqueue { song } => crate::orchestrator::enqueues(
                before,
                song,
                steps,
                after,
                result,
            ),
            Command::EnqueueFound { song_id } => crate::orchestrator::enqueues_found(
                before,
                song_id,
                steps,
                after,
                result,
            ),
            Command::Search { query } => crate::orchestrator::submits(
                before,
                query,
                steps,
                after,
                result,
            ),
            Command::Import { url } => crate::orchestrator::submits_import(
                before,
                url,
                steps,
                after,
                result,
            ),
            Command::SetVolume { volume_percent } => crate::orchestrator::sets_volume(
                before,
                volume_percent,
                steps,
                after,
                result,
            ),
        }
    }
}

/// A command that the core itself refuses, and no port, says nothing to any
/// port and leaves the state as it was.
pub proof fn a_refused_command_changes_nothing(
    command: Command,
    before: CoreStateView,
    steps: Seq<PortStep>,
    after: CoreStateView,
    result: Result<CommandReceipt, CoreError>,
)
    requires
        command.acts(before, steps, after, result),
        result matches Err(error) && !(error@ is Port),
    ensures
        steps.len() == 0,
        after == before,
{
    let failure = crate::orchestrator::failure(result);
    assert forall|part: Seq<PortStep>, events: Seq<CoreEventView>| #[trigger]
        crate::orchestrator::reports(part, events, failure) implies false by {
        reports_fail_by_ports_alone(part, events, failure);
    }
}

/// Every command keeps the state consistent: an item is current, in a session,
/// exactly while the player is not stopped.
pub proof fn commands_keep_the_state_consistent(
    command: Command,
    before: CoreStateView,
    steps: Seq<PortStep>,
    after: CoreStateView,
    result: Result<CommandReceipt, CoreError>,
)
    requires
        before.consistent(),
        command.acts(before, steps, after, result),
    ensures
        after.consistent(),
{
}

/// No command touches what is known of the backend or the results of completed
/// searches; only searches and imports touch their jobs, and only a new volume
/// touches the volume.
pub proof fn commands_keep_results(
    command: Command,
    before: CoreStateView,
    steps: Seq<PortStep>,
    after: CoreStateView,
    result: Result<CommandReceipt, CoreError>,
)
    requires
        command.acts(before, steps, after, result),
    ensures
        after.backend == before.backend,
        after.search_results == before.search_results,
        !(command is Search) ==> after.search_jobs == before.search_jobs,
        !(command is Import) ==> after.youtube_import_jobs == before.youtube_import_jobs,
        !(command is SetVolume) ==> after.audio == before.audio,
{
}

/// Pausing what plays and playing on brings back the state from before.
pub proof fn pause_and_play_restore_the_state(
    before: CoreStateView,
    pause_steps: Seq<PortStep>,
    paused: CoreStateView,
    pause_result: Result<CommandReceipt, CoreError>,
    play_steps: Seq<PortStep>,
    after: CoreStateView,
    play_result: Result<CommandReceipt, CoreError>,
)
    requires
        before.current_index() is Some,
        crate::orchestrator::pauses(before, pause_steps, paused, pause_result),
        pause_result is Ok,
        crate::orchestrator::plays(paused, play_steps, after, play_result),
        play_result is Ok,
    ensures
        after == before,
{
    crate::core_state::lemma_item_index(
        before.queue,
        before.playback.current_queue_item_id->0@,
    );
}

/// Whether no two items of the queue have the same id.
pub open spec fn ids_differ(queue: Seq<QueueItem>) -> bool {
    forall|i: int, j: int|
        0 <= i < j < queue.len() ==> (#[trigger] queue[i]).id@ != (#[trigger] queue[j]).id@
}

/// Going on to the next item and back again plays the item from before, from
/// its start.
pub proof fn next_and_previous_return(
    before: CoreStateView,
    next_steps: Seq<PortStep>,
    between: CoreStateView,
    next_result: Result<CommandReceipt, CoreError>,
    previous_steps: Seq<PortStep>,
    after: CoreStateView,
    previous_result: Result<CommandReceipt, CoreError>,
)
    requires
        ids_differ(before.queue),
        before.current_index() matches Some(i) && i + 1 < before.queue.len(),
        crate::orchestrator::goes_on(before, next_steps, between, next_result),
        next_result is Ok,
        crate::orchestrator::goes_back(between, previous_steps, after, previous_result),
        previous_result is Ok,
    ensures
        between.current_index() == Some(before.current_index()->0 + 1),
        after.current_index() == before.current_index(),
        after.playback.state == PlaybackStatus::Playing,
        after.playback.position_ms == 0,
        crate::core_state::item_ids(after.queue) == crate::core_state::item_ids(before.queue),
{
    let i = before.current_index()->0;
    crate::core_state::lemma_item_index(before.queue, before.playback.current_queue_item_id->0@);
    assert(between == before.started(i + 1, next_steps[0]->NewId_id, 0));
    let q = between.queue;
    assert forall|j: int| 0 <= j < before.queue.len() implies (#[trigger] q[j]).id
        == before.queue[j].id by {}
    assert(q.len() == before.queue.len());
    crate::core_state::lemma_item_index_is(q, before.queue[i + 1].id@, i + 1);
    assert(between.current_index() == Some(i + 1));
    assert(after == between.started(i, previous_steps[0]->NewId_id, 0));
    let r = after.queue;
    assert forall|j: int| 0 <= j < before.queue.len() implies (#[trigger] r[j]).id
        == before.queue[j].id by {
        assert(q[j].id == before.queue[j].id);
    }
    crate::core_state::lemma_item_index_is(r, q[i].id@, i);
    assert(crate::core_state::item_ids(after.queue) =~= crate::core_state::item_ids(before.queue));
}

proof fn reports_never_play(
    steps: Seq<PortStep>,
    events: Seq<CoreEventView>,
    failure: Option<CoreErrorView>,
)
    requires
        crate::orchestrator::reports(steps, events, failure),
    ensures
        forall|i: int| 0 <= i < steps.len() ==> !(#[trigger] steps[i] is Playback),
    decreases events.len(),
{
    if events.len() > 0 {
        let first = steps.take(3);
        assert(crate::orchestrator::publication(first, events[0]));
        assert forall|i: int| 0 <= i < 3 implies !(#[trigger] steps[i] is Playback) by {
            assert(steps[i] == first[i]);
        }
        if steps[2]->Publish_reply is Ok {
            let rest = steps.skip(3);
            reports_never_play(rest, events.drop_first(), failure);
            assert forall|i: int| 3 <= i < steps.len() implies !(#[trigger] steps[i] is Playback) by {
                assert(steps[i] == rest[i - 3]);
            }
        }
    }
}

proof fn changes_never_play(
    steps: Seq<PortStep>,
    events: Seq<CoreEventView>,
    state: CoreStateView,
    failure: Option<CoreErrorView>,
)
    requires
        crate::orchestrator::tells_change(steps, events, state, failure),
    ensures
        forall|i: int| 0 <= i < steps.len() ==> !(#[trigger] steps[i] is Playback),
{
    if failure is Some && crate::orchestrator::reports(steps, events, failure) {
        reports_never_play(steps, events, failure);
    } else {
        let n = 3 * events.len() as int;
        let first = steps.take(n);
        let rest = steps.skip(n);
        reports_never_play(first, events, None);
        reports_never_play(
            rest.skip(2),
            seq![CoreEventView::StateUpdated(state.shown(rest[0]->NewId_id, rest[1]->ReadClock_now))],
            failure,
        );
        assert forall|i: int| 0 <= i < steps.len() implies !(#[trigger] steps[i] is Playback) by {
            if i < n {
                assert(steps[i] == first[i]);
            } else if i < n + 2 {
                assert(steps[i] == rest[i - n]);
            } else {
                assert(steps[i] == rest.skip(2)[i - n - 2]);
            }
        }
    }
}

proof fn removals_never_play(
    before: CoreStateView,
    queue_item_id: Seq<char>,
    steps: Seq<PortStep>,
    after: CoreStateView,
    result: Result<CommandReceipt, CoreError>,
)
    requires
        crate::orchestrator::removes(before, queue_item_id, steps, after, result),
    ensures
        forall|i: int| 0 <= i < steps.len() ==> !(#[trigger] steps[i] is Playback),
{
    if steps.len() > 0 {
        let events = seq![after.queue_event(crate::models::QueueUpdateReason::Remove)];
        match result {
            Err(error) => changes_never_play(steps, events, after, Some(error@)),
            Ok(_) => {
                let n = steps.len() - 2;
                changes_never_play(steps.take(n), events, after, None);
                assert forall|i: int| 0 <= i < steps.len() implies !(#[trigger] steps[i]
                    is Playback) by {
                    if i < n {
                        assert(steps[i] == steps.take(n)[i]);
                    } else {
                        assert(steps[i] == steps.skip(n)[i - n]);
                    }
                }
            },
        }
    }
}

/// Removing never touches what is playing: the player is not called, its state
/// stays, and the current item is still in the queue.
pub proof fn the_current_item_cannot_be_removed(
    before: CoreStateView,
    queue_item_id: Seq<char>,
    steps: Seq<PortStep>,
    after: CoreStateView,
    result: Result<CommandReceipt, CoreError>,
)
    requires
        crate::orchestrator::removes(before, queue_item_id, steps, after, result),
    ensures
        forall|i: int| 0 <= i < steps.len() ==> !(#[trigger] steps[i] is Playback),
        after.playback == before.playback,
        before.current_index() is Some ==> after.current_index() is Some,
        after.current_song() == before.current_song(),
{
    removals_never_play(before, queue_item_id, steps, after, result);
    crate::core_state::lemma_item_index(before.queue, queue_item_id);
    match (
        crate::core_state::item_index(before.queue, queue_item_id),
        before.playback.current_queue_item_id,
    ) {
        (Some(k), Some(current)) => {
            crate::core_state::lemma_item_index(before.queue, current@);
            crate::core_state::lemma_item_index(after.queue, current@);
            if current@ != queue_item_id {
                match before.current_index() {
                    Some(c) => {
                        let moved = if c < k { c } else { c - 1 };
                        assert(after.queue[moved] == before.queue[c]);
                        assert forall|j: int| 0 <= j < moved implies (#[trigger] after.queue[j]).id@
                            != current@ by {
                            let from = if j < k { j } else { j + 1 };
                            assert(after.queue[j] == before.queue[from]);
                        }
                        crate::core_state::lemma_item_index_is(after.queue, current@, moved);
                    },
                    None => {
                        assert forall|j: int|
                            0 <= j < after.queue.len() implies (#[trigger] after.queue[j]).id@
                            != current@ by {
                            let from = if j < k { j } else { j + 1 };
                            assert(after.queue[j] == before.queue[from]);
                        }
                    },
                }
            }
        },
        _ => {},
    }
}

/// A removed item is gone, and the others keep their order.
pub proof fn a_removed_item_is_gone(
    before: CoreStateView,
    queue_item_id: Seq<char>,
    steps: Seq<PortStep>,
    after: CoreStateView,
    result: Result<CommandReceipt, CoreError>,
)
    requires
        ids_differ(before.queue),
        crate::orchestrator::removes(before, queue_item_id, steps, after, result),
        result is Ok,
    ensures
        after.queue.len() == before.queue.len() - 1,
        crate::core_state::item_index(after.queue, queue_item_id) is None,
        crate::core_state::item_ids(after.queue) == crate::core_state::item_ids(
            before.queue,
        ).remove_value(queue_item_id),
{
    crate::core_state::lemma_item_index(before.queue, queue_item_id);
    let i = crate::core_state::item_index(before.queue, queue_item_id)->0;
    let ids = crate::core_state::item_ids(before.queue);
    assert(ids[i] == queue_item_id);
    ids.index_of_first_ensures(queue_item_id);
    assert(ids.index_of_first(queue_item_id) == Some(i)) by {
        let k = ids.index_of_first(queue_item_id)->0;
        assert(ids[k] == queue_item_id);
        assert(before.queue[k].id@ == queue_item_id);
        if k < i {
            assert(before.queue[k].id@ != before.queue[i].id@);
        } else if i < k {
            assert(before.queue[i].id@ != before.queue[k].id@);
        }
    }
    assert(crate::core_state::item_ids(after.queue) =~= ids.remove(i));
    assert forall|j: int| 0 <= j < after.queue.len() implies (#[trigger] after.queue[j]).id@
        != queue_item_id by {
        let k = if j < i { j } else { j + 1 };
        assert(after.queue[j].id == before.queue[k].id);
    }
    crate::core_state::lemma_item_index(after.queue, queue_item_id);
}

/// What a search has found can be read under its job: the job is completed and
/// its results are those that were handed in.
pub proof fn completed_results_can_be_read(
    before: CoreStateView,
    job_id: Seq<char>,
    results: Vec<Song>,
    steps: Seq<PortStep>,
    after: CoreStateView,
    result: Result<(), CoreError>,
)
    requires
        crate::orchestrator::completes(before, job_id, results, steps, after, result),
        result is Ok,
    ensures
        after.search_results.contains_key(job_id),
        after.search_results[job_id] == results,
        crate::core_state::job_index(after.search_jobs, job_id) matches Some(i)
            && after.search_jobs[i].status == SearchJobStatus::Completed
            && after.search_jobs[i].result_count == Some(results@.len() as u64),
        forall|other: Seq<char>| #[trigger]
            before.search_results.contains_key(other) && other != job_id
                ==> after.search_results.contains_key(other) && after.search_results[other]
                == before.search_results[other],
{
    crate::core_state::lemma_job_index(before.search_jobs, job_id);
    let i = crate::core_state::job_index(before.search_jobs, job_id)->0;
    assert forall|j: int| 0 <= j < i implies (#[trigger] after.search_jobs[j]).job_id@ != job_id by {
        assert(before.search_jobs[j].job_id@ != job_id);
    }
    crate::core_state::lemma_job_index_is(after.search_jobs, job_id, i);
}

/// A search that has failed or completed cannot fail any more.
pub proof fn a_settled_search_cannot_fail(
    before: CoreStateView,
    job_id: Seq<char>,
    code: Seq<char>,
    message: Seq<char>,
    steps: Seq<PortStep>,
    after: CoreStateView,
    result: Result<(), CoreError>,
)
    requires
        crate::core_state::job_index(before.search_jobs, job_id) matches Some(i)
            && before.search_jobs[i].status != SearchJobStatus::Running,
        crate::orchestrator::fails(before, job_id, code, message, steps, after, result),
    ensures
        result matches Err(error) && error@ is Conflict,
        after == before,
{
}

/// A song that is added while nothing is current is loaded at once: it is the
/// current item, in a session of its own. Where the player refuses it waits, and
/// the command is none the worse for it.
pub proof fn a_song_added_to_an_idle_player_is_loaded(
    before: CoreStateView,
    song: Song,
    steps: Seq<PortStep>,
    after: CoreStateView,
    result: Result<CommandReceipt, CoreError>,
)
    requires
        before.playback.current_queue_item_id is None,
        crate::orchestrator::enqueues(before, song, steps, after, result),
    ensures
        after.queue.len() == before.queue.len() + 1,
        after.queue.last().song == song,
        after.queue.drop_last() == before.queue,
        steps[3] is Playback,
        steps[3]->Playback_reply is Ok ==> {
            &&& after.playback.state == PlaybackStatus::Loading
            &&& after.playback.position_ms == 0
            &&& after.playback.current_queue_item_id == Some(after.queue.last().id)
            &&& after.playback.playback_session_id is Some
            &&& after.queue.last().status == QueueItemStatus::Loading
        },
        steps[3]->Playback_reply is Err ==> {
            &&& after.playback == before.playback
            &&& after.queue.last().status == QueueItemStatus::Queued
        },
{
    assert(steps.subrange(2, 4)[1] == steps[3]);
    assert(after.queue.drop_last() =~= before.queue);
}

/// A song that is added while an item is current waits, and playback is left
/// alone.
pub proof fn a_song_added_behind_a_current_item_waits(
    before: CoreStateView,
    song: Song,
    steps: Seq<PortStep>,
    after: CoreStateView,
    result: Result<CommandReceipt, CoreError>,
)
    requires
        before.playback.current_queue_item_id is Some,
        crate::orchestrator::enqueues(before, song, steps, after, result),
    ensures
        after.playback == before.playback,
        after.queue.len() == before.queue.len() + 1,
        after.queue.drop_last() == before.queue,
        after.queue.last().song == song,
        after.queue.last().status == QueueItemStatus::Queued,
{
    assert(after.queue.drop_last() =~= before.queue);
}

/// The songs of a completed import stand at the end of the queue, in the order in
/// which they were found. What was there before is left alone, and so is what is
/// current; where nothing is, only the first song can be loaded. The import is on
/// record as completed, with its counts.
pub proof fn an_import_appends_its_songs(
    before: CoreStateView,
    job_id: Seq<char>,
    songs: Seq<Song>,
    total_count: u64,
    failed_count: u64,
    steps: Seq<PortStep>,
    after: CoreStateView,
    result: Result<(), CoreError>,
)
    requires
        crate::orchestrator::completes_import(
            before,
            job_id,
            songs,
            total_count,
            failed_count,
            steps,
            after,
            result,
        ),
        result is Ok,
    ensures
        songs.len() > 0,
        before.playback.current_queue_item_id is Some ==> after.playback == before.playback,
        after.playback == before.playback || after.playback.current_queue_item_id == Some(
            after.queue[before.queue.len() as int].id,
        ),
        after.queue.len() == before.queue.len() + songs.len(),
        after.queue.take(before.queue.len() as int) == before.queue,
        forall|i: int|
            0 <= i < songs.len() ==> {
                &&& (#[trigger] after.queue[before.queue.len() + i]).song == songs[i]
                &&& i > 0 || after.playback == before.playback
                    ==> after.queue[before.queue.len() + i].status == QueueItemStatus::Queued
            },
        crate::core_state::import_index(after.youtube_import_jobs, job_id) matches Some(i) && {
            let job = after.youtube_import_jobs[i];
            &&& job.status == YoutubeImportJobStatus::Completed
            &&& job.url == before.youtube_import_jobs[i].url
            &&& job.total_count == total_count
            &&& job.queued_count == songs.len() as u64
            &&& job.failed_count == failed_count
        },
{
    assert(after.queue.take(before.queue.len() as int) =~= before.queue);
    crate::core_state::lemma_import_index(before.youtube_import_jobs, job_id);
    lemma_import_stays(before, job_id, after);
}

/// A failed import is on record with its code and its message; the queue and what
/// plays are left alone.
pub proof fn a_failed_import_is_on_record(
    before: CoreStateView,
    job_id: Seq<char>,
    code: Seq<char>,
    message: Seq<char>,
    steps: Seq<PortStep>,
    after: CoreStateView,
    result: Result<(), CoreError>,
)
    requires
        crate::core_state::import_index(before.youtube_import_jobs, job_id) is Some,
        crate::orchestrator::fails_import(before, job_id, code, message, steps, after, result),
    ensures
        after.queue == before.queue,
        after.playback == before.playback,
        crate::core_state::import_index(after.youtube_import_jobs, job_id) matches Some(i) && {
            let job = after.youtube_import_jobs[i];
            &&& job.status == YoutubeImportJobStatus::Failed
            &&& crate::text::opt_is(job.error_code, code)
            &&& crate::text::opt_is(job.error_message, message)
        },
{
    crate::core_state::lemma_import_index(before.youtube_import_jobs, job_id);
    lemma_import_stays(before, job_id, after);
}

proof fn lemma_import_stays(before: CoreStateView, job_id: Seq<char>, after: CoreStateView)
    requires
        crate::core_state::import_index(before.youtube_import_jobs, job_id) matches Some(i) && {
            &&& after.youtube_import_jobs == before.youtube_import_jobs.update(
                i,
                after.youtube_import_jobs[i],
            )
            &&& after.youtube_import_jobs[i].job_id == before.youtube_import_jobs[i].job_id
        },
    ensures
        crate::core_state::import_index(after.youtube_import_jobs, job_id)
            == crate::core_state::import_index(before.youtube_import_jobs, job_id),
{
    crate::core_state::lemma_import_index(before.youtube_import_jobs, job_id);
    let i = crate::core_state::import_index(before.youtube_import_jobs, job_id)->0;
    assert forall|j: int| 0 <= j < i implies (#[trigger] after.youtube_import_jobs[j]).job_id@
        != job_id by {
        assert(before.youtube_import_jobs[j].job_id@ != job_id);
    }
    crate::core_state::lemma_import_index_is(after.youtube_import_jobs, job_id, i);
}

} // verus!
