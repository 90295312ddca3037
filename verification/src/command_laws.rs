//! Laws of the queue commands, of searches and imports, and of what is told: said
//! of the items, jobs and events themselves.

use vstd::prelude::*;

use crate::core_state::CoreStateView;
use crate::domain::{QueueItem, QueueItemStatus, Song};
use crate::models::{
    CommandReceipt, CoreEventView, QueueUpdateReason, SearchJobStatus, YoutubeImportJobStatus,
};
use crate::orchestrator::{CoreError, CoreErrorView};
use crate::ports::{IdKind, PlaybackCall, PortStep};

verus! {

/// Whether a result is a failure to find something.
pub open spec fn is_not_found<T>(
    result: Result<T, CoreError>,
    kind: Seq<char>,
    id: Seq<char>,
) -> bool {
    &&& result matches Err(error)
    &&& error@ matches CoreErrorView::NotFound { kind: missing, id: asked }
    &&& missing == kind
    &&& asked == id
}

/// Whether a result is a failed validation under a code.
pub open spec fn is_invalid<T>(result: Result<T, CoreError>, code: Seq<char>) -> bool {
    &&& result matches Err(error)
    &&& error@ matches CoreErrorView::Validation { code: given, .. }
    &&& given == code
}

// ---------------------------------------------------------------------------
// The queue
// ---------------------------------------------------------------------------

/// A removed item is taken out and no other is touched; one that is not there is
/// not found, and the current one is not removable.
pub proof fn only_the_named_item_is_removed(
    before: CoreStateView,
    k: int,
    queue_item_id: Seq<char>,
    steps: Seq<PortStep>,
    after: CoreStateView,
    result: Result<CommandReceipt, CoreError>,
)
    requires
        0 <= k < before.queue.len(),
        before.queue[k].id@ == queue_item_id,
        forall|j: int| 0 <= j < k ==> (#[trigger] before.queue[j]).id@ != queue_item_id,
        crate::orchestrator::removes(before, queue_item_id, steps, after, result),
    ensures
        before.playback.current_queue_item_id matches Some(id) && id@ == queue_item_id ==> {
            &&& crate::playback_laws::is_conflict(result, "current_queue_item_not_removable"@)
            &&& after == before
        },
        !(before.playback.current_queue_item_id matches Some(id) && id@ == queue_item_id) ==> {
            &&& after.queue.len() == before.queue.len() - 1
            &&& forall|j: int| 0 <= j < k ==> #[trigger] after.queue[j] == before.queue[j]
            &&& forall|j: int|
                k <= j < after.queue.len() ==> #[trigger] after.queue[j] == before.queue[j + 1]
        },
        after.playback == before.playback,
        crate::playback_laws::else_unchanged(before, after),
{
    crate::core_state::lemma_item_index_is(before.queue, queue_item_id, k);
}

/// An id that no item has is not found, by a removal or by a move, and nothing
/// changes.
pub proof fn unknown_items_are_not_found(
    before: CoreStateView,
    queue_item_id: Seq<char>,
    to_index: u64,
    steps: Seq<PortStep>,
    after: CoreStateView,
    result: Result<CommandReceipt, CoreError>,
)
    requires
        forall|j: int|
            0 <= j < before.queue.len() ==> (#[trigger] before.queue[j]).id@ != queue_item_id,
        crate::orchestrator::removes(before, queue_item_id, steps, after, result)
            || crate::orchestrator::moves(before, queue_item_id, to_index, steps, after, result),
    ensures
        is_not_found(result, "queue_item"@, queue_item_id),
        after == before,
        steps.len() == 0,
{
    crate::core_state::lemma_item_index(before.queue, queue_item_id);
}

/// A moved item stands where it was to go, and without it the queue is the one
/// from before. A place outside the queue is refused.
pub proof fn a_moved_item_stands_where_it_was_to_go(
    before: CoreStateView,
    from: int,
    queue_item_id: Seq<char>,
    to_index: u64,
    steps: Seq<PortStep>,
    after: CoreStateView,
    result: Result<CommandReceipt, CoreError>,
)
    requires
        0 <= from < before.queue.len(),
        before.queue[from].id@ == queue_item_id,
        forall|j: int| 0 <= j < from ==> (#[trigger] before.queue[j]).id@ != queue_item_id,
        to_index <= usize::MAX,
        crate::orchestrator::moves(before, queue_item_id, to_index, steps, after, result),
    ensures
        to_index >= before.queue.len() ==> {
            &&& is_invalid(result, "index_out_of_range"@)
            &&& after == before
            &&& steps.len() == 0
        },
        to_index < before.queue.len() ==> {
            &&& after.queue[to_index as int].id == before.queue[from].id
            &&& after.queue[to_index as int].song == before.queue[from].song
            &&& crate::playback_laws::same_items(
                before.queue.remove(from),
                after.queue.remove(to_index as int),
            )
        },
        after.playback == before.playback,
        crate::playback_laws::else_unchanged(before, after),
{
    crate::core_state::lemma_item_index_is(before.queue, queue_item_id, from);
    if to_index < before.queue.len() {
        let to = to_index as int;
        let next = crate::core_state::moved(before.queue, from, to);
        assert(next.remove(to) =~= before.queue.remove(from));
        assert forall|j: int| 0 <= j < next.len() implies {
            &&& (#[trigger] after.queue[j]).id == next[j].id
            &&& after.queue[j].song == next[j].song
            &&& after.queue[j].added_at == next[j].added_at
        } by {}
        let rest = after.queue.remove(to);
        let old_rest = before.queue.remove(from);
        assert forall|j: int| 0 <= j < old_rest.len() implies {
            &&& (#[trigger] rest[j]).id == old_rest[j].id
            &&& rest[j].song == old_rest[j].song
            &&& rest[j].added_at == old_rest[j].added_at
        } by {
            let k = if j < to { j } else { j + 1 };
            assert(rest[j] == after.queue[k]);
            assert(next.remove(to)[j] == next[k]);
        }
    }
}

/// While something is current, a move leaves what stands before the current item
/// finished and what stands behind it waiting.
pub proof fn a_move_keeps_the_marks_around_the_current_item(
    before: CoreStateView,
    from: int,
    to_index: u64,
    c: int,
    steps: Seq<PortStep>,
    after: CoreStateView,
    result: Result<CommandReceipt, CoreError>,
)
    requires
        0 <= from < before.queue.len(),
        forall|j: int|
            0 <= j < from ==> (#[trigger] before.queue[j]).id@ != before.queue[from].id@,
        to_index < before.queue.len() <= usize::MAX,
        crate::orchestrator::moves(
            before,
            before.queue[from].id@,
            to_index,
            steps,
            after,
            result,
        ),
        crate::playback_laws::is_current_at(after, c),
    ensures
        after.queue[c].status == if before.playback.state
            == crate::domain::PlaybackStatus::Loading {
            QueueItemStatus::Loading
        } else {
            QueueItemStatus::Playing
        },
        forall|j: int|
            0 <= j < c ==> (#[trigger] after.queue[j]).status == QueueItemStatus::Finished,
        forall|j: int|
            c < j < after.queue.len() ==> (#[trigger] after.queue[j]).status
                == QueueItemStatus::Queued,
{
    crate::core_state::lemma_item_index_is(before.queue, before.queue[from].id@, from);
    let next = before.with_queue(
        crate::core_state::moved(before.queue, from, to_index as int),
    );
    assert forall|j: int| 0 <= j < next.queue.len() implies (#[trigger] after.queue[j]).id
        == next.queue[j].id by {}
    assert forall|j: int| 0 <= j < c implies (#[trigger] next.queue[j]).id@
        != before.playback.current_queue_item_id->0@ by {
        assert(after.queue[j].id == next.queue[j].id);
    }
    assert(after.queue[c].id == next.queue[c].id);
    crate::core_state::lemma_item_index_is(
        next.queue,
        before.playback.current_queue_item_id->0@,
        c,
    );
}

/// A cleared queue holds nothing, whatever the player says, and where the player
/// stops, nothing plays.
pub proof fn a_cleared_queue_holds_nothing(
    before: CoreStateView,
    steps: Seq<PortStep>,
    after: CoreStateView,
    result: Result<CommandReceipt, CoreError>,
)
    requires
        crate::orchestrator::clears(before, steps, after, result),
    ensures
        after.queue.len() == 0,
        steps[0] matches PortStep::Playback { call: PlaybackCall::Stop, .. },
        crate::playback_laws::is_taken(steps[0]) ==> {
            &&& after.playback.state == crate::domain::PlaybackStatus::Stopped
            &&& after.playback.position_ms == 0
            &&& after.playback.current_queue_item_id is None
            &&& after.playback.playback_session_id is None
        },
        !crate::playback_laws::is_taken(steps[0]) ==> result is Err && after.playback
            == before.playback,
        crate::playback_laws::else_unchanged(before, after),
{
}

/// A song that is added is the last item of the queue, under an id that was drawn
/// for it and from the moment at which it was added; the receipt names it, and no
/// other item is touched.
pub proof fn an_added_song_is_the_last_item(
    before: CoreStateView,
    song: Song,
    steps: Seq<PortStep>,
    after: CoreStateView,
    result: Result<CommandReceipt, CoreError>,
)
    requires
        crate::orchestrator::enqueues(before, song, steps, after, result),
    ensures
        steps[0] matches PortStep::NewId { kind: IdKind::QueueItem, .. },
        steps[1] is ReadClock,
        after.queue.len() == before.queue.len() + 1,
        forall|j: int| 0 <= j < before.queue.len() ==> #[trigger] after.queue[j]
            == before.queue[j],
        after.queue.last().id == steps[0]->NewId_id,
        after.queue.last().added_at == steps[1]->ReadClock_now,
        after.queue.last().song == song,
        result matches Ok(receipt) ==> {
            &&& receipt.queue_item_id == Some(after.queue.last().id)
            &&& receipt.job_id is None
        },
        before.playback.current_queue_item_id is None ==> crate::playback_laws::asks_to_start(
            steps[3],
            after.queue.last(),
            0,
        ),
        crate::playback_laws::else_unchanged(before, after),
{
    let n = 2 + crate::orchestrator::load_calls(before);
    if before.playback.current_queue_item_id is None {
        assert(steps.subrange(2, n)[1] == steps[3]);
    }
}

/// Only a song that a search has found can be added by its id, and it is that
/// very song.
pub proof fn only_found_songs_are_added_by_id(
    before: CoreStateView,
    song_id: Seq<char>,
    steps: Seq<PortStep>,
    after: CoreStateView,
    result: Result<CommandReceipt, CoreError>,
)
    requires
        crate::orchestrator::enqueues_found(before, song_id, steps, after, result),
    ensures
        after.queue.len() > before.queue.len() ==> {
            &&& after.queue.last().song.id@ == song_id
            &&& exists|job: Seq<char>, k: int| #[trigger]
                holds_song(before, job, k, after.queue.last().song)
        },
        after.queue.len() <= before.queue.len() ==> {
            &&& is_not_found(result, "song"@, song_id)
            &&& after == before
            &&& steps.len() == 0
            &&& forall|job: Seq<char>, k: int, song: Song| #[trigger]
                holds_song(before, job, k, song) ==> song.id@ != song_id
        },
{
    if after.queue.len() > before.queue.len() {
        let song = choose|song: Song| #[trigger]
            crate::core_state::song_among(before.search_results, song_id, Some(song))
                && crate::orchestrator::enqueues(before, song, steps, after, result);
        an_added_song_is_the_last_item(before, song, steps, after, result);
        let job = choose|job: Seq<char>| #[trigger]
            before.search_results.contains_key(job) && crate::core_state::song_in(
                before.search_results[job]@,
                song_id,
            ) == Some(song);
        let k = lemma_song_in(before.search_results[job]@, song_id);
        assert(holds_song(before, job, k, song));
    } else {
        if exists|song: Song| #[trigger]
            crate::core_state::song_among(before.search_results, song_id, Some(song))
                && crate::orchestrator::enqueues(before, song, steps, after, result) {
            let song = choose|song: Song| #[trigger]
                crate::core_state::song_among(before.search_results, song_id, Some(song))
                    && crate::orchestrator::enqueues(before, song, steps, after, result);
            an_added_song_is_the_last_item(before, song, steps, after, result);
        }
        assert forall|job: Seq<char>, k: int, song: Song| #[trigger]
            holds_song(before, job, k, song) implies song.id@ != song_id by {
            lemma_song_in(before.search_results[job]@, song_id);
        }
    }
}

/// Whether a search has found a song, in a place of its results.
pub open spec fn holds_song(state: CoreStateView, job: Seq<char>, k: int, song: Song) -> bool {
    &&& state.search_results.contains_key(job)
    &&& 0 <= k < state.search_results[job]@.len()
    &&& state.search_results[job]@[k] == song
}

proof fn lemma_song_in(songs: Seq<Song>, id: Seq<char>) -> (k: int)
    ensures
        match crate::core_state::song_in(songs, id) {
            Some(song) => 0 <= k < songs.len() && songs[k] == song && song.id@ == id && forall|
                j: int,
            |
                0 <= j < k ==> (#[trigger] songs[j]).id@ != id,
            None => forall|j: int| 0 <= j < songs.len() ==> (#[trigger] songs[j]).id@ != id,
        },
    decreases songs.len(),
{
    if songs.len() == 0 {
        0
    } else if songs[0].id@ == id {
        0
    } else {
        let rest = songs.drop_first();
        let k = lemma_song_in(rest, id);
        assert forall|j: int| 0 < j < songs.len() implies #[trigger] songs[j] == rest[j - 1] by {}
        k + 1
    }
}

// ---------------------------------------------------------------------------
// Searches and imports
// ---------------------------------------------------------------------------

/// A search is handed to the provider as it was typed but for the white space
/// around it, under the id that its receipt names; its job runs from then on. A
/// query of nothing but white space is refused.
pub proof fn a_search_is_asked_as_it_was_typed(
    before: CoreStateView,
    query: Seq<char>,
    steps: Seq<PortStep>,
    after: CoreStateView,
    result: Result<CommandReceipt, CoreError>,
)
    requires
        crate::orchestrator::submits(before, query, steps, after, result),
    ensures
        crate::text::trimmed(query).len() == 0 ==> {
            &&& is_invalid(result, "query_empty"@)
            &&& after == before
            &&& steps.len() == 0
        },
        crate::text::trimmed(query).len() > 0 ==> {
            &&& steps[0] matches PortStep::NewId { kind: IdKind::SearchJob, id }
            &&& steps[1] matches PortStep::Search { job_id, query: asked, reply }
            &&& job_id == id@
            &&& asked == crate::text::trimmed(query)
            &&& reply is Err ==> result is Err && after == before
            &&& reply is Ok ==> {
                &&& after.search_jobs.len() == before.search_jobs.len() + 1
                &&& forall|j: int|
                    0 <= j < before.search_jobs.len() ==> #[trigger] after.search_jobs[j]
                        == before.search_jobs[j]
                &&& after.search_jobs.last().job_id == id
                &&& after.search_jobs.last().query@ == asked
                &&& after.search_jobs.last().status == SearchJobStatus::Running
                &&& after.search_jobs.last().result_count is None
                &&& after.search_jobs.last().completed_at is None
            }
            &&& result matches Ok(receipt) ==> receipt.job_id == Some(id)
                && receipt.queue_item_id is None
        },
        after.queue == before.queue,
        after.playback == before.playback,
        after.search_results == before.search_results,
{
}

/// A search that comes back is settled: its own job, and no other, has ended at
/// the moment that was read, with as many results as there are songs.
pub proof fn only_the_named_search_is_completed(
    before: CoreStateView,
    k: int,
    results: Vec<Song>,
    steps: Seq<PortStep>,
    after: CoreStateView,
    result: Result<(), CoreError>,
)
    requires
        0 <= k < before.search_jobs.len(),
        forall|j: int|
            0 <= j < k ==> (#[trigger] before.search_jobs[j]).job_id@
                != before.search_jobs[k].job_id@,
        crate::orchestrator::completes(
            before,
            before.search_jobs[k].job_id@,
            results,
            steps,
            after,
            result,
        ),
    ensures
        after.search_jobs.len() == before.search_jobs.len(),
        forall|j: int|
            0 <= j < before.search_jobs.len() && j != k ==> #[trigger] after.search_jobs[j]
                == before.search_jobs[j],
        after.search_jobs[k].status == SearchJobStatus::Completed,
        after.search_jobs[k].result_count == Some(results@.len() as u64),
        steps[0] matches PortStep::ReadClock { now } && after.search_jobs[k].completed_at
            == Some(now),
        after.search_jobs[k].job_id == before.search_jobs[k].job_id,
        after.search_jobs[k].query == before.search_jobs[k].query,
        after.search_results.contains_key(before.search_jobs[k].job_id@),
        after.search_results[before.search_jobs[k].job_id@]@ == results@,
        after.queue == before.queue,
        after.playback == before.playback,
{
    crate::core_state::lemma_job_index_is(
        before.search_jobs,
        before.search_jobs[k].job_id@,
        k,
    );
}

/// A running search that fails is settled as failed, its own and no other; one
/// that has ended already stays as it is.
pub proof fn only_the_named_search_fails(
    before: CoreStateView,
    k: int,
    code: Seq<char>,
    message: Seq<char>,
    steps: Seq<PortStep>,
    after: CoreStateView,
    result: Result<(), CoreError>,
)
    requires
        0 <= k < before.search_jobs.len(),
        forall|j: int|
            0 <= j < k ==> (#[trigger] before.search_jobs[j]).job_id@
                != before.search_jobs[k].job_id@,
        crate::orchestrator::fails(
            before,
            before.search_jobs[k].job_id@,
            code,
            message,
            steps,
            after,
            result,
        ),
    ensures
        before.search_jobs[k].status == SearchJobStatus::Running ==> {
            &&& after.search_jobs.len() == before.search_jobs.len()
            &&& forall|j: int|
                0 <= j < before.search_jobs.len() && j != k ==> #[trigger] after.search_jobs[j]
                    == before.search_jobs[j]
            &&& after.search_jobs[k].status == SearchJobStatus::Failed
            &&& after.search_jobs[k].result_count is None
            &&& after.search_jobs[k].completed_at is Some
            &&& after.search_jobs[k].query == before.search_jobs[k].query
            &&& steps[3] matches PortStep::Publish { envelope, .. }
            &&& envelope.event@ == "search.job.failed"@
            &&& envelope.data@ == (CoreEventView::SearchJobFailed {
                job_id: before.search_jobs[k].job_id@,
                code,
                message,
            })
        },
        before.search_jobs[k].status != SearchJobStatus::Running ==> {
            &&& crate::playback_laws::is_conflict(result, "search_job_not_running"@)
            &&& after == before
        },
        after.search_results == before.search_results,
        after.queue == before.queue,
        after.playback == before.playback,
{
    crate::core_state::lemma_job_index_is(
        before.search_jobs,
        before.search_jobs[k].job_id@,
        k,
    );
    reveal_with_fuel(crate::orchestrator::reports, 2);
    assert(steps.len() >= 4 ==> steps.skip(1).take(3)[2] == steps[3]);
}

/// An import is handed to the provider as it is, under the id that its receipt
/// names, and runs from then on with nothing counted yet.
pub proof fn an_import_is_asked_as_it_is(
    before: CoreStateView,
    url: Seq<char>,
    steps: Seq<PortStep>,
    after: CoreStateView,
    result: Result<CommandReceipt, CoreError>,
)
    requires
        crate::orchestrator::submits_import(before, url, steps, after, result),
    ensures
        steps[0] matches PortStep::NewId { kind: IdKind::SearchJob, id } && {
            &&& steps[1] matches PortStep::Import { job_id, url: asked, reply }
            &&& job_id == id@
            &&& asked == url
            &&& reply is Err ==> result is Err && after == before
            &&& reply is Ok ==> {
                &&& after.youtube_import_jobs.len() == before.youtube_import_jobs.len() + 1
                &&& forall|j: int|
                    0 <= j < before.youtube_import_jobs.len()
                        ==> #[trigger] after.youtube_import_jobs[j]
                        == before.youtube_import_jobs[j]
                &&& after.youtube_import_jobs.last().job_id == id
                &&& after.youtube_import_jobs.last().url@ == url
                &&& after.youtube_import_jobs.last().status == YoutubeImportJobStatus::Running
                &&& after.youtube_import_jobs.last().total_count == 0
                &&& after.youtube_import_jobs.last().queued_count == 0
                &&& after.youtube_import_jobs.last().failed_count == 0
                &&& after.youtube_import_jobs.last().completed_at is None
            }
            &&& result matches Ok(receipt) ==> receipt.job_id == Some(id)
        },
        after.queue == before.queue,
        after.playback == before.playback,
{
}

/// Every item of an import has an id and a time of its own that were drawn for
/// it, in the order of the songs.
pub proof fn imported_items_have_ids_of_their_own(
    before: CoreStateView,
    job_id: Seq<char>,
    songs: Seq<Song>,
    total_count: u64,
    failed_count: u64,
    steps: Seq<PortStep>,
    after: CoreStateView,
    result: Result<(), CoreError>,
)
    requires
        crate::orchestrator::completes_import(
            before,
            job_id,
            songs,
            total_count,
            failed_count,
            steps,
            after,
            result,
        ),
        after.queue.len() > before.queue.len(),
    ensures
        after.queue.len() == before.queue.len() + songs.len(),
        forall|j: int| 0 <= j < before.queue.len() ==> #[trigger] after.queue[j]
            == before.queue[j],
        forall|k: int|
            0 <= k < songs.len() ==> {
                &&& (#[trigger] after.queue[before.queue.len() + k]).song == songs[k]
                &&& steps[2 * k] is NewId
                &&& after.queue[before.queue.len() + k].id == steps[2 * k]->NewId_id
                &&& steps[2 * k + 1] is ReadClock
                &&& after.queue[before.queue.len() + k].added_at == steps[2 * k
                    + 1]->ReadClock_now
            },
{
    assert forall|k: int| 0 <= k < songs.len() implies {
        &&& (#[trigger] after.queue[before.queue.len() + k]).song == songs[k]
        &&& steps[2 * k] is NewId
        &&& after.queue[before.queue.len() + k].id == steps[2 * k]->NewId_id
        &&& steps[2 * k + 1] is ReadClock
        &&& after.queue[before.queue.len() + k].added_at == steps[2 * k + 1]->ReadClock_now
    } by {
        assert(steps[2 * k] is NewId);
    }
}

// ---------------------------------------------------------------------------
// What is told
// ---------------------------------------------------------------------------

/// Events are published in their order, each under an id and a time that were
/// drawn for it.
pub proof fn events_are_published_in_order(steps: Seq<PortStep>, events: Seq<CoreEventView>)
    requires
        crate::orchestrator::reports(steps, events, None),
    ensures
        steps.len() == 3 * events.len(),
        forall|k: int|
            0 <= k < events.len() ==> {
                &&& #[trigger] steps[3 * k] matches PortStep::NewId { kind: IdKind::Event, id }
                &&& steps[3 * k + 1] matches PortStep::ReadClock { now }
                &&& steps[3 * k + 2] matches PortStep::Publish { envelope, reply: Ok(_) }
                &&& envelope.event_id == id
                &&& envelope.timestamp == now
                &&& envelope.data@ == events[k]
            },
    decreases events.len(),
{
    if events.len() > 0 {
        let rest = steps.skip(3);
        events_are_published_in_order(rest, events.drop_first());
        let first = steps.take(3);
        assert(first[0] == steps[0] && first[1] == steps[1] && first[2] == steps[2]);
        assert forall|k: int| 0 <= k < events.len() implies {
            &&& #[trigger] steps[3 * k] matches PortStep::NewId { kind: IdKind::Event, id }
            &&& steps[3 * k + 1] matches PortStep::ReadClock { now }
            &&& steps[3 * k + 2] matches PortStep::Publish { envelope, reply: Ok(_) }
            &&& envelope.event_id == id
            &&& envelope.timestamp == now
            &&& envelope.data@ == events[k]
        } by {
            if k > 0 {
                let j = k - 1;
                assert(rest[3 * j] == steps[3 * k]);
                assert(rest[3 * j + 1] == steps[3 * k + 1]);
                assert(rest[3 * j + 2] == steps[3 * k + 2]);
                assert(events.drop_first()[j] == events[k]);
            }
        }
    }
}

/// A change that was told in full ends with the whole state that it has led to:
/// what plays, the queue, the jobs, the volume and the song that is current.
pub proof fn every_change_is_shown_in_full(
    steps: Seq<PortStep>,
    events: Seq<CoreEventView>,
    state: CoreStateView,
)
    requires
        crate::orchestrator::tells_change(steps, events, state, None),
    ensures
        steps.len() == 3 * events.len() + 5,
        steps.last() matches PortStep::Publish { envelope, reply: Ok(_) } && {
            &&& envelope.event@ == "state.updated"@
            &&& envelope.data@ matches CoreEventView::StateUpdated(shown)
            &&& shown.playback == state.playback
            &&& shown.queue == state.queue
            &&& shown.audio == state.audio
            &&& shown.backend == state.backend
            &&& shown.search_jobs == state.search_jobs
            &&& shown.youtube_import_jobs == state.youtube_import_jobs
            &&& forall|i: int| #[trigger]
                crate::playback_laws::is_current_at(state, i) ==> shown.current_song == Some(
                    state.queue[i].song,
                )
            &&& state.playback.current_queue_item_id is None ==> shown.current_song is None
        },
{
    let n = 3 * events.len() as int;
    let rest = steps.skip(n);
    let event = CoreEventView::StateUpdated(
        state.shown(rest[0]->NewId_id, rest[1]->ReadClock_now),
    );
    events_are_published_in_order(steps.take(n), events);
    events_are_published_in_order(rest.skip(2), seq![event]);
    reveal_with_fuel(crate::orchestrator::reports, 2);
    let told = rest.skip(2);
    assert(told.len() == 3);
    assert(told.take(3) =~= told);
    assert(told[2] == steps.last());
    assert forall|i: int| #[trigger]
        crate::playback_laws::is_current_at(state, i) implies state.current_song() == Some(
        state.queue[i].song,
    ) by {
        crate::core_state::lemma_item_index_is(
            state.queue,
            state.playback.current_queue_item_id->0@,
            i,
        );
    }
}

/// What is told of the playback state, of the queue and of a start is how they
/// stand.
pub proof fn events_tell_how_things_stand(
    state: CoreStateView,
    reason: QueueUpdateReason,
    index: int,
    session: String,
    position_ms: u64,
)
    requires
        0 <= index < state.queue.len(),
    ensures
        state.playback_event() == (CoreEventView::PlaybackStateChanged {
            state: state.playback.state,
            current_queue_item_id: state.playback.current_queue_item_id,
            position_ms: state.playback.position_ms,
        }),
        state.queue_event(reason) == (CoreEventView::QueueUpdated { reason, items: state.queue }),
        ({
            let events = state.start_events(index, session, position_ms);
            let n = events.len() as int;
            let after = state.started(index, session, position_ms);
            &&& n >= 2
            &&& events[n - 2] == after.playback_event()
            &&& events[n - 1] == after.queue_event(QueueUpdateReason::CurrentChanged)
            &&& !(state.playback.current_queue_item_id matches Some(id) && id@
                == state.queue[index].id@) ==> n == 3 && events[0]
                == (CoreEventView::PlaybackTrackChanged {
                queue_item_id: state.queue[index].id,
                song: state.queue[index].song,
            })
            &&& (state.playback.current_queue_item_id matches Some(id) && id@
                == state.queue[index].id@) ==> n == 2
        }),
{
}

/// What is told of an added item is the queue, and where it is loaded, the item
/// and the playback state.
pub proof fn additions_are_told(state: CoreStateView, index: int, loaded: bool)
    requires
        0 <= index < state.queue.len(),
    ensures
        ({
            let events = state.add_events(index, loaded);
            &&& events[0] == (CoreEventView::QueueUpdated {
                reason: QueueUpdateReason::Add,
                items: state.queue,
            })
            &&& !loaded ==> events.len() == 1
            &&& loaded ==> events.len() == 3 && events[1]
                == (CoreEventView::PlaybackTrackChanged {
                queue_item_id: state.queue[index].id,
                song: state.queue[index].song,
            }) && events[2] == state.playback_event()
        }),
{
}

} // verus!
