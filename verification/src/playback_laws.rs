//! Laws of playback: what becomes of the player and of the queue on each of the
//! commands, said of the items and positions themselves.

use vstd::prelude::*;

use crate::core_state::CoreStateView;
use crate::domain::{PlaybackStatus, QueueItem, QueueItemStatus};
use crate::models::CommandReceipt;
use crate::orchestrator::{CoreError, CoreErrorView};
use crate::ports::{IdKind, PlaybackCall, PortStep};

verus! {

// ---------------------------------------------------------------------------
// Words for what is seen
// ---------------------------------------------------------------------------

/// Whether the item at `i` is the current one: it has the id that is noted as
/// current, and no earlier item has.
pub open spec fn is_current_at(state: CoreStateView, i: int) -> bool {
    &&& 0 <= i < state.queue.len()
    &&& state.playback.current_queue_item_id matches Some(id)
    &&& state.queue[i].id@ == id@
    &&& forall|j: int| 0 <= j < i ==> (#[trigger] state.queue[j]).id@ != id@
}

/// Whether a call asks the player to start an item at a position.
pub open spec fn asks_to_start(step: PortStep, item: QueueItem, position_ms: int) -> bool {
    &&& step matches PortStep::Playback { call, .. }
    &&& call matches PlaybackCall::Start { item: asked, position_ms: at, .. }
    &&& asked.id == item.id
    &&& asked.song == item.song
    &&& at == position_ms
}

/// Whether the player has taken a call.
pub open spec fn is_taken(step: PortStep) -> bool {
    step matches PortStep::Playback { reply: Ok(_), .. }
}

/// Whether an item plays from a position, in the session that was drawn for it:
/// what stands before it is finished, what stands behind it waits, and no item
/// is another than before.
pub open spec fn plays_from(
    before: CoreStateView,
    after: CoreStateView,
    i: int,
    session: String,
    position_ms: int,
) -> bool {
    &&& after.playback.state == PlaybackStatus::Playing
    &&& after.playback.position_ms == position_ms
    &&& after.playback.current_queue_item_id matches Some(current)
    &&& current@ == before.queue[i].id@
    &&& after.playback.playback_session_id == Some(session)
    &&& same_items(before.queue, after.queue)
    &&& after.queue[i].status == QueueItemStatus::Playing
    &&& forall|j: int|
        0 <= j < i ==> (#[trigger] after.queue[j]).status == QueueItemStatus::Finished
    &&& forall|j: int|
        i < j < after.queue.len() ==> (#[trigger] after.queue[j]).status
            == QueueItemStatus::Queued
}

/// Whether nothing plays, and every item that played or loaded waits again.
pub open spec fn is_silent(before: CoreStateView, after: CoreStateView) -> bool {
    &&& after.playback.state == PlaybackStatus::Stopped
    &&& after.playback.position_ms == 0
    &&& after.playback.current_queue_item_id is None
    &&& after.playback.playback_session_id is None
    &&& same_items(before.queue, after.queue)
    &&& forall|j: int|
        0 <= j < after.queue.len() ==> {
            let earlier = before.queue[j].status;
            (#[trigger] after.queue[j]).status == if earlier == QueueItemStatus::Playing || earlier
                == QueueItemStatus::Loading {
                QueueItemStatus::Queued
            } else {
                earlier
            }
        }
}

/// Whether two queues hold the same items in the same order, whatever their
/// statuses.
pub open spec fn same_items(a: Seq<QueueItem>, b: Seq<QueueItem>) -> bool {
    &&& a.len() == b.len()
    &&& forall|j: int|
        0 <= j < a.len() ==> {
            &&& (#[trigger] b[j]).id == a[j].id
            &&& b[j].song == a[j].song
            &&& b[j].added_at == a[j].added_at
        }
}

/// Whether a result is a conflict under a code.
pub open spec fn is_conflict<T>(result: Result<T, CoreError>, code: Seq<char>) -> bool {
    &&& result matches Err(error)
    &&& error@ matches CoreErrorView::Conflict { code: given, .. }
    &&& given == code
}

/// Whether everything but the player and the queue is as it was.
pub open spec fn else_unchanged(before: CoreStateView, after: CoreStateView) -> bool {
    &&& after.backend == before.backend
    &&& after.audio == before.audio
    &&& after.search_jobs == before.search_jobs
    &&& after.search_results == before.search_results
    &&& after.youtube_import_jobs == before.youtube_import_jobs
}

proof fn lemma_current(state: CoreStateView, i: int)
    requires
        is_current_at(state, i),
    ensures
        state.current_index() == Some(i),
{
    crate::core_state::lemma_item_index_is(
        state.queue,
        state.playback.current_queue_item_id->0@,
        i,
    );
}

// ---------------------------------------------------------------------------
// Going through the queue
// ---------------------------------------------------------------------------

/// When the current item ends, the one behind it is started from its beginning,
/// however far the other had come. Where the player takes it, it plays from
/// there; where it refuses, the other stays current and is finished.
pub proof fn the_next_item_starts_from_its_beginning(
    before: CoreStateView,
    i: int,
    steps: Seq<PortStep>,
    after: CoreStateView,
    result: Result<(), CoreError>,
)
    requires
        is_current_at(before, i),
        i + 1 < before.queue.len(),
        crate::orchestrator::finishes(before, steps, after, result),
    ensures
        steps[0] matches PortStep::NewId { kind, .. } && kind == IdKind::PlaybackSession,
        asks_to_start(steps[1], before.queue[i + 1], 0),
        is_taken(steps[1]) ==> plays_from(before, after, i + 1, steps[0]->NewId_id, 0),
        !is_taken(steps[1]) ==> {
            &&& result is Err
            &&& after.playback == before.playback
            &&& after.queue[i].status == QueueItemStatus::Finished
        },
        else_unchanged(before, after),
{
    lemma_current(before, i);
}

/// When the last item ends, playback stops.
pub proof fn playback_stops_behind_the_last_item(
    before: CoreStateView,
    steps: Seq<PortStep>,
    after: CoreStateView,
    result: Result<(), CoreError>,
)
    requires
        is_current_at(before, before.queue.len() - 1),
        crate::orchestrator::finishes(before, steps, after, result),
    ensures
        steps[0] matches PortStep::Playback { call: PlaybackCall::Stop, .. },
        is_taken(steps[0]) ==> {
            &&& after.playback.state == PlaybackStatus::Stopped
            &&& after.playback.position_ms == 0
            &&& after.playback.current_queue_item_id is None
            &&& after.playback.playback_session_id is None
            &&& same_items(before.queue, after.queue)
            &&& after.queue.last().status == QueueItemStatus::Finished
        },
        else_unchanged(before, after),
{
    lemma_current(before, before.queue.len() - 1);
}

/// Where nothing is current, the end of an item is no news.
pub proof fn no_item_no_end(
    before: CoreStateView,
    steps: Seq<PortStep>,
    after: CoreStateView,
    result: Result<(), CoreError>,
)
    requires
        before.playback.current_queue_item_id is None,
        crate::orchestrator::finishes(before, steps, after, result),
    ensures
        steps.len() == 0,
        after == before,
        result is Ok,
{
}

/// To skip forward starts the item behind the current one from its beginning,
/// however far the current one had come and whether or not it was paused.
pub proof fn next_plays_the_item_behind(
    before: CoreStateView,
    i: int,
    steps: Seq<PortStep>,
    after: CoreStateView,
    result: Result<CommandReceipt, CoreError>,
)
    requires
        is_current_at(before, i),
        i + 1 < before.queue.len(),
        crate::orchestrator::goes_on(before, steps, after, result),
    ensures
        asks_to_start(steps[1], before.queue[i + 1], 0),
        is_taken(steps[1]) ==> plays_from(before, after, i + 1, steps[0]->NewId_id, 0),
        !is_taken(steps[1]) ==> result is Err && after == before,
        result is Ok ==> is_taken(steps[1]),
        else_unchanged(before, after),
{
    lemma_current(before, i);
    lemma_started_first(before, i + 1, 0, steps, after, result);
}

/// To skip forward from the last item stops playback.
pub proof fn next_stops_behind_the_last_item(
    before: CoreStateView,
    steps: Seq<PortStep>,
    after: CoreStateView,
    result: Result<CommandReceipt, CoreError>,
)
    requires
        is_current_at(before, before.queue.len() - 1),
        crate::orchestrator::goes_on(before, steps, after, result),
    ensures
        steps[0] matches PortStep::Playback { call: PlaybackCall::Stop, .. },
        is_taken(steps[0]) ==> is_silent(before, after),
        !is_taken(steps[0]) ==> result is Err && after == before,
        result is Ok ==> is_taken(steps[0]),
        else_unchanged(before, after),
{
    lemma_current(before, before.queue.len() - 1);
    if result is Ok {
        let part = steps.take(steps.len() - 2);
        let inner = choose|inner: CommandReceipt| #[trigger]
            crate::orchestrator::stops(before, part, after, Ok(inner));
        assert(part[0] == steps[0]);
    }
}

/// To skip forward while nothing is current starts the first item; without items
/// it is a conflict.
pub proof fn next_begins_with_the_first_item(
    before: CoreStateView,
    steps: Seq<PortStep>,
    after: CoreStateView,
    result: Result<CommandReceipt, CoreError>,
)
    requires
        before.playback.current_queue_item_id is None,
        crate::orchestrator::goes_on(before, steps, after, result),
    ensures
        before.queue.len() == 0 ==> {
            &&& is_conflict(result, "queue_empty"@)
            &&& after == before
            &&& steps.len() == 0
        },
        before.queue.len() > 0 ==> {
            &&& asks_to_start(steps[1], before.queue[0], 0)
            &&& is_taken(steps[1]) ==> plays_from(before, after, 0, steps[0]->NewId_id, 0)
            &&& result is Ok ==> is_taken(steps[1])
        },
{
    if before.queue.len() > 0 {
        lemma_started_first(before, 0, 0, steps, after, result);
    }
}

/// To skip backward starts the item directly before the current one from its
/// beginning, however far the current one had come and whatever its status.
pub proof fn previous_plays_the_item_before(
    before: CoreStateView,
    i: int,
    steps: Seq<PortStep>,
    after: CoreStateView,
    result: Result<CommandReceipt, CoreError>,
)
    requires
        is_current_at(before, i),
        i > 0,
        crate::orchestrator::goes_back(before, steps, after, result),
    ensures
        asks_to_start(steps[1], before.queue[i - 1], 0),
        is_taken(steps[1]) ==> plays_from(before, after, i - 1, steps[0]->NewId_id, 0),
        !is_taken(steps[1]) ==> result is Err && after == before,
        result is Ok ==> is_taken(steps[1]),
        else_unchanged(before, after),
{
    lemma_current(before, i);
    lemma_started_first(before, i - 1, 0, steps, after, result);
}

/// To skip backward from the first item, or while nothing is current, starts the
/// first item from its beginning; without items it is a conflict.
pub proof fn previous_stops_at_the_first_item(
    before: CoreStateView,
    steps: Seq<PortStep>,
    after: CoreStateView,
    result: Result<CommandReceipt, CoreError>,
)
    requires
        is_current_at(before, 0) || before.playback.current_queue_item_id is None,
        crate::orchestrator::goes_back(before, steps, after, result),
    ensures
        before.queue.len() == 0 ==> {
            &&& is_conflict(result, "queue_empty"@)
            &&& after == before
            &&& steps.len() == 0
        },
        before.queue.len() > 0 ==> {
            &&& asks_to_start(steps[1], before.queue[0], 0)
            &&& is_taken(steps[1]) ==> plays_from(before, after, 0, steps[0]->NewId_id, 0)
            &&& result is Ok ==> is_taken(steps[1])
        },
{
    if is_current_at(before, 0) {
        lemma_current(before, 0);
    }
    if before.queue.len() > 0 {
        lemma_started_first(before, 0, 0, steps, after, result);
    }
}

proof fn lemma_started_first(
    before: CoreStateView,
    i: int,
    position_ms: u64,
    steps: Seq<PortStep>,
    after: CoreStateView,
    result: Result<CommandReceipt, CoreError>,
)
    requires
        0 <= i < before.queue.len(),
        crate::orchestrator::starts_and_answers(before, i, position_ms, steps, after, result),
    ensures
        steps.len() >= 2,
        steps[0] matches PortStep::NewId { kind, .. } && kind == IdKind::PlaybackSession,
        asks_to_start(steps[1], before.queue[i], position_ms as int),
        is_taken(steps[1]) ==> plays_from(
            before,
            after,
            i,
            steps[0]->NewId_id,
            position_ms as int,
        ),
        !is_taken(steps[1]) ==> result is Err && after == before,
        result is Ok ==> is_taken(steps[1]),
        else_unchanged(before, after),
{
    if result is Ok {
        let part = steps.take(steps.len() - 2);
        assert(part[0] == steps[0]);
        assert(part[1] == steps[1]);
    }
}

// ---------------------------------------------------------------------------
// Playing, pausing, stopping, seeking
// ---------------------------------------------------------------------------

/// What is paused plays on where it was: the player is asked to resume, and
/// nothing is changed but that it plays.
pub proof fn a_paused_item_plays_on(
    before: CoreStateView,
    i: int,
    steps: Seq<PortStep>,
    after: CoreStateView,
    result: Result<CommandReceipt, CoreError>,
)
    requires
        is_current_at(before, i),
        before.playback.state == PlaybackStatus::Paused,
        crate::orchestrator::plays(before, steps, after, result),
    ensures
        steps[0] matches PortStep::Playback { call: PlaybackCall::Resume, .. },
        is_taken(steps[0]) ==> {
            &&& after.playback.state == PlaybackStatus::Playing
            &&& after.playback.position_ms == before.playback.position_ms
            &&& after.playback.current_queue_item_id == before.playback.current_queue_item_id
            &&& after.playback.playback_session_id == before.playback.playback_session_id
        },
        !is_taken(steps[0]) ==> result is Err && after == before,
        after.queue == before.queue,
        else_unchanged(before, after),
{
    lemma_current(before, i);
}

/// What is not paused is started at the position that was noted of it.
pub proof fn play_starts_the_current_item(
    before: CoreStateView,
    i: int,
    steps: Seq<PortStep>,
    after: CoreStateView,
    result: Result<CommandReceipt, CoreError>,
)
    requires
        is_current_at(before, i),
        before.playback.state != PlaybackStatus::Paused,
        crate::orchestrator::plays(before, steps, after, result),
    ensures
        asks_to_start(steps[1], before.queue[i], before.playback.position_ms as int),
        is_taken(steps[1]) ==> plays_from(
            before,
            after,
            i,
            steps[0]->NewId_id,
            before.playback.position_ms as int,
        ),
        !is_taken(steps[1]) ==> result is Err && after == before,
        result is Ok ==> is_taken(steps[1]),
        else_unchanged(before, after),
{
    lemma_current(before, i);
    lemma_started_first(before, i, before.playback.position_ms, steps, after, result);
}

/// Where nothing is current, the first item is started; without items it is a
/// conflict.
pub proof fn play_begins_with_the_first_item(
    before: CoreStateView,
    steps: Seq<PortStep>,
    after: CoreStateView,
    result: Result<CommandReceipt, CoreError>,
)
    requires
        before.playback.current_queue_item_id is None,
        crate::orchestrator::plays(before, steps, after, result),
    ensures
        before.queue.len() == 0 ==> {
            &&& is_conflict(result, "queue_empty"@)
            &&& after == before
            &&& steps.len() == 0
        },
        before.queue.len() > 0 ==> {
            &&& asks_to_start(steps[1], before.queue[0], before.playback.position_ms as int)
            &&& is_taken(steps[1]) ==> plays_from(
                before,
                after,
                0,
                steps[0]->NewId_id,
                before.playback.position_ms as int,
            )
            &&& result is Ok ==> is_taken(steps[1])
        },
{
    if before.queue.len() > 0 {
        lemma_started_first(before, 0, before.playback.position_ms, steps, after, result);
    }
}

/// A pause asks the player to pause and changes nothing but that; what does not
/// play cannot be paused.
pub proof fn a_pause_changes_nothing_else(
    before: CoreStateView,
    steps: Seq<PortStep>,
    after: CoreStateView,
    result: Result<CommandReceipt, CoreError>,
)
    requires
        crate::orchestrator::pauses(before, steps, after, result),
    ensures
        before.playback.state == PlaybackStatus::Playing ==> {
            &&& steps[0] matches PortStep::Playback { call: PlaybackCall::Pause, .. }
            &&& is_taken(steps[0]) ==> after.playback.state == PlaybackStatus::Paused
            &&& !is_taken(steps[0]) ==> result is Err && after == before
        },
        before.playback.state != PlaybackStatus::Playing ==> {
            &&& is_conflict(result, "playback_not_playing"@)
            &&& after == before
            &&& steps.len() == 0
        },
        after.playback.position_ms == before.playback.position_ms,
        after.playback.current_queue_item_id == before.playback.current_queue_item_id,
        after.playback.playback_session_id == before.playback.playback_session_id,
        after.queue == before.queue,
        else_unchanged(before, after),
{
}

/// A stop silences the player and keeps every item.
pub proof fn a_stop_keeps_every_item(
    before: CoreStateView,
    steps: Seq<PortStep>,
    after: CoreStateView,
    result: Result<CommandReceipt, CoreError>,
)
    requires
        crate::orchestrator::stops(before, steps, after, result),
    ensures
        steps[0] matches PortStep::Playback { call: PlaybackCall::Stop, .. },
        is_taken(steps[0]) ==> is_silent(before, after),
        !is_taken(steps[0]) ==> result is Err && after == before,
        else_unchanged(before, after),
{
}

/// A seek asks the player for exactly that position and notes it; the item, its
/// session and whether it plays stay. Without a current item it is a conflict.
pub proof fn a_seek_goes_to_the_position(
    before: CoreStateView,
    position_ms: u64,
    steps: Seq<PortStep>,
    after: CoreStateView,
    result: Result<CommandReceipt, CoreError>,
)
    requires
        crate::orchestrator::seeks(before, position_ms, steps, after, result),
    ensures
        before.playback.current_queue_item_id is Some ==> {
            &&& steps[0] matches PortStep::Playback {
                call: PlaybackCall::Seek { position_ms: asked },
                ..
            }
            &&& asked == position_ms
            &&& is_taken(steps[0]) ==> after.playback.position_ms == position_ms
            &&& !is_taken(steps[0]) ==> result is Err && after == before
        },
        before.playback.current_queue_item_id is None ==> {
            &&& is_conflict(result, "no_current_track"@)
            &&& after == before
            &&& steps.len() == 0
        },
        after.playback.state == before.playback.state,
        after.playback.current_queue_item_id == before.playback.current_queue_item_id,
        after.playback.playback_session_id == before.playback.playback_session_id,
        after.queue == before.queue,
        else_unchanged(before, after),
{
}

/// The player is given the volume that was asked for, at most one hundred
/// percent, and it is that volume which is noted.
pub proof fn the_volume_is_the_one_that_was_asked_for(
    before: CoreStateView,
    volume_percent: u8,
    steps: Seq<PortStep>,
    after: CoreStateView,
    result: Result<CommandReceipt, CoreError>,
)
    requires
        crate::orchestrator::sets_volume(before, volume_percent, steps, after, result),
    ensures
        steps[0] matches PortStep::Playback {
            call: PlaybackCall::SetVolume { volume_percent: given },
            ..
        } && given <= 100 && (volume_percent <= 100 ==> given == volume_percent) && (volume_percent
            > 100 ==> given == 100) && (is_taken(steps[0]) ==> after.audio.volume_percent == given),
        !is_taken(steps[0]) ==> result is Err && after == before,
        after.playback == before.playback,
        after.queue == before.queue,
        after.search_jobs == before.search_jobs,
        after.search_results == before.search_results,
        after.youtube_import_jobs == before.youtube_import_jobs,
        after.backend == before.backend,
{
}

/// The settings with which the player comes up reach the player as they are, at
/// most at one hundred percent.
pub proof fn the_first_volume_is_the_stored_one(
    before: CoreStateView,
    settings: crate::domain::AudioSettings,
    steps: Seq<PortStep>,
    after: CoreStateView,
    result: Result<(), CoreError>,
)
    requires
        crate::orchestrator::hydrates(before, settings, steps, after, result),
    ensures
        steps[0] matches PortStep::Playback {
            call: PlaybackCall::SetVolume { volume_percent: given },
            ..
        } && given <= 100 && (settings.volume_percent <= 100 ==> given == settings.volume_percent)
            && (settings.volume_percent > 100 ==> given == 100) && (is_taken(steps[0])
            ==> after.audio.volume_percent == given && result is Ok),
        !is_taken(steps[0]) ==> result is Err && after == before,
        after.playback == before.playback,
        after.queue == before.queue,
{
}

// ---------------------------------------------------------------------------
// News of the playback worker
// ---------------------------------------------------------------------------

/// The item that is being loaded plays once its start is confirmed, from the
/// position that was reported; news of any other item or session change nothing.
pub proof fn only_the_loading_item_is_confirmed(
    before: CoreStateView,
    i: int,
    playback_session_id: Seq<char>,
    queue_item_id: Seq<char>,
    position_ms: u64,
    steps: Seq<PortStep>,
    after: CoreStateView,
    result: Result<bool, CoreError>,
)
    requires
        is_current_at(before, i),
        before.playback.playback_session_id is Some,
        crate::orchestrator::confirms(
            before,
            playback_session_id,
            queue_item_id,
            position_ms,
            steps,
            after,
            result,
        ),
    ensures
        before.playback.state == PlaybackStatus::Loading && before.playback.playback_session_id->0@
            == playback_session_id && before.queue[i].id@ == queue_item_id ==> plays_from(
            before,
            after,
            i,
            before.playback.playback_session_id->0,
            position_ms as int,
        ),
        before.playback.state != PlaybackStatus::Loading || before.playback.playback_session_id->0@
            != playback_session_id || before.queue[i].id@ != queue_item_id ==> after == before
            && steps.len() == 0,
        else_unchanged(before, after),
{
    lemma_current(before, i);
}

/// What the current session has reached is noted and told of that session; of
/// any other it is neither.
pub proof fn progress_is_that_of_the_session(
    before: CoreStateView,
    playback_session_id: Seq<char>,
    position_ms: u64,
    steps: Seq<PortStep>,
    after: CoreStateView,
    result: Result<bool, CoreError>,
)
    requires
        crate::orchestrator::progresses(
            before,
            playback_session_id,
            position_ms,
            steps,
            after,
            result,
        ),
    ensures
        before.playback.playback_session_id matches Some(session) && session@
            == playback_session_id ==> {
            &&& after.playback.position_ms == position_ms
            &&& steps.len() == 3
            &&& steps[2] matches PortStep::Publish { envelope, .. }
            &&& envelope.event@ == "playback.progress"@
            &&& envelope.data@ matches crate::models::CoreEventView::PlaybackProgress {
                playback_session_id: told,
                position_ms: reached,
            }
            &&& told@ == playback_session_id
            &&& reached == position_ms
        },
        !(before.playback.playback_session_id matches Some(session) && session@
            == playback_session_id) ==> after == before && steps.len() == 0,
        after.playback.state == before.playback.state,
        after.playback.current_queue_item_id == before.playback.current_queue_item_id,
        after.playback.playback_session_id == before.playback.playback_session_id,
        after.queue == before.queue,
        else_unchanged(before, after),
{
    reveal_with_fuel(crate::orchestrator::reports, 2);
}

} // verus!
