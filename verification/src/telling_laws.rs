//! Laws of what subscribers are told: which events a change leads to, in which
//! order, and with which receipt a command ends.

use vstd::prelude::*;

use crate::core_state::CoreStateView;
use crate::domain::{PlaybackStatus, Song};
use crate::models::{CommandReceipt, CoreEventView, QueueUpdateReason};
use crate::orchestrator::CoreErrorView;
use crate::orchestrator_laws::Command;
use crate::ports::{IdKind, PortStep};

verus! {

/// Whether the call at `at` publishes an event, and the publisher takes it.
pub open spec fn told_at(steps: Seq<PortStep>, at: int, event: CoreEventView) -> bool {
    &&& 0 <= at < steps.len()
    &&& steps[at] matches PortStep::Publish { envelope, reply: Ok(_) }
    &&& envelope.data@ == event
}

/// Whether the call at `at` publishes the whole of a state.
pub open spec fn state_told_at(steps: Seq<PortStep>, at: int, state: CoreStateView) -> bool {
    &&& 0 <= at < steps.len()
    &&& steps[at] matches PortStep::Publish { envelope, reply: Ok(_) }
    &&& envelope.data@ matches CoreEventView::StateUpdated(shown)
    &&& shown.playback == state.playback
    &&& shown.queue == state.queue
    &&& shown.audio == state.audio
}

/// Whether calls end with those that make a receipt.
pub open spec fn ends_with_receipt(steps: Seq<PortStep>, receipt: CommandReceipt) -> bool {
    let n = steps.len();
    &&& n >= 2
    &&& steps[n - 2] matches PortStep::NewId { kind, id }
    &&& kind == IdKind::Command
    &&& id == receipt.command_id
    &&& steps[n - 1] matches PortStep::ReadClock { now }
    &&& now == receipt.accepted_at
}

/// The event that tells of the playback of a state.
pub open spec fn playback_news(state: CoreStateView) -> CoreEventView {
    CoreEventView::PlaybackStateChanged {
        state: state.playback.state,
        current_queue_item_id: state.playback.current_queue_item_id,
        position_ms: state.playback.position_ms,
    }
}

/// The event that tells of the queue of a state.
pub open spec fn queue_news(state: CoreStateView, reason: QueueUpdateReason) -> CoreEventView {
    CoreEventView::QueueUpdated { reason, items: state.queue }
}

proof fn lemma_reported(
    steps: Seq<PortStep>,
    from: int,
    to: int,
    events: Seq<CoreEventView>,
)
    requires
        0 <= from <= to <= steps.len(),
        crate::orchestrator::reports(steps.subrange(from, to), events, None),
    ensures
        to == from + 3 * events.len(),
        forall|k: int|
            0 <= k < events.len() ==> #[trigger] told_at(steps, from + 3 * k + 2, events[k]),
{
    let part = steps.subrange(from, to);
    crate::command_laws::events_are_published_in_order(part, events);
    assert forall|k: int| 0 <= k < events.len() implies #[trigger] told_at(
        steps,
        from + 3 * k + 2,
        events[k],
    ) by {
        assert(part[3 * k] is NewId);
        assert(part[3 * k + 2] == steps[from + 3 * k + 2]);
    }
}

proof fn lemma_changed(
    steps: Seq<PortStep>,
    from: int,
    to: int,
    events: Seq<CoreEventView>,
    state: CoreStateView,
)
    requires
        0 <= from <= to <= steps.len(),
        crate::orchestrator::tells_change(steps.subrange(from, to), events, state, None),
    ensures
        to == from + 3 * events.len() + 5,
        forall|k: int|
            0 <= k < events.len() ==> #[trigger] told_at(steps, from + 3 * k + 2, events[k]),
        state_told_at(steps, to - 1, state),
{
    let part = steps.subrange(from, to);
    crate::command_laws::every_change_is_shown_in_full(part, events, state);
    let n = 3 * events.len() as int;
    assert(part.take(n) =~= steps.subrange(from, from + n));
    lemma_reported(steps, from, from + n, events);
    assert(part.last() == steps[to - 1]);
}

proof fn lemma_answered(
    steps: Seq<PortStep>,
    from: int,
    events: Seq<CoreEventView>,
    state: CoreStateView,
    queue_item_id: Option<String>,
    receipt: CommandReceipt,
)
    requires
        0 <= from <= steps.len(),
        crate::orchestrator::answers_change(
            steps.skip(from),
            events,
            state,
            queue_item_id,
            Ok(receipt),
        ),
    ensures
        steps.len() == from + 3 * events.len() + 7,
        forall|k: int|
            0 <= k < events.len() ==> #[trigger] told_at(steps, from + 3 * k + 2, events[k]),
        state_told_at(steps, steps.len() - 3, state),
        ends_with_receipt(steps, receipt),
        receipt.queue_item_id == queue_item_id,
        receipt.job_id is None,
{
    let part = steps.skip(from);
    let to = steps.len() - 2;
    assert(part.take(part.len() - 2) =~= steps.subrange(from, to));
    lemma_changed(steps, from, to, events, state);
    let end = part.skip(part.len() - 2);
    assert(end[0] == steps[to]);
    assert(end[1] == steps[to + 1]);
}

/// A stop is told as such: that nothing plays, how the queue rests, and the whole
/// state, in this order.
pub proof fn a_stop_is_told(
    before: CoreStateView,
    steps: Seq<PortStep>,
    after: CoreStateView,
    receipt: CommandReceipt,
)
    requires
        crate::orchestrator::stops(before, steps, after, Ok(receipt)),
    ensures
        steps.len() == 14,
        told_at(steps, 3, playback_news(after)),
        told_at(steps, 6, queue_news(after, QueueUpdateReason::CurrentChanged)),
        state_told_at(steps, 11, after),
        ends_with_receipt(steps, receipt),
{
    let events = seq![
        after.playback_event(),
        after.queue_event(QueueUpdateReason::CurrentChanged),
    ];
    lemma_answered(steps, 1, events, after, None, receipt);
    assert(told_at(steps, 1 + 3 * 0int + 2, events[0]));
    assert(told_at(steps, 1 + 3 * 1int + 2, events[1]));
}

/// That an item plays on, or pauses, is told as the state of the player, before
/// the whole state.
pub proof fn playing_on_and_pausing_are_told(
    before: CoreStateView,
    steps: Seq<PortStep>,
    after: CoreStateView,
    receipt: CommandReceipt,
)
    requires
        ({
            ||| crate::orchestrator::pauses(before, steps, after, Ok(receipt))
            ||| before.playback.state == PlaybackStatus::Paused && before.current_index() is Some
                && crate::orchestrator::plays(before, steps, after, Ok(receipt))
        }),
    ensures
        steps.len() == 11,
        told_at(steps, 3, playback_news(after)),
        state_told_at(steps, 8, after),
        ends_with_receipt(steps, receipt),
{
    let events = seq![after.playback_event()];
    if before.queue.len() == 0 && before.playback.state == PlaybackStatus::Paused {
        assert(crate::core_state::item_index(
            before.queue,
            before.playback.current_queue_item_id->0@,
        ) is None);
    }
    lemma_answered(steps, 1, events, after, None, receipt);
    assert(told_at(steps, 1 + 3 * 0int + 2, events[0]));
}

/// A seek is told as the new position, before the whole state.
pub proof fn a_seek_is_told(
    before: CoreStateView,
    position_ms: u64,
    steps: Seq<PortStep>,
    after: CoreStateView,
    receipt: CommandReceipt,
)
    requires
        crate::orchestrator::seeks(before, position_ms, steps, after, Ok(receipt)),
    ensures
        steps.len() == 11,
        told_at(steps, 3, CoreEventView::PlaybackPositionUpdated { position_ms }),
        state_told_at(steps, 8, after),
        ends_with_receipt(steps, receipt),
{
    let events = seq![CoreEventView::PlaybackPositionUpdated { position_ms }];
    lemma_answered(steps, 1, events, after, None, receipt);
    assert(told_at(steps, 1 + 3 * 0int + 2, events[0]));
}

/// A new volume is told with the whole state, and by no event of its own.
pub proof fn a_new_volume_is_told(
    before: CoreStateView,
    volume_percent: u8,
    steps: Seq<PortStep>,
    after: CoreStateView,
    receipt: CommandReceipt,
)
    requires
        crate::orchestrator::sets_volume(before, volume_percent, steps, after, Ok(receipt)),
    ensures
        steps.len() == 8,
        state_told_at(steps, 5, after),
        ends_with_receipt(steps, receipt),
{
    lemma_answered(steps, 1, Seq::empty(), after, None, receipt);
}

/// A removal, a move and a clearing are each told under their own reason, with the
/// queue that they leave.
pub proof fn changes_of_the_queue_are_told(
    before: CoreStateView,
    queue_item_id: Seq<char>,
    to_index: u64,
    steps: Seq<PortStep>,
    after: CoreStateView,
    receipt: CommandReceipt,
)
    ensures
        crate::orchestrator::removes(before, queue_item_id, steps, after, Ok(receipt)) ==> {
            &&& steps.len() == 10
            &&& told_at(steps, 2, queue_news(after, QueueUpdateReason::Remove))
            &&& state_told_at(steps, 7, after)
            &&& ends_with_receipt(steps, receipt)
        },
        crate::orchestrator::moves(before, queue_item_id, to_index, steps, after, Ok(receipt)) ==> {
            &&& steps.len() == 10
            &&& told_at(steps, 2, queue_news(after, QueueUpdateReason::Move))
            &&& state_told_at(steps, 7, after)
            &&& ends_with_receipt(steps, receipt)
        },
        crate::orchestrator::clears(before, steps, after, Ok(receipt)) ==> {
            &&& steps.len() == 14
            &&& told_at(steps, 3, playback_news(after))
            &&& told_at(steps, 6, queue_news(after, QueueUpdateReason::Clear))
            &&& state_told_at(steps, 11, after)
            &&& ends_with_receipt(steps, receipt)
        },
{
    assert(steps.skip(0) =~= steps);
    if crate::orchestrator::removes(before, queue_item_id, steps, after, Ok(receipt)) {
        let events = seq![after.queue_event(QueueUpdateReason::Remove)];
        lemma_answered(steps, 0, events, after, None, receipt);
        assert(told_at(steps, 0 + 3 * 0int + 2, events[0]));
    }
    if crate::orchestrator::moves(before, queue_item_id, to_index, steps, after, Ok(receipt)) {
        let events = seq![after.queue_event(QueueUpdateReason::Move)];
        lemma_answered(steps, 0, events, after, None, receipt);
        assert(told_at(steps, 0 + 3 * 0int + 2, events[0]));
    }
    if crate::orchestrator::clears(before, steps, after, Ok(receipt)) {
        let events = seq![
            after.playback_event(),
            after.queue_event(QueueUpdateReason::Clear),
        ];
        lemma_answered(steps, 1, events, after, None, receipt);
        assert(told_at(steps, 1 + 3 * 0int + 2, events[0]));
        assert(told_at(steps, 1 + 3 * 1int + 2, events[1]));
    }
}

/// A start is told as what plays now and as the queue around it; where another
/// item plays than before, the item comes first.
pub proof fn a_start_is_told(
    before: CoreStateView,
    index: int,
    position_ms: u64,
    steps: Seq<PortStep>,
    after: CoreStateView,
    receipt: CommandReceipt,
)
    requires
        0 <= index < before.queue.len(),
        crate::orchestrator::starts_and_answers(
            before,
            index,
            position_ms,
            steps,
            after,
            Ok(receipt),
        ),
    ensures
        ({
            let item = before.queue[index];
            let same = before.playback.current_queue_item_id matches Some(id) && id@ == item.id@;
            let at = if same {
                4int
            } else {
                7int
            };
            &&& !same ==> told_at(
                steps,
                4,
                CoreEventView::PlaybackTrackChanged { queue_item_id: item.id, song: item.song },
            )
            &&& told_at(steps, at, playback_news(after))
            &&& told_at(steps, at + 3, queue_news(after, QueueUpdateReason::CurrentChanged))
            &&& state_told_at(steps, at + 8, after)
            &&& steps.len() == at + 11
            &&& ends_with_receipt(steps, receipt)
        }),
{
    let session = steps[0]->NewId_id;
    let taken = steps.take(steps.len() - 2);
    assert(taken[0] == steps[0]);
    assert(taken[1] == steps[1]);
    let events = before.start_events(index, session, position_ms);
    assert(taken.skip(2) =~= steps.subrange(2, steps.len() - 2));
    lemma_changed(steps, 2, steps.len() - 2, events, after);
    let same = crate::text::opt_is(before.playback.current_queue_item_id, before.queue[index].id@);
    assert(told_at(steps, 2 + 3 * 0int + 2, events[0]));
    assert(told_at(steps, 2 + 3 * 1int + 2, events[1]));
    if !same {
        assert(told_at(steps, 2 + 3 * 2int + 2, events[2]));
    }
    let end = steps.skip(steps.len() - 2);
    assert(end[0] == steps[steps.len() - 2]);
    assert(end[1] == steps[steps.len() - 1]);
}

/// When playback has come to the end of the queue, it is told that nothing plays
/// and how the queue rests.
pub proof fn the_end_of_the_queue_is_told(
    before: CoreStateView,
    steps: Seq<PortStep>,
    after: CoreStateView,
)
    requires
        crate::playback_laws::is_current_at(before, before.queue.len() - 1),
        crate::orchestrator::finishes(before, steps, after, Ok(())),
    ensures
        steps.len() == 12,
        told_at(steps, 3, playback_news(after)),
        told_at(steps, 6, queue_news(after, QueueUpdateReason::CurrentChanged)),
        state_told_at(steps, 11, after),
{
    crate::core_state::lemma_item_index_is(
        before.queue,
        before.playback.current_queue_item_id->0@,
        before.queue.len() - 1,
    );
    let events = seq![
        after.playback_event(),
        after.queue_event(QueueUpdateReason::CurrentChanged),
    ];
    assert(steps.skip(1) =~= steps.subrange(1, steps.len() as int));
    lemma_changed(steps, 1, steps.len() as int, events, after);
    assert(told_at(steps, 1 + 3 * 0int + 2, events[0]));
    assert(told_at(steps, 1 + 3 * 1int + 2, events[1]));
}

/// That a loaded item plays now is told as the state of the player and the queue
/// around it.
pub proof fn a_confirmed_start_is_told(
    before: CoreStateView,
    session: Seq<char>,
    queue_item_id: Seq<char>,
    position_ms: u64,
    steps: Seq<PortStep>,
    after: CoreStateView,
)
    requires
        crate::orchestrator::confirms(
            before,
            session,
            queue_item_id,
            position_ms,
            steps,
            after,
            Ok(true),
        ),
    ensures
        steps.len() == 11,
        told_at(steps, 2, playback_news(after)),
        told_at(steps, 5, queue_news(after, QueueUpdateReason::CurrentChanged)),
        state_told_at(steps, 10, after),
{
    let events = seq![
        after.playback_event(),
        after.queue_event(QueueUpdateReason::CurrentChanged),
    ];
    assert(steps =~= steps.subrange(0, steps.len() as int));
    lemma_changed(steps, 0, steps.len() as int, events, after);
    assert(told_at(steps, 0 + 3 * 0int + 2, events[0]));
    assert(told_at(steps, 0 + 3 * 1int + 2, events[1]));
}

/// A completed search is told with the search as it stands now and with all of its
/// results.
pub proof fn a_completed_search_is_told(
    before: CoreStateView,
    k: int,
    results: Vec<Song>,
    steps: Seq<PortStep>,
    after: CoreStateView,
)
    requires
        0 <= k < before.search_jobs.len(),
        forall|j: int|
            0 <= j < k ==> (#[trigger] before.search_jobs[j]).job_id@
                != before.search_jobs[k].job_id@,
        crate::orchestrator::completes(
            before,
            before.search_jobs[k].job_id@,
            results,
            steps,
            after,
            Ok(()),
        ),
    ensures
        steps.len() == 4,
        told_at(
            steps,
            3,
            CoreEventView::SearchJobCompleted { job: after.search_jobs[k], results: results@ },
        ),
{
    crate::core_state::lemma_job_index_is(
        before.search_jobs,
        before.search_jobs[k].job_id@,
        k,
    );
    let events = seq![
        CoreEventView::SearchJobCompleted { job: after.search_jobs[k], results: results@ },
    ];
    assert(steps.skip(1) =~= steps.subrange(1, steps.len() as int));
    lemma_reported(steps, 1, steps.len() as int, events);
    assert(told_at(steps, 1 + 3 * 0int + 2, events[0]));
}

/// A completed import is told as an addition to the queue, then as the import as it
/// stands now, and at last with the whole state.
pub proof fn a_completed_import_is_told(
    before: CoreStateView,
    k: int,
    songs: Seq<Song>,
    total_count: u64,
    failed_count: u64,
    steps: Seq<PortStep>,
    after: CoreStateView,
)
    requires
        crate::worker_laws::is_import_at(before, k),
        crate::orchestrator::completes_import(
            before,
            before.youtube_import_jobs[k].job_id@,
            songs,
            total_count,
            failed_count,
            steps,
            after,
            Ok(()),
        ),
    ensures
        told_at(
            steps,
            steps.len() - 6,
            CoreEventView::YoutubeImportCompleted(after.youtube_import_jobs[k]),
        ),
        state_told_at(steps, steps.len() - 1, after),
        before.playback.current_queue_item_id is Some ==> told_at(
            steps,
            steps.len() - 9,
            queue_news(after, QueueUpdateReason::Add),
        ),
        ({
            let done = after.youtube_import_jobs[k];
            &&& done.status == crate::models::YoutubeImportJobStatus::Completed
            &&& done.total_count == total_count
            &&& done.queued_count == songs.len() as u64
            &&& done.failed_count == failed_count
            &&& done.completed_at is Some
            &&& done.error_code is None
            &&& done.error_message is None
            &&& done.url == before.youtube_import_jobs[k].url
            &&& done.created_at == before.youtube_import_jobs[k].created_at
        }),
{
    let id = before.youtube_import_jobs[k].job_id@;
    crate::core_state::lemma_import_index_is(before.youtube_import_jobs, id, k);
    let n = songs.len() as int;
    let told = 2 * n + 1 + crate::orchestrator::load_calls(before);
    let job = after.youtube_import_jobs[k];
    let first = before.queue.len() as int;
    let added = after.add_events(first, crate::orchestrator::has_loaded(before, after));
    let events = added.push(CoreEventView::YoutubeImportCompleted(job));
    assert(steps.skip(told) =~= steps.subrange(told, steps.len() as int));
    lemma_changed(steps, told, steps.len() as int, events, after);
    let m = events.len() - 1;
    assert(told_at(steps, told + 3 * m + 2, events[m]));
    assert(told + 3 * m + 2 == steps.len() - 6);
    if before.playback.current_queue_item_id is Some {
        assert(added.len() == 1);
        assert(told_at(steps, told + 3 * 0int + 2, events[0]));
    }
}

/// An event that the publisher refuses is the last one, and its refusal is what
/// comes of it, under the code and the message of the publisher.
pub proof fn a_refused_event_is_the_last(
    steps: Seq<PortStep>,
    events: Seq<CoreEventView>,
    failure: CoreErrorView,
)
    requires
        crate::orchestrator::reports(steps, events, Some(failure)),
    ensures
        0 < steps.len() <= 3 * events.len(),
        steps.last() matches PortStep::Publish { reply: Err(error), .. } && failure
            == (CoreErrorView::Port {
            code: error.spec_code(),
            message: error.spec_message(),
        }),
    decreases events.len(),
{
    if steps[2]->Publish_reply is Ok {
        let rest = steps.skip(3);
        a_refused_event_is_the_last(rest, events.drop_first(), failure);
        assert(rest.last() == steps.last());
    } else {
        assert(steps.take(3)[2] == steps[2]);
    }
}

/// Every command that succeeds ends with its receipt: a command id and the time at
/// which it was accepted, drawn last of all.
pub proof fn every_command_ends_with_its_receipt(
    command: Command,
    before: CoreStateView,
    steps: Seq<PortStep>,
    after: CoreStateView,
    receipt: CommandReceipt,
)
    requires
        command.acts(before, steps, after, Ok(receipt)),
    ensures
        ends_with_receipt(steps, receipt),
        receipt.job_id is Some <==> command is Search || command is Import,
        receipt.queue_item_id is Some <==> command is Enqueue || command is EnqueueFound,
{
    lemma_last_two(steps, 0);
    lemma_last_two(steps, 1);
    lemma_last_two(steps, 3);
    if command is Enqueue || command is EnqueueFound {
        let from = 2 + crate::orchestrator::load_calls(before);
        lemma_last_two(steps, from);
    }
}

proof fn lemma_last_two(steps: Seq<PortStep>, from: int)
    ensures
        0 <= from && from + 2 <= steps.len() ==> {
            let part = steps.skip(from);
            &&& part.skip(part.len() - 2)[0] == steps[steps.len() - 2]
            &&& part.skip(part.len() - 2)[1] == steps[steps.len() - 1]
        },
{
}

} // verus!
