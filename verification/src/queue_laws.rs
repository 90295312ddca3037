//! Laws of the queue: as long as no identifier is handed out twice, the current
//! item is in the queue, and just once.

use vstd::prelude::*;

use crate::audio::PlaybackWorkerEvent;
use crate::core_state::CoreStateView;
use crate::domain::{QueueItem, Song};
use crate::ids::LocalIdGenerator;
use crate::models::CommandReceipt;
use crate::orchestrator::{CoreError, Orchestrator};
use crate::orchestrator_laws::Command;
use crate::ports::{
    ClockPort, EventPublisherPort, IdGeneratorPort, IdKind, PlaybackPort, PortStep, Ports,
    SearchPort,
};
use crate::workers::{BridgeOutcome, ImportAnswer, ImportSettlement, SearchAnswer, Settlement};

verus! {

// ---------------------------------------------------------------------------
// What holds of a queue
// ---------------------------------------------------------------------------

/// Whether no two identifiers of one kind that were handed out are the same.
pub open spec fn fresh_ids(journal: Seq<PortStep>) -> bool {
    forall|i: int, j: int|
        0 <= i < j < journal.len() && (#[trigger] journal[i]) is NewId && (#[trigger] journal[j])
            is NewId && journal[i]->NewId_kind == journal[j]->NewId_kind
            ==> journal[i]->NewId_id@ != journal[j]->NewId_id@
}

/// Whether an identifier was handed out for an item.
pub open spec fn issued(journal: Seq<PortStep>, id: Seq<char>) -> bool {
    exists|k: int|
        0 <= k < journal.len() && (#[trigger] journal[k]) is NewId && journal[k]->NewId_kind
            == IdKind::QueueItem && journal[k]->NewId_id@ == id
}

/// Whether an item with the given id stands at `i`.
pub open spec fn stands_at(queue: Seq<QueueItem>, id: Seq<char>, i: int) -> bool {
    0 <= i < queue.len() && queue[i].id@ == id
}

/// Whether the current item, if there is one, is in the queue, and just once.
pub open spec fn holds_the_current_item_once(state: CoreStateView) -> bool {
    state.playback.current_queue_item_id matches Some(id) ==> exists|i: int| #[trigger]
        stands_at(state.queue, id@, i) && forall|j: int| #[trigger]
            stands_at(state.queue, id@, j) ==> j == i
}

/// Whether, after the port calls `journal`, no two items have the same id, every
/// item has an id that was handed out for it, and the current item is in the queue.
pub open spec fn settled(journal: Seq<PortStep>, state: CoreStateView) -> bool {
    &&& crate::orchestrator_laws::ids_differ(state.queue)
    &&& forall|i: int|
        0 <= i < state.queue.len() ==> issued(journal, (#[trigger] state.queue[i]).id@)
    &&& state.playback.current_queue_item_id matches Some(id) ==> exists|i: int| #[trigger]
        stands_at(state.queue, id@, i)
}

/// A player that has just come up is settled.
pub proof fn a_new_player_is_settled(journal: Seq<PortStep>, state: CoreStateView)
    requires
        state.queue.len() == 0,
        state.playback.current_queue_item_id is None,
    ensures
        settled(journal, state),
{
}

/// In a settled player the current item is in the queue, and just once.
pub proof fn a_settled_player_holds_its_item_once(journal: Seq<PortStep>, state: CoreStateView)
    requires
        settled(journal, state),
    ensures
        holds_the_current_item_once(state),
        state.playback.current_queue_item_id is Some ==> state.current_index() is Some,
{
    match state.playback.current_queue_item_id {
        Some(id) => {
            let i = choose|i: int| stands_at(state.queue, id@, i);
            assert forall|j: int| #[trigger] stands_at(state.queue, id@, j) implies j == i by {
                if i < j {
                    assert(state.queue[i].id@ != state.queue[j].id@);
                } else if j < i {
                    assert(state.queue[j].id@ != state.queue[i].id@);
                }
            }
            crate::core_state::lemma_item_index(state.queue, id@);
        },
        None => {},
    }
}

// ---------------------------------------------------------------------------
// Steps of a proof
// ---------------------------------------------------------------------------

proof fn lemma_issued_on(journal: Seq<PortStep>, steps: Seq<PortStep>, id: Seq<char>)
    requires
        issued(journal, id),
    ensures
        issued(journal + steps, id),
{
    let k = choose|k: int|
        0 <= k < journal.len() && (#[trigger] journal[k]) is NewId && journal[k]->NewId_kind
            == IdKind::QueueItem && journal[k]->NewId_id@ == id;
    assert((journal + steps)[k] == journal[k]);
}

proof fn lemma_fresh_before(journal: Seq<PortStep>, steps: Seq<PortStep>, n: int)
    requires
        0 <= n <= steps.len(),
        fresh_ids(journal + steps),
    ensures
        fresh_ids(journal + steps.take(n)),
        (journal + steps.take(n)) + steps.skip(n) == journal + steps,
{
    let all = journal + steps;
    let part = journal + steps.take(n);
    assert(part + steps.skip(n) =~= all);
    assert forall|i: int, j: int|
        0 <= i < j < part.len() && (#[trigger] part[i]) is NewId && (#[trigger] part[j]) is NewId
            && part[i]->NewId_kind == part[j]->NewId_kind implies part[i]->NewId_id@
        != part[j]->NewId_id@ by {
        assert(all[i] == part[i]);
        assert(all[j] == part[j]);
    }
}

/// The same ids in the same order, and the current item is one of them.
proof fn lemma_same_ids(
    journal: Seq<PortStep>,
    steps: Seq<PortStep>,
    before: CoreStateView,
    after: CoreStateView,
)
    requires
        settled(journal, before),
        crate::core_state::item_ids(after.queue) == crate::core_state::item_ids(before.queue),
        after.playback.current_queue_item_id is None || after.playback.current_queue_item_id
            == before.playback.current_queue_item_id || exists|i: int| #[trigger]
            stands_at(after.queue, after.playback.current_queue_item_id->0@, i),
    ensures
        settled(journal + steps, after),
{
    let old_ids = crate::core_state::item_ids(before.queue);
    let new_ids = crate::core_state::item_ids(after.queue);
    assert(after.queue.len() == new_ids.len());
    assert(before.queue.len() == old_ids.len());
    assert forall|i: int| 0 <= i < after.queue.len() implies (#[trigger] after.queue[i]).id@
        == before.queue[i].id@ by {
        assert(new_ids[i] == old_ids[i]);
    }
    assert forall|i: int| 0 <= i < after.queue.len() implies issued(
        journal + steps,
        (#[trigger] after.queue[i]).id@,
    ) by {
        assert(after.queue[i].id@ == before.queue[i].id@);
        lemma_issued_on(journal, steps, before.queue[i].id@);
    }
    match after.playback.current_queue_item_id {
        Some(id) => {
            if after.playback.current_queue_item_id == before.playback.current_queue_item_id {
                let i = choose|i: int| stands_at(before.queue, id@, i);
                assert(after.queue[i].id@ == before.queue[i].id@);
                assert(stands_at(after.queue, id@, i));
            }
        },
        None => {},
    }
}

proof fn lemma_started(
    journal: Seq<PortStep>,
    steps: Seq<PortStep>,
    before: CoreStateView,
    index: int,
    session: String,
    position_ms: u64,
)
    requires
        settled(journal, before),
        0 <= index < before.queue.len(),
    ensures
        settled(journal + steps, before.started(index, session, position_ms)),
{
    let after = before.started(index, session, position_ms);
    crate::core_state::playback_keeps_the_items(before, index, session, position_ms);
    assert(stands_at(after.queue, after.playback.current_queue_item_id->0@, index));
    lemma_same_ids(journal, steps, before, after);
}

proof fn lemma_stopped(journal: Seq<PortStep>, steps: Seq<PortStep>, before: CoreStateView)
    requires
        settled(journal, before),
    ensures
        settled(journal + steps, before.stopped()),
{
    assert(crate::core_state::item_ids(before.stopped().queue) =~= crate::core_state::item_ids(
        before.queue,
    ));
    lemma_same_ids(journal, steps, before, before.stopped());
}

proof fn lemma_finished(journal: Seq<PortStep>, before: CoreStateView, index: int)
    requires
        settled(journal, before),
        0 <= index < before.queue.len(),
    ensures
        settled(journal, before.finished(index)),
{
    let marked = before.finished(index);
    assert(crate::core_state::item_ids(marked.queue) =~= crate::core_state::item_ids(before.queue));
    lemma_same_ids(journal, Seq::empty(), before, marked);
    assert(journal + Seq::<PortStep>::empty() =~= journal);
}

proof fn lemma_starts(
    journal: Seq<PortStep>,
    steps: Seq<PortStep>,
    before: CoreStateView,
    index: int,
    position_ms: u64,
    taken: Seq<PortStep>,
    after: CoreStateView,
    failure: Option<crate::orchestrator::CoreErrorView>,
)
    requires
        settled(journal, before),
        0 <= index < before.queue.len(),
        crate::orchestrator::starts(before, index, position_ms, taken, after, failure),
    ensures
        settled(journal + steps, after),
{
    if taken[1]->Playback_reply is Ok {
        lemma_started(journal, steps, before, index, taken[0]->NewId_id, position_ms);
    } else {
        lemma_same_ids(journal, steps, before, after);
    }
}

proof fn lemma_starts_and_answers(
    journal: Seq<PortStep>,
    steps: Seq<PortStep>,
    before: CoreStateView,
    index: int,
    position_ms: u64,
    after: CoreStateView,
    result: Result<CommandReceipt, CoreError>,
)
    requires
        settled(journal, before),
        0 <= index < before.queue.len(),
        crate::orchestrator::starts_and_answers(before, index, position_ms, steps, after, result),
    ensures
        settled(journal + steps, after),
{
    match result {
        Err(error) => lemma_starts(
            journal,
            steps,
            before,
            index,
            position_ms,
            steps,
            after,
            Some(error@),
        ),
        Ok(_) => lemma_starts(
            journal,
            steps,
            before,
            index,
            position_ms,
            steps.take(steps.len() - 2),
            after,
            None,
        ),
    }
}

proof fn lemma_stops(
    journal: Seq<PortStep>,
    steps: Seq<PortStep>,
    before: CoreStateView,
    taken: Seq<PortStep>,
    after: CoreStateView,
    result: Result<CommandReceipt, CoreError>,
)
    requires
        settled(journal, before),
        crate::orchestrator::stops(before, taken, after, result),
    ensures
        settled(journal + steps, after),
{
    lemma_stopped(journal, steps, before);
    lemma_same_ids(journal, steps, before, before);
}

proof fn lemma_removed(
    journal: Seq<PortStep>,
    steps: Seq<PortStep>,
    before: CoreStateView,
    k: int,
)
    requires
        settled(journal, before),
        0 <= k < before.queue.len(),
        !crate::text::opt_is(before.playback.current_queue_item_id, before.queue[k].id@),
    ensures
        settled(journal + steps, before.with_queue(before.queue.remove(k))),
{
    let after = before.with_queue(before.queue.remove(k));
    assert forall|j: int| 0 <= j < after.queue.len() implies issued(
        journal + steps,
        (#[trigger] after.queue[j]).id@,
    ) by {
        let from = if j < k { j } else { j + 1 };
        assert(after.queue[j] == before.queue[from]);
        lemma_issued_on(journal, steps, before.queue[from].id@);
    }
    assert forall|i: int, j: int| 0 <= i < j < after.queue.len() implies (
    #[trigger] after.queue[i]).id@ != (#[trigger] after.queue[j]).id@ by {
        let from = if i < k { i } else { i + 1 };
        let to = if j < k { j } else { j + 1 };
        assert(after.queue[i] == before.queue[from]);
        assert(after.queue[j] == before.queue[to]);
        assert(before.queue[from].id@ != before.queue[to].id@);
    }
    match before.playback.current_queue_item_id {
        Some(id) => {
            let c = choose|c: int| stands_at(before.queue, id@, c);
            let moved = if c < k { c } else { c - 1 };
            assert(after.queue[moved] == before.queue[c]);
            assert(stands_at(after.queue, id@, moved));
        },
        None => {},
    }
}

proof fn lemma_moved(
    journal: Seq<PortStep>,
    steps: Seq<PortStep>,
    before: CoreStateView,
    from: int,
    to: int,
)
    requires
        settled(journal, before),
        0 <= from < before.queue.len(),
        0 <= to < before.queue.len(),
    ensures
        settled(journal + steps, before.rearranged(from, to)),
{
    let next = before.with_queue(crate::core_state::moved(before.queue, from, to));
    let source = |i: int|
        if i == to {
            from
        } else {
            let k = if i < to { i } else { i - 1 };
            if k < from {
                k
            } else {
                k + 1
            }
        };
    assert forall|i: int| 0 <= i < next.queue.len() implies #[trigger] next.queue[i]
        == before.queue[source(i)] by {}
    assert forall|i: int| 0 <= i < next.queue.len() implies issued(
        journal + steps,
        (#[trigger] next.queue[i]).id@,
    ) by {
        assert(next.queue[i] == before.queue[source(i)]);
        lemma_issued_on(journal, steps, before.queue[source(i)].id@);
    }
    assert forall|i: int, j: int| 0 <= i < j < next.queue.len() implies (
    #[trigger] next.queue[i]).id@ != (#[trigger] next.queue[j]).id@ by {
        assert(next.queue[i] == before.queue[source(i)]);
        assert(next.queue[j] == before.queue[source(j)]);
        assert(source(i) != source(j));
        if source(i) < source(j) {
            assert(before.queue[source(i)].id@ != before.queue[source(j)].id@);
        } else {
            assert(before.queue[source(j)].id@ != before.queue[source(i)].id@);
        }
    }
    match before.playback.current_queue_item_id {
        Some(id) => {
            let c = choose|c: int| stands_at(before.queue, id@, c);
            let target = if c == from {
                to
            } else {
                let k = if c < from { c } else { c - 1 };
                if k < to {
                    k
                } else {
                    k + 1
                }
            };
            assert(next.queue[target] == before.queue[c]);
            assert(stands_at(next.queue, id@, target));
        },
        None => {},
    }
    let after = before.rearranged(from, to);
    assert(settled(journal + steps, next));
    assert(crate::core_state::item_ids(after.queue) =~= crate::core_state::item_ids(next.queue));
    lemma_same_ids(journal + steps, Seq::empty(), next, after);
    assert((journal + steps) + Seq::<PortStep>::empty() =~= journal + steps);
}

/// Items with ids that were handed out just now stand behind the others.
proof fn lemma_appended(
    journal: Seq<PortStep>,
    steps: Seq<PortStep>,
    before: CoreStateView,
    items: Seq<QueueItem>,
    drawn: Seq<int>,
)
    requires
        settled(journal, before),
        fresh_ids(journal + steps),
        drawn.len() == items.len(),
        forall|k: int|
            0 <= k < items.len() ==> {
                &&& 0 <= #[trigger] drawn[k] < steps.len()
                &&& steps[drawn[k]] is NewId
                &&& steps[drawn[k]]->NewId_kind == IdKind::QueueItem
                &&& steps[drawn[k]]->NewId_id == items[k].id
            },
        forall|k: int, l: int|
            0 <= k < l < items.len() ==> #[trigger] drawn[k] < #[trigger] drawn[l],
    ensures
        settled(journal + steps, before.with_queue(before.queue + items)),
{
    let all = journal + steps;
    let n = before.queue.len();
    let after = before.with_queue(before.queue + items);
    assert forall|i: int| 0 <= i < after.queue.len() implies issued(
        all,
        (#[trigger] after.queue[i]).id@,
    ) by {
        if i < n {
            assert(after.queue[i] == before.queue[i]);
            lemma_issued_on(journal, steps, before.queue[i].id@);
        } else {
            let k = i - n;
            assert(after.queue[i] == items[k]);
            assert(all[journal.len() + drawn[k]] == steps[drawn[k]]);
        }
    }
    assert forall|i: int, j: int| 0 <= i < j < after.queue.len() implies (
    #[trigger] after.queue[i]).id@ != (#[trigger] after.queue[j]).id@ by {
        if j < n {
            assert(after.queue[i] == before.queue[i]);
            assert(after.queue[j] == before.queue[j]);
        } else {
            let l = j - n;
            let q = journal.len() + drawn[l];
            assert(after.queue[j] == items[l]);
            assert(all[q] == steps[drawn[l]]);
            if i < n {
                assert(after.queue[i] == before.queue[i]);
                assert(issued(journal, before.queue[i].id@));
                let p = choose|p: int|
                    0 <= p < journal.len() && (#[trigger] journal[p]) is NewId
                        && journal[p]->NewId_kind == IdKind::QueueItem && journal[p]->NewId_id@
                        == before.queue[i].id@;
                assert(all[p] == journal[p]);
            } else {
                let k = i - n;
                assert(after.queue[i] == items[k]);
                assert(all[journal.len() + drawn[k]] == steps[drawn[k]]);
                assert(drawn[k] < drawn[l]);
            }
        }
    }
    match before.playback.current_queue_item_id {
        Some(id) => {
            let c = choose|c: int| stands_at(before.queue, id@, c);
            assert(after.queue[c] == before.queue[c]);
            assert(stands_at(after.queue, id@, c));
        },
        None => {},
    }
}

proof fn lemma_enqueues(
    journal: Seq<PortStep>,
    steps: Seq<PortStep>,
    before: CoreStateView,
    song: Song,
    after: CoreStateView,
    result: Result<CommandReceipt, CoreError>,
)
    requires
        settled(journal, before),
        fresh_ids(journal + steps),
        crate::orchestrator::enqueues(before, song, steps, after, result),
    ensures
        settled(journal + steps, after),
{
    let item = QueueItem {
        id: steps[0]->NewId_id,
        song,
        added_at: steps[1]->ReadClock_now,
        status: crate::domain::QueueItemStatus::Queued,
    };
    let items = seq![item];
    lemma_appended(journal, steps, before, items, seq![0int]);
    assert(before.queue + items =~= before.queue.push(item));
    let n = 2 + crate::orchestrator::load_calls(before);
    lemma_loads(
        journal + steps,
        before.with_queue(before.queue.push(item)),
        before.queue.len() as int,
        steps.subrange(2, n),
        after,
    );
}

proof fn lemma_loads(
    journal: Seq<PortStep>,
    before: CoreStateView,
    index: int,
    steps: Seq<PortStep>,
    after: CoreStateView,
)
    requires
        settled(journal, before),
        0 <= index < before.queue.len(),
        crate::orchestrator::loads(before, index, steps, after),
    ensures
        settled(journal, after),
{
    assert(crate::core_state::item_ids(after.queue) =~= crate::core_state::item_ids(before.queue));
    if after.playback.current_queue_item_id != before.playback.current_queue_item_id {
        assert(stands_at(after.queue, after.playback.current_queue_item_id->0@, index));
    }
    lemma_same_ids(journal, Seq::empty(), before, after);
    assert(journal + Seq::<PortStep>::empty() =~= journal);
}

// ---------------------------------------------------------------------------
// The laws
// ---------------------------------------------------------------------------

/// As long as no identifier is handed out twice, every command leaves the
/// current item in the queue, and just once. The one exception is a player that
/// refuses to stop while the queue is cleared under a current item.
pub proof fn commands_keep_the_current_item(
    command: Command,
    journal: Seq<PortStep>,
    before: CoreStateView,
    steps: Seq<PortStep>,
    after: CoreStateView,
    result: Result<CommandReceipt, CoreError>,
)
    requires
        settled(journal, before),
        fresh_ids(journal + steps),
        command.acts(before, steps, after, result),
        command is Clear ==> before.playback.current_queue_item_id is None
            || steps[0]->Playback_reply is Ok,
    ensures
        settled(journal + steps, after),
        holds_the_current_item_once(after),
{
    lemma_same_ids(journal, steps, before, before);
    match before.playback.current_queue_item_id {
        Some(id) => crate::core_state::lemma_item_index(before.queue, id@),
        None => {},
    }
    match command {
        Command::Play => {
            if before.queue.len() > 0 && !(before.playback.state
                == crate::domain::PlaybackStatus::Paused && before.current_index() is Some) {
                let index = match before.current_index() {
                    Some(i) => i,
                    None => 0,
                };
                lemma_starts_and_answers(
                    journal,
                    steps,
                    before,
                    index,
                    before.playback.position_ms,
                    after,
                    result,
                );
            } else {
                lemma_same_ids(journal, steps, before, after);
            }
        },
        Command::Stop => lemma_stops(journal, steps, before, steps, after, result),
        Command::Next => match before.current_index() {
            Some(i) => if i + 1 < before.queue.len() {
                lemma_starts_and_answers(journal, steps, before, i + 1, 0, after, result);
            } else {
                match result {
                    Err(error) => lemma_stops(journal, steps, before, steps, after, Err(error)),
                    Ok(_) => {
                        let part = steps.take(steps.len() - 2);
                        let inner = choose|inner: CommandReceipt| #[trigger]
                            crate::orchestrator::stops(before, part, after, Ok(inner));
                        lemma_stops(journal, steps, before, part, after, Ok(inner));
                    },
                }
            },
            None => if before.queue.len() > 0 {
                lemma_starts_and_answers(journal, steps, before, 0, 0, after, result);
            },
        },
        Command::Previous => {
            if before.queue.len() > 0 {
                let index = match before.current_index() {
                    Some(i) => if i == 0 {
                        0
                    } else {
                        i - 1
                    },
                    None => 0,
                };
                lemma_starts_and_answers(journal, steps, before, index, 0, after, result);
            }
        },
        Command::Remove { queue_item_id } => {
            crate::core_state::lemma_item_index(before.queue, queue_item_id);
            match crate::core_state::item_index(before.queue, queue_item_id) {
                Some(k) => if !crate::text::opt_is(
                    before.playback.current_queue_item_id,
                    queue_item_id,
                ) {
                    lemma_removed(journal, steps, before, k);
                },
                None => {},
            }
        },
        Command::Move { queue_item_id, to_index } => {
            crate::core_state::lemma_item_index(before.queue, queue_item_id);
            match crate::core_state::item_index(before.queue, queue_item_id) {
                Some(k) => if to_index < before.queue.len() && to_index <= usize::MAX {
                    lemma_moved(journal, steps, before, k, to_index as int);
                },
                None => {},
            }
        },
        Command::Enqueue { song } => lemma_enqueues(journal, steps, before, song, after, result),
        Command::EnqueueFound { song_id } => {
            if exists|song: Song| #[trigger]
                crate::core_state::song_among(before.search_results, song_id, Some(song))
                    && crate::orchestrator::enqueues(before, song, steps, after, result) {
                let song = choose|song: Song| #[trigger]
                    crate::core_state::song_among(before.search_results, song_id, Some(song))
                        && crate::orchestrator::enqueues(before, song, steps, after, result);
                lemma_enqueues(journal, steps, before, song, after, result);
            }
        },
        Command::Clear => {},
        _ => lemma_same_ids(journal, steps, before, after),
    }
    a_settled_player_holds_its_item_once(journal + steps, after);
}

/// The same of a player itself, with everything that it has said to its ports.
pub proof fn a_player_keeps_its_current_item<C, I, E, P, S>(
    command: Command,
    before: &Orchestrator<C, I, E, P, S>,
    after: &Orchestrator<C, I, E, P, S>,
    result: Result<CommandReceipt, CoreError>,
) where C: ClockPort, I: IdGeneratorPort, E: EventPublisherPort, P: PlaybackPort, S: SearchPort
    requires
        settled(before.journal(), before.model()),
        fresh_ids(after.journal()),
        after.follows(before),
        command.acts(before.model(), after.since(before), after.model(), result),
        command is Clear ==> before.model().playback.current_queue_item_id is None
            || after.since(before)[0]->Playback_reply is Ok,
    ensures
        settled(after.journal(), after.model()),
        holds_the_current_item_once(after.model()),
{
    assert(before.journal() + after.since(before) =~= after.journal());
    commands_keep_the_current_item(
        command,
        before.journal(),
        before.model(),
        after.since(before),
        after.model(),
        result,
    );
}

/// So does the end of the current item.
pub proof fn finishing_keeps_the_current_item(
    journal: Seq<PortStep>,
    before: CoreStateView,
    steps: Seq<PortStep>,
    after: CoreStateView,
    result: Result<(), CoreError>,
)
    requires
        settled(journal, before),
        crate::orchestrator::finishes(before, steps, after, result),
    ensures
        settled(journal + steps, after),
        holds_the_current_item_once(after),
{
    match before.playback.current_queue_item_id {
        Some(id) => crate::core_state::lemma_item_index(before.queue, id@),
        None => {},
    }
    match before.current_index() {
        Some(i) => {
            let marked = before.finished(i);
            lemma_finished(journal, before, i);
            if i + 1 < before.queue.len() {
                lemma_starts(
                    journal,
                    steps,
                    marked,
                    i + 1,
                    0,
                    steps,
                    after,
                    crate::orchestrator::failure(result),
                );
            } else {
                lemma_stopped(journal, steps, marked);
                lemma_same_ids(journal, steps, marked, marked);
            }
        },
        None => lemma_same_ids(journal, steps, before, after),
    }
    a_settled_player_holds_its_item_once(journal + steps, after);
}

/// So does an import that brings new items.
pub proof fn imports_keep_the_current_item(
    journal: Seq<PortStep>,
    before: CoreStateView,
    job_id: Seq<char>,
    songs: Seq<Song>,
    total_count: u64,
    failed_count: u64,
    steps: Seq<PortStep>,
    after: CoreStateView,
    result: Result<(), CoreError>,
)
    requires
        settled(journal, before),
        fresh_ids(journal + steps),
        crate::orchestrator::completes_import(
            before,
            job_id,
            songs,
            total_count,
            failed_count,
            steps,
            after,
            result,
        ),
    ensures
        settled(journal + steps, after),
        holds_the_current_item_once(after),
{
    if songs.len() > 0 && crate::core_state::import_index(before.youtube_import_jobs, job_id)
        is Some {
        let items = crate::orchestrator::drawn_items(steps, songs);
        let drawn = Seq::new(songs.len(), |k: int| 2 * k);
        assert forall|k: int| 0 <= k < items.len() implies {
            &&& 0 <= #[trigger] drawn[k] < steps.len()
            &&& steps[drawn[k]] is NewId
            &&& steps[drawn[k]]->NewId_kind == IdKind::QueueItem
            &&& steps[drawn[k]]->NewId_id == items[k].id
        } by {
            assert(steps[2 * k] is NewId);
        }
        lemma_appended(journal, steps, before, items, drawn);
        let appended = before.with_queue(before.queue + items);
        let i = crate::core_state::import_index(before.youtube_import_jobs, job_id)->0;
        let n = songs.len() as int;
        let job = crate::core_state::completed_import(
            before.youtube_import_jobs[i],
            total_count,
            n as u64,
            failed_count,
            steps[2 * n]->ReadClock_now,
        );
        let added = appended.with_imports(before.youtube_import_jobs.update(i, job));
        lemma_same_ids(journal + steps, Seq::empty(), appended, added);
        assert((journal + steps) + Seq::<PortStep>::empty() =~= journal + steps);
        lemma_loads(
            journal + steps,
            added,
            before.queue.len() as int,
            steps.subrange(2 * n + 1, 2 * n + 1 + crate::orchestrator::load_calls(before)),
            after,
        );
    } else {
        lemma_same_ids(journal, steps, before, after);
    }
    a_settled_player_holds_its_item_once(journal + steps, after);
}

/// So does a search that is settled.
pub proof fn settled_searches_keep_the_current_item(
    journal: Seq<PortStep>,
    before: CoreStateView,
    job_id: Seq<char>,
    answer: SearchAnswer,
    steps: Seq<PortStep>,
    after: CoreStateView,
    settlement: Settlement,
)
    requires
        settled(journal, before),
        crate::workers::settles(before, job_id, answer, steps, after, settlement),
    ensures
        settled(journal + steps, after),
        holds_the_current_item_once(after),
{
    assert(after.queue == before.queue && after.playback == before.playback);
    lemma_same_ids(journal, steps, before, after);
    a_settled_player_holds_its_item_once(journal + steps, after);
}

/// So does an import that is settled.
pub proof fn settled_imports_keep_the_current_item(
    journal: Seq<PortStep>,
    before: CoreStateView,
    job_id: Seq<char>,
    answer: ImportAnswer,
    steps: Seq<PortStep>,
    after: CoreStateView,
    settlement: ImportSettlement,
)
    requires
        settled(journal, before),
        fresh_ids(journal + steps),
        crate::workers::settles_import(before, job_id, answer, steps, after, settlement),
    ensures
        settled(journal + steps, after),
        holds_the_current_item_once(after),
{
    match answer {
        ImportAnswer::Resolved(resolution) => {
            let songs = resolution.songs@;
            let total = resolution.total_count;
            let failed = resolution.failed_count;
            match settlement.completed->0 {
                Ok(_) => imports_keep_the_current_item(
                    journal,
                    before,
                    job_id,
                    songs,
                    total,
                    failed,
                    steps,
                    after,
                    Ok(()),
                ),
                Err(error) => {
                    let (n, between) = choose|n: int, between: CoreStateView|
                        {
                            &&& 0 <= n <= steps.len()
                            &&& #[trigger] crate::orchestrator::completes_import(
                                before,
                                job_id,
                                songs,
                                total,
                                failed,
                                steps.take(n),
                                between,
                                Err(error),
                            )
                            &&& crate::workers::fails_and_tells(
                                between,
                                job_id,
                                crate::workers::error_code(error),
                                crate::workers::completion_error_text(error),
                                crate::workers::player_is_out(crate::workers::error_code(error)),
                                steps.skip(n),
                                after,
                                settlement,
                            )
                        };
                    lemma_fresh_before(journal, steps, n);
                    imports_keep_the_current_item(
                        journal,
                        before,
                        job_id,
                        songs,
                        total,
                        failed,
                        steps.take(n),
                        between,
                        Err(error),
                    );
                    assert(after.queue == between.queue && after.playback == between.playback);
                    lemma_same_ids(journal + steps.take(n), steps.skip(n), between, after);
                },
            }
        },
        _ => {
            assert(after.queue == before.queue && after.playback == before.playback);
            lemma_same_ids(journal, steps, before, after);
        },
    }
    a_settled_player_holds_its_item_once(journal + steps, after);
}

/// So does every event of the playback worker.
pub proof fn playback_events_keep_the_current_item(
    journal: Seq<PortStep>,
    before: CoreStateView,
    event: PlaybackWorkerEvent,
    steps: Seq<PortStep>,
    after: CoreStateView,
    outcome: BridgeOutcome,
)
    requires
        settled(journal, before),
        crate::workers::bridges(before, event, steps, after, outcome),
    ensures
        settled(journal + steps, after),
        holds_the_current_item_once(after),
{
    if event is Ended && crate::workers::is_current(before, event) {
        finishing_keeps_the_current_item(journal, before, steps, after, outcome.noted->0);
    } else if (event is StartFailed || event is Interrupted) && crate::workers::is_current(
        before,
        event,
    ) {
        lemma_stopped(journal, steps, before);
        lemma_same_ids(journal, steps, before, before);
        assert(after == before || after == before.stopped());
    } else {
        match before.playback.current_queue_item_id {
            Some(id) => crate::core_state::lemma_item_index(before.queue, id@),
            None => {},
        }
        assert(crate::core_state::item_ids(after.queue) =~= crate::core_state::item_ids(
            before.queue,
        ));
        lemma_same_ids(journal, steps, before, after);
    }
    a_settled_player_holds_its_item_once(journal + steps, after);
}

/// So does whatever leaves the queue and the current item alone, such as a
/// position that is noted or a failure that is put on record.
pub proof fn an_untouched_queue_keeps_the_current_item(
    journal: Seq<PortStep>,
    before: CoreStateView,
    steps: Seq<PortStep>,
    after: CoreStateView,
)
    requires
        settled(journal, before),
        after.queue == before.queue,
        after.playback.current_queue_item_id == before.playback.current_queue_item_id,
    ensures
        settled(journal + steps, after),
        holds_the_current_item_once(after),
{
    lemma_same_ids(journal, steps, before, after);
    a_settled_player_holds_its_item_once(journal + steps, after);
}

/// The identifiers of local runs are fresh, up to the end of their count.
pub proof fn local_ids_are_fresh<C, E, P, S>(
    before: Ports<C, LocalIdGenerator, E, P, S>,
    steps: Seq<PortStep>,
    after: Ports<C, LocalIdGenerator, E, P, S>,
) where C: ClockPort, E: EventPublisherPort, P: PlaybackPort, S: SearchPort
    requires
        before.runs(steps, after),
        before.ids.count() + steps.len() <= u64::MAX,
    ensures
        fresh_ids(steps),
{
    let states = choose|states: Seq<Ports<C, LocalIdGenerator, E, P, S>>|
        before.passes(steps, after, states);
    assert forall|i: int, j: int|
        0 <= i < j < steps.len() && (#[trigger] steps[i]) is NewId && (#[trigger] steps[j])
            is NewId && steps[i]->NewId_kind == steps[j]->NewId_kind implies steps[i]->NewId_id@
        != steps[j]->NewId_id@ by {
        lemma_local_counts(before, steps, after, states, i);
        lemma_local_counts(before, steps, after, states, j);
        lemma_local_counts_rise(before, steps, after, states, i + 1, j);
        assert(states[i].takes(steps[i], states[i + 1]));
        assert(states[j].takes(steps[j], states[j + 1]));
        crate::ids::numbered_ids_differ(
            steps[i]->NewId_kind,
            states[i + 1].ids.count() as nat,
            states[j + 1].ids.count() as nat,
        );
    }
}

proof fn lemma_local_counts<C, E, P, S>(
    before: Ports<C, LocalIdGenerator, E, P, S>,
    steps: Seq<PortStep>,
    after: Ports<C, LocalIdGenerator, E, P, S>,
    states: Seq<Ports<C, LocalIdGenerator, E, P, S>>,
    k: int,
) where C: ClockPort, E: EventPublisherPort, P: PlaybackPort, S: SearchPort
    requires
        before.passes(steps, after, states),
        before.ids.count() + steps.len() <= u64::MAX,
        0 <= k <= steps.len(),
    ensures
        states[k].ids.count() <= before.ids.count() + k,
    decreases k,
{
    if k > 0 {
        lemma_local_counts(before, steps, after, states, k - 1);
        assert(states[k - 1].takes(steps[k - 1], states[k - 1 + 1]));
    }
}

proof fn lemma_local_counts_rise<C, E, P, S>(
    before: Ports<C, LocalIdGenerator, E, P, S>,
    steps: Seq<PortStep>,
    after: Ports<C, LocalIdGenerator, E, P, S>,
    states: Seq<Ports<C, LocalIdGenerator, E, P, S>>,
    i: int,
    j: int,
) where C: ClockPort, E: EventPublisherPort, P: PlaybackPort, S: SearchPort
    requires
        before.passes(steps, after, states),
        before.ids.count() + steps.len() <= u64::MAX,
        0 <= i <= j <= steps.len(),
    ensures
        states[i].ids.count() <= states[j].ids.count(),
    decreases j - i,
{
    if i < j {
        lemma_local_counts_rise(before, steps, after, states, i, j - 1);
        lemma_local_counts(before, steps, after, states, j - 1);
        assert(states[j - 1].takes(steps[j - 1], states[j - 1 + 1]));
    }
}

} // verus!
