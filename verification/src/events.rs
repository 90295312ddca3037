//! The log of recent events, from which subscribers catch up.

use std::collections::VecDeque;

use vstd::prelude::*;

use crate::models::{CoreEvent, CoreEventEnvelope};
use crate::ports::{EventPublisherPort, PortError};

verus! {

#[derive(Debug, Clone, Copy, PartialEq, Eq, Structural)]
pub enum EventCursorError {
    CursorNotFound,
}

/// The position of the first event with the given id.
pub open spec fn cursor_index(
    entries: Seq<CoreEventEnvelope<CoreEvent>>,
    event_id: Seq<char>,
) -> Option<int>
    decreases entries.len(),
{
    if entries.len() == 0 {
        None
    } else if entries[0].event_id@ == event_id {
        Some(0)
    } else {
        match cursor_index(entries.drop_first(), event_id) {
            Some(i) => Some(i + 1),
            None => None,
        }
    }
}

proof fn lemma_cursor_index(entries: Seq<CoreEventEnvelope<CoreEvent>>, event_id: Seq<char>)
    ensures
        match cursor_index(entries, event_id) {
            Some(i) => 0 <= i < entries.len() && entries[i].event_id@ == event_id && forall|j: int|
                0 <= j < i ==> (#[trigger] entries[j]).event_id@ != event_id,
            None => forall|j: int|
                0 <= j < entries.len() ==> (#[trigger] entries[j]).event_id@ != event_id,
        },
    decreases entries.len(),
{
    if entries.len() > 0 && entries[0].event_id@ != event_id {
        let rest = entries.drop_first();
        lemma_cursor_index(rest, event_id);
        assert forall|j: int| 0 < j < entries.len() implies #[trigger] entries[j] == rest[j - 1] by {}
    }
}

proof fn lemma_cursor_index_is(
    entries: Seq<CoreEventEnvelope<CoreEvent>>,
    event_id: Seq<char>,
    i: int,
)
    requires
        0 <= i < entries.len(),
        entries[i].event_id@ == event_id,
        forall|j: int| 0 <= j < i ==> (#[trigger] entries[j]).event_id@ != event_id,
    ensures
        cursor_index(entries, event_id) == Some(i),
{
    lemma_cursor_index(entries, event_id);
    match cursor_index(entries, event_id) {
        Some(k) => {
            if k < i {
                assert(entries[k].event_id@ != event_id);
            } else if i < k {
                assert(entries[i].event_id@ != event_id);
            }
        },
        None => {
            assert(entries[i].event_id@ != event_id);
        },
    }
}

/// The events behind the one with the given id, while that is still on record.
pub open spec fn events_behind(
    entries: Seq<CoreEventEnvelope<CoreEvent>>,
    event_id: Seq<char>,
) -> Option<Seq<CoreEventEnvelope<CoreEvent>>> {
    match cursor_index(entries, event_id) {
        Some(i) => Some(entries.skip(i + 1)),
        None => None,
    }
}

/// The record after one more event: where it is full, the oldest one leaves.
pub open spec fn logged(
    entries: Seq<CoreEventEnvelope<CoreEvent>>,
    max_entries: usize,
    event: CoreEventEnvelope<CoreEvent>,
) -> Seq<CoreEventEnvelope<CoreEvent>> {
    if entries.len() >= max_entries && entries.len() > 0 {
        entries.drop_first().push(event)
    } else {
        entries.push(event)
    }
}

/// Whether two lists hold the same events.
pub open spec fn same_events(
    a: Seq<CoreEventEnvelope<CoreEvent>>,
    b: Seq<CoreEventEnvelope<CoreEvent>>,
) -> bool {
    &&& a.len() == b.len()
    &&& forall|i: int|
        0 <= i < a.len() ==> crate::models::same_envelope(#[trigger] a[i], #[trigger] b[i])
}

/// Whether `events` is the answer to a subscriber that has seen everything up to
/// the event with the given id.
pub open spec fn replays(
    entries: Seq<CoreEventEnvelope<CoreEvent>>,
    event_id: Option<Seq<char>>,
    events: Result<Vec<CoreEventEnvelope<CoreEvent>>, EventCursorError>,
) -> bool {
    match event_id {
        None => events matches Ok(none) && none@.len() == 0,
        Some(id) => match events_behind(entries, id) {
            Some(behind) => events matches Ok(replay) && same_events(replay@, behind),
            None => events == Err::<Vec<CoreEventEnvelope<CoreEvent>>, EventCursorError>(
                EventCursorError::CursorNotFound,
            ),
        },
    }
}

/// The most recent events.
pub struct LocalEventLog {
    entries: VecDeque<CoreEventEnvelope<CoreEvent>>,
    max_entries: usize,
}

impl LocalEventLog {
    pub const DEFAULT_MAX_ENTRIES: usize = 256;

    /// The events on record, the oldest first.
    pub closed spec fn spec_entries(&self) -> Seq<CoreEventEnvelope<CoreEvent>> {
        self.entries@
    }

    /// How many events are kept.
    pub closed spec fn spec_max_entries(&self) -> usize {
        self.max_entries
    }

    /// Whether the record holds no more events than it keeps; one that keeps
    /// none holds the latest.
    pub open spec fn bounded(&self) -> bool {
        self.spec_entries().len() <= self.spec_max_entries() || self.spec_entries().len() <= 1
    }

    pub fn new(max_entries: usize) -> (log: Self)
        ensures
            log.spec_entries().len() == 0,
            log.spec_max_entries() == max_entries,
            log.bounded(),
    {
        LocalEventLog { entries: VecDeque::new(), max_entries }
    }

    /// Copies of the events from position `from` on.
    fn copy_from(&self, from: usize) -> (events: Vec<CoreEventEnvelope<CoreEvent>>)
        requires
            from <= self.spec_entries().len(),
        ensures
            same_events(events@, self.spec_entries().skip(from as int)),
    {
        let mut events: Vec<CoreEventEnvelope<CoreEvent>> = Vec::new();
        let mut i: usize = from;
        while i < self.entries.len()
            invariant
                from <= i <= self.entries@.len(),
                events@.len() == i - from,
                forall|k: int|
                    0 <= k < events@.len() ==> crate::models::same_envelope(
                        #[trigger] events@[k],
                        self.entries@[from + k],
                    ),
            decreases self.entries@.len() - i,
        {
            events.push(self.entries[i].clone());
            i += 1;
        }
        proof {
            let rest = self.spec_entries().skip(from as int);
            assert forall|k: int| 0 <= k < events@.len() implies crate::models::same_envelope(
                #[trigger] events@[k],
                #[trigger] rest[k],
            ) by {
                assert(rest[k] == self.entries@[from + k]);
            }
        }
        events
    }

    /// All events on record.
    pub fn snapshot(&self) -> (events: Vec<CoreEventEnvelope<CoreEvent>>)
        ensures
            same_events(events@, self.spec_entries()),
    {
        assert(self.spec_entries().skip(0) =~= self.spec_entries());
        self.copy_from(0)
    }

    /// Puts an event on record.
    pub fn push(&mut self, event: CoreEventEnvelope<CoreEvent>)
        ensures
            final(self).spec_entries() == logged(
                old(self).spec_entries(),
                old(self).spec_max_entries(),
                event,
            ),
            final(self).spec_max_entries() == old(self).spec_max_entries(),
            old(self).bounded() ==> final(self).bounded(),
    {
        if self.entries.len() >= self.max_entries {
            let _oldest = self.entries.pop_front();
        }
        self.entries.push_back(event);
    }

    /// The id of the latest event.
    pub fn latest_event_id(&self) -> (id: Option<String>)
        ensures
            id == if self.spec_entries().len() > 0 {
                Some(self.spec_entries().last().event_id)
            } else {
                None
            },
    {
        let len = self.entries.len();
        if len > 0 {
            Some(self.entries[len - 1].event_id.clone())
        } else {
            None
        }
    }

    /// The events behind the one with the given id; none without an id. An id
    /// that is not on record is refused.
    pub fn events_after(&self, event_id: Option<&str>) -> (events: Result<
        Vec<CoreEventEnvelope<CoreEvent>>,
        EventCursorError,
    >)
        ensures
            replays(
                self.spec_entries(),
                match event_id {
                    Some(id) => Some(id@),
                    None => None,
                },
                events,
            ),
    {
        let id = match event_id {
            Some(id) => id,
            None => return Ok(Vec::new()),
        };
        let mut i: usize = 0;
        while i < self.entries.len()
            invariant
                i <= self.entries@.len(),
                event_id == Some(id),
                forall|j: int| 0 <= j < i ==> (#[trigger] self.entries@[j]).event_id@ != id@,
            decreases self.entries@.len() - i,
        {
            if crate::text::str_eq(self.entries[i].event_id.as_str(), id) {
                proof {
                    lemma_cursor_index_is(self.entries@, id@, i as int);
                }
                return Ok(self.copy_from(i + 1));
            }
            i += 1;
        }
        proof {
            lemma_cursor_index(self.entries@, id@);
        }
        Err(EventCursorError::CursorNotFound)
    }

    pub fn len(&self) -> (len: usize)
        ensures
            len == self.spec_entries().len(),
    {
        self.entries.len()
    }

    pub fn is_empty(&self) -> (empty: bool)
        ensures
            empty == (self.spec_entries().len() == 0),
    {
        self.entries.len() == 0
    }
}

impl Default for LocalEventLog {
    fn default() -> (log: Self)
        ensures
            log.spec_entries().len() == 0,
            log.spec_max_entries() == LocalEventLog::DEFAULT_MAX_ENTRIES,
            log.bounded(),
    {
        LocalEventLog::new(LocalEventLog::DEFAULT_MAX_ENTRIES)
    }
}

/// A publisher that only puts events on record.
pub struct LocalEventPublisher {
    log: LocalEventLog,
}

impl LocalEventPublisher {
    /// The record.
    pub closed spec fn spec_log(&self) -> LocalEventLog {
        self.log
    }

    pub fn new(log: LocalEventLog) -> (publisher: Self)
        ensures
            publisher.spec_log() == log,
    {
        LocalEventPublisher { log }
    }

    pub fn log(&self) -> (log: &LocalEventLog)
        ensures
            *log == self.spec_log(),
    {
        &self.log
    }
}

impl EventPublisherPort for LocalEventPublisher {
    /// The publisher accepts every event and puts it on record.
    open spec fn publishes(
        before: Self,
        event: CoreEventEnvelope<CoreEvent>,
        after: Self,
        reply: Result<(), PortError>,
    ) -> bool {
        &&& reply is Ok
        &&& after.spec_log().spec_max_entries() == before.spec_log().spec_max_entries()
        &&& after.spec_log().spec_entries() == logged(
            before.spec_log().spec_entries(),
            before.spec_log().spec_max_entries(),
            event,
        )
    }

    fn publish(&mut self, event: CoreEventEnvelope<CoreEvent>) -> (reply: Result<(), PortError>) {
        self.log.push(event);
        Ok(())
    }
}

/// A new event is the latest on record, behind the others in their order; the
/// oldest one leaves exactly where the record was full.
pub proof fn a_new_event_is_the_latest(
    entries: Seq<CoreEventEnvelope<CoreEvent>>,
    max_entries: usize,
    event: CoreEventEnvelope<CoreEvent>,
)
    ensures
        ({
            let after = logged(entries, max_entries, event);
            &&& after.last() == event
            &&& entries.len() < max_entries ==> after.drop_last() == entries
            &&& entries.len() >= max_entries && entries.len() > 0 ==> after.len() == entries.len()
                && forall|i: int| 0 < i < entries.len() ==> after[i - 1] == #[trigger] entries[i]
            &&& entries.len() == 0 ==> after.len() == 1
        }),
{
    let after = logged(entries, max_entries, event);
    if entries.len() < max_entries {
        assert(after.drop_last() =~= entries);
    }
}

/// A subscriber that has seen an event on record gets the ones behind it, all of
/// them and in their order; one that has seen an event that is not on record is
/// refused, and one that has seen none gets none.
pub proof fn a_subscriber_gets_what_it_has_not_seen(
    before: Seq<CoreEventEnvelope<CoreEvent>>,
    seen: CoreEventEnvelope<CoreEvent>,
    behind: Seq<CoreEventEnvelope<CoreEvent>>,
    id: Seq<char>,
    events: Result<Vec<CoreEventEnvelope<CoreEvent>>, EventCursorError>,
)
    requires
        forall|i: int| 0 <= i < before.len() ==> (#[trigger] before[i]).event_id@ != id,
    ensures
        seen.event_id@ == id && replays(before.push(seen) + behind, Some(id), events) ==> (
        events matches Ok(replay) && replay@.len() == behind.len() && forall|i: int|
            0 <= i < behind.len() ==> crate::models::same_envelope(
                #[trigger] replay@[i],
                behind[i],
            )),
        replays(before, Some(id), events) ==> events is Err,
        replays(before, None, events) ==> (events matches Ok(replay) && replay@.len() == 0),
{
    let entries = before.push(seen) + behind;
    let at = before.len() as int;
    assert(entries[at] == seen);
    assert forall|j: int| 0 <= j < at implies (#[trigger] entries[j]).event_id@ != id by {
        assert(entries[j] == before[j]);
    }
    if seen.event_id@ == id {
        lemma_cursor_index_is(entries, id, at);
        assert(entries.skip(at + 1) =~= behind);
    }
    lemma_cursor_index(before, id);
    if let Some(i) = cursor_index(before, id) {
        assert(before[i].event_id@ != id);
    }
}

/// Nothing is left to replay behind the latest event, where no earlier event
/// has its id.
pub proof fn nothing_is_behind_the_latest(entries: Seq<CoreEventEnvelope<CoreEvent>>)
    requires
        entries.len() > 0,
        forall|j: int|
            0 <= j < entries.len() - 1 ==> (#[trigger] entries[j]).event_id@
                != entries.last().event_id@,
    ensures
        events_behind(entries, entries.last().event_id@) == Some(
            Seq::<CoreEventEnvelope<CoreEvent>>::empty(),
        ),
{
    lemma_cursor_index_is(entries, entries.last().event_id@, entries.len() - 1);
    assert(entries.skip(entries.len() as int) =~= Seq::<CoreEventEnvelope<CoreEvent>>::empty());
}

/// A subscriber that keeps its cursor misses nothing: as long as the cursor is
/// still on record after one more event, the replay is the one from before and
/// the new event.
pub proof fn a_replay_misses_nothing(
    entries: Seq<CoreEventEnvelope<CoreEvent>>,
    max_entries: usize,
    event: CoreEventEnvelope<CoreEvent>,
    cursor: Seq<char>,
)
    requires
        cursor_index(entries, cursor) is Some,
        cursor_index(entries, cursor)->0 > 0 || entries.len() < max_entries,
    ensures
        events_behind(logged(entries, max_entries, event), cursor) == Some(
            events_behind(entries, cursor)->0.push(event),
        ),
{
    lemma_cursor_index(entries, cursor);
    let i = cursor_index(entries, cursor)->0;
    let after = logged(entries, max_entries, event);
    let k = if entries.len() >= max_entries && entries.len() > 0 {
        i - 1
    } else {
        i
    };
    assert(after[k] == entries[i]);
    assert forall|j: int| 0 <= j < k implies (#[trigger] after[j]).event_id@ != cursor by {
        assert(after[j] == entries[j + (i - k)]);
    }
    lemma_cursor_index_is(after, cursor, k);
    assert(after.skip(k + 1) =~= entries.skip(i + 1).push(event));
}

/// A published event is taken and is the latest on record.
pub proof fn a_published_event_is_on_record(
    before: LocalEventPublisher,
    event: CoreEventEnvelope<CoreEvent>,
    after: LocalEventPublisher,
    reply: Result<(), PortError>,
)
    requires
        <LocalEventPublisher as EventPublisherPort>::publishes(before, event, after, reply),
    ensures
        reply is Ok,
        after.spec_log().spec_entries().last() == event,
        before.spec_log().spec_entries().len() < before.spec_log().spec_max_entries()
            ==> after.spec_log().spec_entries().drop_last() == before.spec_log().spec_entries(),
        after.spec_log().spec_max_entries() == before.spec_log().spec_max_entries(),
{
    a_new_event_is_the_latest(
        before.spec_log().spec_entries(),
        before.spec_log().spec_max_entries(),
        event,
    );
}

} // verus!
