//! Identifiers for local runs: a prefix that tells the kind, and a count.

use vstd::prelude::*;

use crate::ports::{IdGeneratorPort, IdKind};

verus! {

/// The prefix of identifiers of a kind.
pub open spec fn id_prefix(kind: IdKind) -> Seq<char> {
    match kind {
        IdKind::Command => "cmd"@,
        IdKind::Event => "evt"@,
        IdKind::Snapshot => "snap"@,
        IdKind::PlaybackSession => "playback_session"@,
        IdKind::QueueItem => "queue_item"@,
        IdKind::SearchJob => "job"@,
    }
}

/// The identifier of a kind with a number.
pub open spec fn numbered_id(kind: IdKind, number: nat) -> Seq<char> {
    id_prefix(kind) + "_"@ + crate::text::zero_padded(crate::text::decimal(number), 4)
}

/// A generator that counts.
#[derive(Debug, PartialEq, Eq)]
pub struct LocalIdGenerator {
    next: u64,
}

impl LocalIdGenerator {
    /// How many identifiers were handed out.
    pub closed spec fn count(&self) -> u64 {
        self.next
    }

    pub fn new() -> (ids: Self)
        ensures
            ids.count() == 0,
    {
        LocalIdGenerator { next: 0 }
    }
}

impl Default for LocalIdGenerator {
    fn default() -> (ids: Self)
        ensures
            ids.count() == 0,
    {
        LocalIdGenerator::new()
    }
}

impl IdGeneratorPort for LocalIdGenerator {
    /// The count goes up by one and numbers the identifier. At the end of its
    /// range it starts again.
    open spec fn issues(before: Self, kind: IdKind, after: Self, id: String) -> bool {
        &&& after.count() == if before.count() == u64::MAX {
            0
        } else {
            before.count() + 1
        }
        &&& id@ == numbered_id(kind, after.count() as nat)
    }

    fn next_id(&mut self, kind: IdKind) -> (id: String) {
        self.next = self.next.wrapping_add(1);
        let prefix = match kind {
            IdKind::Command => "cmd",
            IdKind::Event => "evt",
            IdKind::Snapshot => "snap",
            IdKind::PlaybackSession => "playback_session",
            IdKind::QueueItem => "queue_item",
            IdKind::SearchJob => "job",
        };
        let number = crate::text::format_padded(self.next, 4);
        let mut id = prefix.to_owned();
        id.append("_");
        id.append(number.as_str());
        id
    }
}

/// Identifiers of one kind with different numbers differ.
pub proof fn numbered_ids_differ(kind: IdKind, n: nat, m: nat)
    requires
        n != m,
    ensures
        numbered_id(kind, n) != numbered_id(kind, m),
{
    let lead = id_prefix(kind) + "_"@;
    let a = crate::text::zero_padded(crate::text::decimal(n), 4);
    let b = crate::text::zero_padded(crate::text::decimal(m), 4);
    crate::text::notations_differ(n, m, 4);
    assert((lead + a).skip(lead.len() as int) =~= a);
    assert((lead + b).skip(lead.len() as int) =~= b);
}

} // verus!
