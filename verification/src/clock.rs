//! A clock for local runs: every reading is one second later than the one
//! before, within one fixed minute.

use std::sync::atomic::{AtomicU64, Ordering};
use std::sync::Arc;

use vstd::prelude::*;

use crate::ports::ClockPort;

verus! {

/// The reading of the clock at a second of its minute.
pub open spec fn reading(second: nat) -> Seq<char> {
    "2026-04-23T12:34:"@ + crate::text::zero_padded(crate::text::decimal(second), 2) + "Z"@
}

/// The reading for a count of ticks.
pub fn reading_at(tick: u64) -> (now: String)
    ensures
        now@ == reading((tick % 60) as nat),
{
    let mut now = "2026-04-23T12:34:".to_owned();
    let second = crate::text::format_padded(tick % 60, 2);
    now.append(second.as_str());
    now.append("Z");
    now
}

/// A clock whose copies share their count of ticks.
#[derive(Debug, Clone)]
pub struct LocalClock {
    tick: Arc<AtomicU64>,
}

impl LocalClock {
    /// A clock that has not ticked yet. Its count lies in an atomic that copies of
    /// the clock share, and is no part of the clock's value: nothing is stated of it.
    pub fn new() -> (clock: Self) {
        LocalClock { tick: Arc::new(AtomicU64::new(0)) }
    }

    /// Counts one tick and returns the count from before it. Any copy of the clock
    /// may have ticked in between, so every count can come back.
    fn count_tick(&self) -> (tick: u64) {
        self.tick.fetch_add(1, Ordering::Relaxed)
    }
}

impl Default for LocalClock {
    fn default() -> (clock: Self) {
        LocalClock::new()
    }
}

impl ClockPort for LocalClock {
    /// A reading is some second of the minute; which one depends on the readings
    /// of all copies of the clock.
    open spec fn tells(&self, now: String) -> bool {
        exists|second: nat| second < 60 && now@ == #[trigger] reading(second)
    }

    fn now(&self) -> (now: String) {
        let tick = self.count_tick();
        let now = reading_at(tick);
        assert(now@ == reading((tick % 60) as nat));
        now
    }
}

} // verus!
