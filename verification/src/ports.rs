//! The ports through which the core reaches the world around it, and the
//! record of what was said through them.
//!
//! A port is implemented by the embedding program. Each port trait names a
//! relation between the port before a call, the call, the port after it and the
//! reply; an implementation picks the relation that describes it, or leaves the
//! one that always holds. The core promises which calls it makes, in which
//! order, and what it does with each reply.

use vstd::prelude::*;

use crate::domain::QueueItem;
use crate::models::{CoreEvent, CoreEventEnvelope, CoreId, CoreTimestamp};

verus! {

#[derive(Debug, Clone, Copy, PartialEq, Eq, Structural)]
pub enum IdKind {
    Command,
    Event,
    Snapshot,
    PlaybackSession,
    QueueItem,
    SearchJob,
}

/// A failure reported by a port.
#[derive(Debug, PartialEq, Eq)]
pub struct PortError {
    code: String,
    message: String,
}

impl PortError {
    /// The code and the message.
    pub closed spec fn spec_parts(&self) -> (String, String) {
        (self.code, self.message)
    }

    /// The machine-readable code.
    pub open spec fn spec_code(&self) -> Seq<char> {
        self.spec_parts().0@
    }

    /// The message for people.
    pub open spec fn spec_message(&self) -> Seq<char> {
        self.spec_parts().1@
    }

    pub fn new(code: &str, message: &str) -> (error: Self)
        ensures
            error.spec_code() == code@,
            error.spec_message() == message@,
    {
        PortError { code: code.to_owned(), message: message.to_owned() }
    }

    pub fn code(&self) -> (code: &str)
        ensures
            code@ == self.spec_code(),
    {
        self.code.as_str()
    }

    pub fn message(&self) -> (message: &str)
        ensures
            message@ == self.spec_message(),
    {
        self.message.as_str()
    }

    /// The code and the message, taken out of the error.
    pub fn into_parts(self) -> (parts: (String, String))
        ensures
            parts == self.spec_parts(),
    {
        (self.code, self.message)
    }

    /// The error on one line: the code, a colon and the message.
    pub fn describe(&self) -> (text: String)
        ensures
            text@ == self.spec_code() + ": "@ + self.spec_message(),
    {
        let mut text = self.code.clone();
        text.append(": ");
        text.append(self.message.as_str());
        text
    }
}

impl Clone for PortError {
    fn clone(&self) -> (copy: Self)
        ensures
            copy == *self,
    {
        PortError { code: self.code.clone(), message: self.message.clone() }
    }
}

/// Tells the time.
pub trait ClockPort: Sized {
    /// Whether the clock may answer `now`.
    open spec fn tells(&self, now: CoreTimestamp) -> bool {
        true
    }

    fn now(&self) -> (now: CoreTimestamp)
        ensures
            self.tells(now),
    ;
}

/// Hands out identifiers.
pub trait IdGeneratorPort: Sized {
    /// Whether the generator may go from `before` to `after` handing out `id`.
    open spec fn issues(before: Self, kind: IdKind, after: Self, id: CoreId) -> bool {
        true
    }

    fn next_id(&mut self, kind: IdKind) -> (id: CoreId)
        ensures
            Self::issues(*old(self), kind, *final(self), id),
    ;
}

/// Delivers events to subscribers.
pub trait EventPublisherPort: Sized {
    /// Whether the publisher may go from `before` to `after` on `event`, replying `reply`.
    open spec fn publishes(
        before: Self,
        event: CoreEventEnvelope<CoreEvent>,
        after: Self,
        reply: Result<(), PortError>,
    ) -> bool {
        true
    }

    fn publish(&mut self, event: CoreEventEnvelope<CoreEvent>) -> (reply: Result<(), PortError>)
        ensures
            Self::publishes(*old(self), event, *final(self), reply),
    ;
}

/// A call of the playback port.
pub enum PlaybackCall {
    Start { item: QueueItem, playback_session_id: Seq<char>, position_ms: u64 },
    SetVolume { volume_percent: u8 },
    Pause,
    Resume,
    Stop,
    Seek { position_ms: u64 },
}

/// Plays queue items.
pub trait PlaybackPort: Sized {
    /// Whether the player may go from `before` to `after` on `call`, replying `reply`.
    open spec fn performs(
        before: Self,
        call: PlaybackCall,
        after: Self,
        reply: Result<(), PortError>,
    ) -> bool {
        true
    }

    /// Starts an item in a playback session of its own.
    fn start(&mut self, item: &QueueItem, playback_session_id: &str, position_ms: u64) -> (reply:
        Result<(), PortError>)
        ensures
            Self::performs(
                *old(self),
                (PlaybackCall::Start {
                    item: *item,
                    playback_session_id: playback_session_id@,
                    position_ms,
                }),
                *final(self),
                reply,
            ),
    ;

    fn set_volume(&mut self, volume_percent: u8) -> (reply: Result<(), PortError>)
        ensures
            Self::performs(
                *old(self),
                (PlaybackCall::SetVolume { volume_percent }),
                *final(self),
                reply,
            ),
    ;

    fn pause(&mut self) -> (reply: Result<(), PortError>)
        ensures
            Self::performs(*old(self), PlaybackCall::Pause, *final(self), reply),
    ;

    fn resume(&mut self) -> (reply: Result<(), PortError>)
        ensures
            Self::performs(*old(self), PlaybackCall::Resume, *final(self), reply),
    ;

    fn stop(&mut self) -> (reply: Result<(), PortError>)
        ensures
            Self::performs(*old(self), PlaybackCall::Stop, *final(self), reply),
    ;

    fn seek(&mut self, position_ms: u64) -> (reply: Result<(), PortError>)
        ensures
            Self::performs(
                *old(self),
                (PlaybackCall::Seek { position_ms }),
                *final(self),
                reply,
            ),
    ;
}

/// Runs searches and imports.
pub trait SearchPort: Sized {
    /// Whether the searcher may go from `before` to `after` when asked to search, replying `reply`.
    open spec fn searches(
        before: Self,
        job_id: Seq<char>,
        query: Seq<char>,
        after: Self,
        reply: Result<(), PortError>,
    ) -> bool {
        true
    }

    fn start_search(&mut self, job_id: &str, query: &str) -> (reply: Result<(), PortError>)
        ensures
            Self::searches(*old(self), job_id@, query@, *final(self), reply),
    ;

    /// Whether the searcher may go from `before` to `after` when asked to import, replying `reply`.
    open spec fn imports(
        before: Self,
        job_id: Seq<char>,
        url: Seq<char>,
        after: Self,
        reply: Result<(), PortError>,
    ) -> bool {
        true
    }

    fn start_youtube_import(&mut self, job_id: &str, url: &str) -> (reply: Result<(), PortError>)
        ensures
            Self::imports(*old(self), job_id@, url@, *final(self), reply),
    ;
}

// ---------------------------------------------------------------------------
// The record of port calls
// ---------------------------------------------------------------------------

/// One port call together with what came back.
pub enum PortStep {
    NewId { kind: IdKind, id: CoreId },
    ReadClock { now: CoreTimestamp },
    Publish { envelope: CoreEventEnvelope<CoreEvent>, reply: Result<(), PortError> },
    Playback { call: PlaybackCall, reply: Result<(), PortError> },
    Search { job_id: Seq<char>, query: Seq<char>, reply: Result<(), PortError> },
    Import { job_id: Seq<char>, url: Seq<char>, reply: Result<(), PortError> },
}

/// The ports of a core at one moment.
#[verifier::reject_recursive_types(C)]
#[verifier::reject_recursive_types(I)]
#[verifier::reject_recursive_types(E)]
#[verifier::reject_recursive_types(P)]
#[verifier::reject_recursive_types(S)]
pub struct Ports<C, I, E, P, S> {
    pub clock: C,
    pub ids: I,
    pub events: E,
    pub playback: P,
    pub search: S,
}

impl<C, I, E, P, S> Ports<C, I, E, P, S> where
    C: ClockPort,
    I: IdGeneratorPort,
    E: EventPublisherPort,
    P: PlaybackPort,
    S: SearchPort,
 {
    /// Whether one call takes the ports from `self` to `after`.
    pub open spec fn takes(self, step: PortStep, after: Self) -> bool {
        match step {
            PortStep::NewId { kind, id } => I::issues(self.ids, kind, after.ids, id) && after
                == (Ports { ids: after.ids, ..self }),
            PortStep::ReadClock { now } => self.clock.tells(now) && after == self,
            PortStep::Publish { envelope, reply } => E::publishes(
                self.events,
                envelope,
                after.events,
                reply,
            ) && after == (Ports { events: after.events, ..self }),
            PortStep::Playback { call, reply } => P::performs(
                self.playback,
                call,
                after.playback,
                reply,
            ) && after == (Ports { playback: after.playback, ..self }),
            PortStep::Search { job_id, query, reply } => S::searches(
                self.search,
                job_id,
                query,
                after.search,
                reply,
            ) && after == (Ports { search: after.search, ..self }),
            PortStep::Import { job_id, url, reply } => S::imports(
                self.search,
                job_id,
                url,
                after.search,
                reply,
            ) && after == (Ports { search: after.search, ..self }),
        }
    }

    /// Whether `states` are the ports before, between and after the calls `steps`.
    pub open spec fn passes(self, steps: Seq<PortStep>, after: Self, states: Seq<Self>) -> bool {
        &&& states.len() == steps.len() + 1
        &&& states[0] == self
        &&& states[steps.len() as int] == after
        &&& forall|i: int| 0 <= i < steps.len() ==> #[trigger] states[i].takes(steps[i], states[i + 1])
    }

    /// Whether the calls `steps`, in this order, take the ports from `self` to `after`.
    pub open spec fn runs(self, steps: Seq<PortStep>, after: Self) -> bool {
        exists|states: Seq<Self>| self.passes(steps, after, states)
    }

    pub proof fn lemma_runs_nothing(self)
        ensures
            self.runs(Seq::empty(), self),
    {
        assert(self.passes(Seq::empty(), self, seq![self]));
    }

    pub proof fn lemma_runs_step(self, step: PortStep, after: Self)
        requires
            self.takes(step, after),
        ensures
            self.runs(seq![step], after),
    {
        assert(self.passes(seq![step], after, seq![self, after]));
    }

    pub proof fn lemma_runs_on(
        self,
        first: Seq<PortStep>,
        between: Self,
        second: Seq<PortStep>,
        after: Self,
    )
        requires
            self.runs(first, between),
            between.runs(second, after),
        ensures
            self.runs(first + second, after),
    {
        let s1 = choose|states: Seq<Self>| self.passes(first, between, states);
        let s2 = choose|states: Seq<Self>| between.passes(second, after, states);
        let steps = first + second;
        let states = s1 + s2.drop_first();
        assert forall|i: int| 0 <= i < steps.len() implies #[trigger] states[i].takes(
            steps[i],
            states[i + 1],
        ) by {
            let n = first.len() as int;
            if i < n {
                assert(s1[i].takes(first[i], s1[i + 1]));
            } else {
                let k = i - n;
                assert(s2[k].takes(second[k], s2[k + 1]));
                if k == 0 {
                    assert(states[i] == s1[n]);
                } else {
                    assert(states[i] == s2[k]);
                }
                assert(states[i + 1] == s2[k + 1]);
            }
        }
        assert(self.passes(steps, after, states));
    }
}

} // verus!
