//! The orchestrator: it turns commands into calls of the ports, keeps the state
//! of the player and announces every change.

use vstd::prelude::*;

use crate::core_state::CoreStateView;
use crate::domain::{
    clone_items, AudioSettings, PlaybackState, PlaybackStatus, QueueItem, QueueItemStatus, Song,
};
use crate::models::{
    clone_imports, clone_jobs, BackendState, CommandReceipt, CoreEvent, CoreEventEnvelope, CoreEventKind,
    CoreEventView, CoreSnapshot, PlaybackPositionUpdatedEvent, PlaybackProgressEvent, PlaybackStateChangedEvent,
    PlaybackTrackChangedEvent, QueueUpdateReason, QueueUpdatedEvent, SearchJobCompletedEvent,
    SearchJobFailedEvent, SearchJobRecord, SearchJobStatus, SearchResultsRecord, StateUpdatedEvent, SystemErrorEvent,
    SystemErrorSeverity, YoutubeImportCompletedEvent, YoutubeImportFailedEvent,
    YoutubeImportJobRecord, YoutubeImportJobStatus,
};
use crate::ports::{
    ClockPort, EventPublisherPort, IdGeneratorPort, IdKind, PlaybackCall, PlaybackPort, PortError,
    PortStep, Ports, SearchPort,
};
use crate::text_map::TextMap;

verus! {

// ---------------------------------------------------------------------------
// Errors
// ---------------------------------------------------------------------------

/// Why a command was refused.
#[derive(Debug, PartialEq, Eq)]
#[allow(inconsistent_fields)]
pub enum CoreError {
    Validation { code: &'static str, message: String },
    NotFound { kind: &'static str, id: String },
    Conflict { code: &'static str, message: String },
    Port { code: String, message: String },
}

/// The contents of a [`CoreError`].
pub enum CoreErrorView {
    Validation { code: Seq<char>, message: Seq<char> },
    NotFound { kind: Seq<char>, id: Seq<char> },
    Conflict { code: Seq<char>, message: Seq<char> },
    Port { code: Seq<char>, message: Seq<char> },
}

impl View for CoreError {
    type V = CoreErrorView;

    open spec fn view(&self) -> CoreErrorView {
        match *self {
            CoreError::Validation { code, message } => CoreErrorView::Validation {
                code: code@,
                message: message@,
            },
            CoreError::NotFound { kind, id } => CoreErrorView::NotFound { kind: kind@, id: id@ },
            CoreError::Conflict { code, message } => CoreErrorView::Conflict {
                code: code@,
                message: message@,
            },
            CoreError::Port { code, message } => CoreErrorView::Port {
                code: code@,
                message: message@,
            },
        }
    }
}

/// A conflict, written down.
pub open spec fn conflict_view(code: &str, message: &str) -> CoreErrorView {
    CoreErrorView::Conflict { code: code@, message: message@ }
}

/// A failed validation, written down.
pub open spec fn validation_view(code: &str, message: &str) -> CoreErrorView {
    CoreErrorView::Validation { code: code@, message: message@ }
}

/// What the core makes of a failure of a port.
pub open spec fn port_view(error: PortError) -> CoreErrorView {
    CoreErrorView::Port { code: error.spec_code(), message: error.spec_message() }
}

/// The contents of the failure that a result holds, if it holds one.
pub open spec fn failure<T>(result: Result<T, CoreError>) -> Option<CoreErrorView> {
    match result {
        Ok(_) => None,
        Err(error) => Some(error@),
    }
}

/// An error on one line.
pub open spec fn error_line(error: CoreErrorView) -> Seq<char> {
    match error {
        CoreErrorView::Validation { code, message } => "validation error ("@ + code + "): "@
            + message,
        CoreErrorView::NotFound { kind, id } => kind + " not found: "@ + id,
        CoreErrorView::Conflict { code, message } => "conflict ("@ + code + "): "@ + message,
        CoreErrorView::Port { code, message } => "port error ("@ + code + "): "@ + message,
    }
}

/// Whether a result is a failure with the given contents.
pub open spec fn fails_with<T>(result: Result<T, CoreError>, error: CoreErrorView) -> bool {
    failure(result) == Some(error)
}

impl CoreError {
    pub fn validation(code: &'static str, message: &str) -> (error: Self)
        ensures
            error@ == validation_view(code, message),
    {
        CoreError::Validation { code, message: message.to_owned() }
    }

    pub fn conflict(code: &'static str, message: &str) -> (error: Self)
        ensures
            error@ == conflict_view(code, message),
    {
        CoreError::Conflict { code, message: message.to_owned() }
    }

    pub fn not_found(kind: &'static str, id: &str) -> (error: Self)
        ensures
            error@ == (CoreErrorView::NotFound { kind: kind@, id: id@ }),
    {
        CoreError::NotFound { kind, id: id.to_owned() }
    }

    /// The error on one line.
    pub fn describe(&self) -> (text: String)
        ensures
            text@ == error_line(self@),
    {
        match self {
            CoreError::Validation { code, message } => {
                let mut text = "validation error (".to_owned();
                text.append(code);
                text.append("): ");
                text.append(message.as_str());
                text
            },
            CoreError::NotFound { kind, id } => {
                let mut text = (*kind).to_owned();
                text.append(" not found: ");
                text.append(id.as_str());
                text
            },
            CoreError::Conflict { code, message } => {
                let mut text = "conflict (".to_owned();
                text.append(code);
                text.append("): ");
                text.append(message.as_str());
                text
            },
            CoreError::Port { code, message } => {
                let mut text = "port error (".to_owned();
                text.append(code.as_str());
                text.append("): ");
                text.append(message.as_str());
                text
            },
        }
    }
}

impl From<PortError> for CoreError {
    fn from(error: PortError) -> (core: CoreError) {
        let (code, message) = error.into_parts();
        CoreError::Port { code, message }
    }
}

impl vstd::std_specs::convert::FromSpecImpl<PortError> for CoreError {
    open spec fn obeys_from_spec() -> bool {
        true
    }

    /// The failure under its own code and message.
    open spec fn from_spec(error: PortError) -> CoreError {
        CoreError::Port { code: error.spec_parts().0, message: error.spec_parts().1 }
    }
}

// ---------------------------------------------------------------------------
// What is said through the ports
// ---------------------------------------------------------------------------

/// The three calls that publish `event`: an id, the time, and the envelope.
pub open spec fn publication(steps: Seq<PortStep>, event: CoreEventView) -> bool {
    &&& steps.len() == 3
    &&& steps[0] matches PortStep::NewId { kind, id }
    &&& steps[1] matches PortStep::ReadClock { now }
    &&& steps[2] matches PortStep::Publish { envelope, reply }
    &&& kind == IdKind::Event
    &&& envelope.event_id == id
    &&& envelope.event@ == event.kind().spec_name()
    &&& envelope.timestamp == now
    &&& envelope.data@ == event
}

/// The calls that publish `events` one after another, up to the first that the
/// publisher refuses; `failure` is what became of that refusal.
pub open spec fn reports(
    steps: Seq<PortStep>,
    events: Seq<CoreEventView>,
    failure: Option<CoreErrorView>,
) -> bool
    decreases events.len(),
{
    if events.len() == 0 {
        steps.len() == 0 && failure is None
    } else {
        &&& steps.len() >= 3
        &&& publication(steps.take(3), events[0])
        &&& match steps[2]->Publish_reply {
            Err(error) => steps.len() == 3 && failure == Some(port_view(error)),
            Ok(_) => reports(steps.skip(3), events.drop_first(), failure),
        }
    }
}

/// The two calls that make a receipt, and the receipt.
pub open spec fn receives(
    steps: Seq<PortStep>,
    job_id: Option<String>,
    queue_item_id: Option<String>,
    receipt: CommandReceipt,
) -> bool {
    &&& steps == seq![
        PortStep::NewId { kind: IdKind::Command, id: receipt.command_id },
        PortStep::ReadClock { now: receipt.accepted_at },
    ]
    &&& receipt.job_id == job_id
    &&& receipt.queue_item_id == queue_item_id
}

/// The calls that publish `events` and then make a receipt.
pub open spec fn answers(
    steps: Seq<PortStep>,
    events: Seq<CoreEventView>,
    job_id: Option<String>,
    result: Result<CommandReceipt, CoreError>,
) -> bool {
    match result {
        Err(error) => reports(steps, events, Some(error@)),
        Ok(receipt) => {
            &&& steps.len() >= 2
            &&& reports(steps.take(steps.len() - 2), events, None)
            &&& receives(steps.skip(steps.len() - 2), job_id, None, receipt)
        },
    }
}

/// Telling of the whole state, as it is shown under a new id.
pub open spec fn tells_state(
    steps: Seq<PortStep>,
    state: CoreStateView,
    failure: Option<CoreErrorView>,
) -> bool {
    &&& steps.len() >= 2
    &&& steps[0] matches PortStep::NewId { kind, id }
    &&& steps[1] matches PortStep::ReadClock { now }
    &&& kind == IdKind::Snapshot
    &&& reports(
        steps.skip(2),
        seq![CoreEventView::StateUpdated(state.shown(id, now))],
        failure,
    )
}

/// Telling of a change: its events one after another, and then the whole state
/// that it has led to, up to the first refusal.
pub open spec fn tells_change(
    steps: Seq<PortStep>,
    events: Seq<CoreEventView>,
    state: CoreStateView,
    failure: Option<CoreErrorView>,
) -> bool {
    let n = 3 * events.len() as int;
    ||| failure is Some && reports(steps, events, failure)
    ||| {
        &&& steps.len() >= n
        &&& reports(steps.take(n), events, None)
        &&& tells_state(steps.skip(n), state, failure)
    }
}

/// The calls that tell of a change and then make a receipt.
pub open spec fn answers_change(
    steps: Seq<PortStep>,
    events: Seq<CoreEventView>,
    state: CoreStateView,
    queue_item_id: Option<String>,
    result: Result<CommandReceipt, CoreError>,
) -> bool {
    match result {
        Err(error) => tells_change(steps, events, state, Some(error@)),
        Ok(receipt) => {
            &&& steps.len() >= 2
            &&& tells_change(steps.take(steps.len() - 2), events, state, None)
            &&& receives(steps.skip(steps.len() - 2), None, queue_item_id, receipt)
        },
    }
}

/// A command of the player: the call; where the player refuses it, the state
/// `refused` and its failure; else the state `done`, its events and a receipt.
pub open spec fn commands(
    steps: Seq<PortStep>,
    call: PlaybackCall,
    refused: CoreStateView,
    done: CoreStateView,
    events: Seq<CoreEventView>,
    after: CoreStateView,
    result: Result<CommandReceipt, CoreError>,
) -> bool {
    &&& steps.len() >= 1
    &&& steps[0] matches PortStep::Playback { call: made, reply }
    &&& made == call
    &&& match reply {
        Err(error) => steps.len() == 1 && after == refused && fails_with(result, port_view(error)),
        Ok(_) => after == done && answers_change(steps.skip(1), events, after, None, result),
    }
}

/// A refused command: nothing is said to any port and nothing changes.
pub open spec fn declines<T>(
    before: CoreStateView,
    steps: Seq<PortStep>,
    after: CoreStateView,
    result: Result<T, CoreError>,
    error: CoreErrorView,
) -> bool {
    steps.len() == 0 && after == before && fails_with(result, error)
}

/// Starting the item at `index`, in a session of its own.
pub open spec fn starts(
    before: CoreStateView,
    index: int,
    position_ms: u64,
    steps: Seq<PortStep>,
    after: CoreStateView,
    failure: Option<CoreErrorView>,
) -> bool {
    &&& steps.len() >= 2
    &&& steps[0] matches PortStep::NewId { kind, id: session }
    &&& steps[1] matches PortStep::Playback { call, reply }
    &&& kind == IdKind::PlaybackSession
    &&& call == (PlaybackCall::Start {
        item: before.queue[index],
        playback_session_id: session@,
        position_ms,
    })
    &&& match reply {
        Err(error) => steps.len() == 2 && after == before && failure == Some(port_view(
            error,
        )),
        Ok(_) => after == before.started(index, session, position_ms) && tells_change(
            steps.skip(2),
            before.start_events(index, session, position_ms),
            after,
            failure,
        ),
    }
}

/// Starting the item at `index`, then a receipt.
pub open spec fn starts_and_answers(
    before: CoreStateView,
    index: int,
    position_ms: u64,
    steps: Seq<PortStep>,
    after: CoreStateView,
    result: Result<CommandReceipt, CoreError>,
) -> bool {
    match result {
        Err(error) => starts(before, index, position_ms, steps, after, Some(error@)),
        Ok(receipt) => {
            &&& steps.len() >= 2
            &&& starts(before, index, position_ms, steps.take(steps.len() - 2), after, None)
            &&& receives(steps.skip(steps.len() - 2), None, None, receipt)
        },
    }
}

/// Stopping playback.
pub open spec fn stops(
    before: CoreStateView,
    steps: Seq<PortStep>,
    after: CoreStateView,
    result: Result<CommandReceipt, CoreError>,
) -> bool {
    commands(
        steps,
        PlaybackCall::Stop,
        before,
        before.stopped(),
        seq![
            before.stopped().playback_event(),
            before.stopped().queue_event(QueueUpdateReason::CurrentChanged),
        ],
        after,
        result,
    )
}

/// Playing: a paused item plays on; else the current item starts at the noted
/// position, or the first one where none is current. Without items there is
/// nothing to play. An item that is still being loaded is started like any other:
/// to play it is no conflict.
pub open spec fn plays(
    before: CoreStateView,
    steps: Seq<PortStep>,
    after: CoreStateView,
    result: Result<CommandReceipt, CoreError>,
) -> bool {
    if before.queue.len() == 0 {
        declines(
            before,
            steps,
            after,
            result,
            conflict_view("queue_empty", "cannot start playback without queued items"),
        )
    } else if before.playback.state == PlaybackStatus::Paused && before.current_index() is Some {
        let done = before.with_status(PlaybackStatus::Playing);
        commands(
            steps,
            PlaybackCall::Resume,
            before,
            done,
            seq![done.playback_event()],
            after,
            result,
        )
    } else {
        let index = match before.current_index() {
            Some(i) => i,
            None => 0,
        };
        starts_and_answers(before, index, before.playback.position_ms, steps, after, result)
    }
}

/// Pausing: only what plays can be paused.
pub open spec fn pauses(
    before: CoreStateView,
    steps: Seq<PortStep>,
    after: CoreStateView,
    result: Result<CommandReceipt, CoreError>,
) -> bool {
    if before.playback.state != PlaybackStatus::Playing {
        declines(
            before,
            steps,
            after,
            result,
            conflict_view("playback_not_playing", "cannot pause while playback is not running"),
        )
    } else {
        let done = before.with_status(PlaybackStatus::Paused);
        commands(
            steps,
            PlaybackCall::Pause,
            before,
            done,
            seq![done.playback_event()],
            after,
            result,
        )
    }
}

/// Pausing what plays, and playing otherwise.
pub open spec fn toggles(
    before: CoreStateView,
    steps: Seq<PortStep>,
    after: CoreStateView,
    result: Result<CommandReceipt, CoreError>,
) -> bool {
    if before.playback.state == PlaybackStatus::Playing {
        pauses(before, steps, after, result)
    } else {
        plays(before, steps, after, result)
    }
}

/// Noting the position of the current item.
pub open spec fn notes_position(
    before: CoreStateView,
    position_ms: u64,
    steps: Seq<PortStep>,
    after: CoreStateView,
    result: Result<(), CoreError>,
) -> bool {
    &&& after == before.with_position(position_ms)
    &&& reports(
        steps,
        seq![CoreEventView::PlaybackPositionUpdated { position_ms }],
        failure(result),
    )
}

/// Telling subscribers of an error.
pub open spec fn tells_error(
    code: Seq<char>,
    message: Seq<char>,
    severity: SystemErrorSeverity,
    steps: Seq<PortStep>,
    result: Result<(), CoreError>,
) -> bool {
    reports(
        steps,
        seq![CoreEventView::SystemError { code, message, severity }],
        failure(result),
    )
}

/// Taking a snapshot of the whole state.
pub open spec fn takes_snapshot(
    state: CoreStateView,
    steps: Seq<PortStep>,
    snapshot: CoreSnapshot,
) -> bool {
    &&& steps == seq![
        PortStep::NewId { kind: IdKind::Snapshot, id: snapshot.snapshot_id },
        PortStep::ReadClock { now: snapshot.timestamp },
    ]
    &&& snapshot@ == state.shown(snapshot.snapshot_id, snapshot.timestamp)
}

/// Whether `found` are the results of a search that has completed.
pub open spec fn finds_results(
    state: CoreStateView,
    job_id: Seq<char>,
    found: Option<SearchResultsRecord>,
) -> bool {
    match crate::core_state::job_index(state.search_jobs, job_id) {
        Some(i) => if state.search_results.contains_key(job_id) {
            &&& found matches Some(record)
            &&& record.job == state.search_jobs[i]
            &&& record.results@ == state.search_results[job_id]@
        } else {
            found is None
        },
        None => found is None,
    }
}

/// Going to the next item: behind the last one playback stops, and the receipt
/// of the stop is followed by the receipt of the command.
pub open spec fn goes_on(
    before: CoreStateView,
    steps: Seq<PortStep>,
    after: CoreStateView,
    result: Result<CommandReceipt, CoreError>,
) -> bool {
    match before.current_index() {
        Some(i) => if i + 1 < before.queue.len() {
            starts_and_answers(before, i + 1, 0, steps, after, result)
        } else {
            match result {
                Err(error) => stops(before, steps, after, Err(error)),
                Ok(receipt) => {
                    &&& steps.len() >= 2
                    &&& exists|inner: CommandReceipt| #[trigger]
                        stops(before, steps.take(steps.len() - 2), after, Ok(inner))
                    &&& receives(steps.skip(steps.len() - 2), None, None, receipt)
                },
            }
        },
        None => if before.queue.len() == 0 {
            declines(
                before,
                steps,
                after,
                result,
                conflict_view("queue_empty", "cannot skip forward without queued items"),
            )
        } else {
            starts_and_answers(before, 0, 0, steps, after, result)
        },
    }
}

/// Going to the previous item, or to the start of the first one.
pub open spec fn goes_back(
    before: CoreStateView,
    steps: Seq<PortStep>,
    after: CoreStateView,
    result: Result<CommandReceipt, CoreError>,
) -> bool {
    if before.queue.len() == 0 {
        declines(
            before,
            steps,
            after,
            result,
            conflict_view("queue_empty", "cannot skip backward without queued items"),
        )
    } else {
        let index = match before.current_index() {
            Some(i) => if i == 0 {
                0
            } else {
                i - 1
            },
            None => 0,
        };
        starts_and_answers(before, index, 0, steps, after, result)
    }
}

/// Seeking: needs a current item.
pub open spec fn seeks(
    before: CoreStateView,
    position_ms: u64,
    steps: Seq<PortStep>,
    after: CoreStateView,
    result: Result<CommandReceipt, CoreError>,
) -> bool {
    if before.playback.current_queue_item_id is None {
        declines(
            before,
            steps,
            after,
            result,
            conflict_view("no_current_track", "cannot seek without a current track"),
        )
    } else {
        commands(
            steps,
            PlaybackCall::Seek { position_ms },
            before,
            before.with_position(position_ms),
            seq![CoreEventView::PlaybackPositionUpdated { position_ms }],
            after,
            result,
        )
    }
}

/// The end of the current item: the next one starts, behind the last one
/// playback stops. Without a current item nothing happens.
pub open spec fn finishes(
    before: CoreStateView,
    steps: Seq<PortStep>,
    after: CoreStateView,
    result: Result<(), CoreError>,
) -> bool {
    match before.current_index() {
        None => steps.len() == 0 && after == before && result is Ok,
        Some(i) => {
            let marked = before.finished(i);
            if i + 1 < before.queue.len() {
                starts(marked, i + 1, 0, steps, after, failure(result))
            } else {
                &&& steps.len() >= 1
                &&& steps[0] matches PortStep::Playback { call, reply }
                &&& call == PlaybackCall::Stop
                &&& match reply {
                    Err(error) => steps.len() == 1 && after == marked && fails_with(
                        result,
                        port_view(error),
                    ),
                    Ok(_) => after == marked.stopped() && tells_change(
                        steps.skip(1),
                        seq![
                            marked.stopped().playback_event(),
                            marked.stopped().queue_event(QueueUpdateReason::CurrentChanged),
                        ],
                        after,
                        failure(result),
                    ),
                }
            }
        },
    }
}

/// Removing an item: it leaves the queue, unless it is the current one.
pub open spec fn removes(
    before: CoreStateView,
    queue_item_id: Seq<char>,
    steps: Seq<PortStep>,
    after: CoreStateView,
    result: Result<CommandReceipt, CoreError>,
) -> bool {
    match crate::core_state::item_index(before.queue, queue_item_id) {
        None => declines(
            before,
            steps,
            after,
            result,
            CoreErrorView::NotFound { kind: "queue_item"@, id: queue_item_id },
        ),
        Some(i) => if crate::text::opt_is(before.playback.current_queue_item_id, queue_item_id) {
            declines(
                before,
                steps,
                after,
                result,
                conflict_view(
                    "current_queue_item_not_removable",
                    "the currently playing item cannot be removed",
                ),
            )
        } else {
            let rest = before.with_queue(before.queue.remove(i));
            &&& after == rest
            &&& answers_change(
                steps,
                seq![rest.queue_event(QueueUpdateReason::Remove)],
                after,
                None,
                result,
            )
        },
    }
}

/// Moving an item to a position inside the queue.
pub open spec fn moves(
    before: CoreStateView,
    queue_item_id: Seq<char>,
    to_index: u64,
    steps: Seq<PortStep>,
    after: CoreStateView,
    result: Result<CommandReceipt, CoreError>,
) -> bool {
    match crate::core_state::item_index(before.queue, queue_item_id) {
        None => declines(
            before,
            steps,
            after,
            result,
            CoreErrorView::NotFound { kind: "queue_item"@, id: queue_item_id },
        ),
        Some(i) => if to_index > usize::MAX {
            declines(
                before,
                steps,
                after,
                result,
                validation_view("index_out_of_range", "queue move target index is too large"),
            )
        } else if to_index >= before.queue.len() {
            declines(
                before,
                steps,
                after,
                result,
                validation_view("index_out_of_range", "queue move target index is out of range"),
            )
        } else {
            let next = before.rearranged(i, to_index as int);
            &&& after == next
            &&& answers_change(
                steps,
                seq![next.queue_event(QueueUpdateReason::Move)],
                after,
                None,
                result,
            )
        },
    }
}

/// Clearing the queue. A player that refuses to stop leaves the queue empty all
/// the same.
pub open spec fn clears(
    before: CoreStateView,
    steps: Seq<PortStep>,
    after: CoreStateView,
    result: Result<CommandReceipt, CoreError>,
) -> bool {
    let empty = before.with_queue(Seq::empty());
    commands(
        steps,
        PlaybackCall::Stop,
        empty,
        empty.silenced(),
        seq![
            empty.silenced().playback_event(),
            empty.silenced().queue_event(QueueUpdateReason::Clear),
        ],
        after,
        result,
    )
}

/// How many calls it takes to have an added item loaded: where an item is
/// current already, none.
pub open spec fn load_calls(before: CoreStateView) -> int {
    if before.playback.current_queue_item_id is None {
        2
    } else {
        0
    }
}

/// Having the item at `index` loaded, in a session of its own, where nothing is
/// current. A player that refuses leaves the item waiting.
pub open spec fn loads(
    before: CoreStateView,
    index: int,
    steps: Seq<PortStep>,
    after: CoreStateView,
) -> bool {
    &&& steps.len() == load_calls(before)
    &&& if before.playback.current_queue_item_id is Some {
        after == before
    } else {
        &&& steps[0] matches PortStep::NewId { kind, id: session }
        &&& steps[1] matches PortStep::Playback { call, reply }
        &&& kind == IdKind::PlaybackSession
        &&& call == (PlaybackCall::Start {
            item: before.queue[index],
            playback_session_id: session@,
            position_ms: 0,
        })
        &&& after == if reply is Ok {
            before.loading(index, session)
        } else {
            before
        }
    }
}

/// Whether an item was loaded between two states.
pub open spec fn has_loaded(before: CoreStateView, after: CoreStateView) -> bool {
    before.playback.current_queue_item_id is None && after.playback.current_queue_item_id is Some
}

/// Adding a song: it becomes the last item of the queue. Where nothing is current
/// it is loaded at once, else it waits.
pub open spec fn enqueues(
    before: CoreStateView,
    song: Song,
    steps: Seq<PortStep>,
    after: CoreStateView,
    result: Result<CommandReceipt, CoreError>,
) -> bool {
    let n = 2 + load_calls(before);
    &&& steps.len() >= n
    &&& steps[0] matches PortStep::NewId { kind, id }
    &&& steps[1] matches PortStep::ReadClock { now }
    &&& kind == IdKind::QueueItem
    &&& {
        let item = QueueItem { id, song, added_at: now, status: QueueItemStatus::Queued };
        let last = before.queue.len() as int;
        &&& loads(
            before.with_queue(before.queue.push(item)),
            last,
            steps.subrange(2, n),
            after,
        )
        &&& answers_change(
            steps.skip(n),
            after.add_events(last, has_loaded(before, after)),
            after,
            Some(id),
            result,
        )
    }
}

/// Adding a song that a search has found.
pub open spec fn enqueues_found(
    before: CoreStateView,
    song_id: Seq<char>,
    steps: Seq<PortStep>,
    after: CoreStateView,
    result: Result<CommandReceipt, CoreError>,
) -> bool {
    ||| crate::core_state::song_among(before.search_results, song_id, None) && declines(
        before,
        steps,
        after,
        result,
        CoreErrorView::NotFound { kind: "song"@, id: song_id },
    )
    ||| exists|song: Song| #[trigger]
        crate::core_state::song_among(before.search_results, song_id, Some(song)) && enqueues(
            before,
            song,
            steps,
            after,
            result,
        )
}

/// Submitting a search: the trimmed query goes to the search port; once that
/// has taken it, a running job is on record.
pub open spec fn submits(
    before: CoreStateView,
    query: Seq<char>,
    steps: Seq<PortStep>,
    after: CoreStateView,
    result: Result<CommandReceipt, CoreError>,
) -> bool {
    let wanted = crate::text::trimmed(query);
    if wanted.len() == 0 {
        declines(
            before,
            steps,
            after,
            result,
            validation_view("query_empty", "search query must not be empty"),
        )
    } else {
        &&& steps.len() >= 2
        &&& steps[0] matches PortStep::NewId { kind, id }
        &&& steps[1] matches PortStep::Search { job_id, query: asked, reply }
        &&& kind == IdKind::SearchJob
        &&& job_id == id@
        &&& asked == wanted
        &&& match reply {
            Err(error) => steps.len() == 2 && after == before && fails_with(
                result,
                port_view(error),
            ),
            Ok(_) => {
                &&& steps.len() >= 3
                &&& steps[2] matches PortStep::ReadClock { now }
                &&& after.search_jobs.len() == before.search_jobs.len() + 1
                &&& {
                    let job = after.search_jobs.last();
                    &&& after == before.with_jobs(before.search_jobs.push(job))
                    &&& job.job_id == id
                    &&& job.status == SearchJobStatus::Running
                    &&& job.query@ == wanted
                    &&& job.created_at == now
                    &&& job.completed_at is None
                    &&& job.result_count is None
                    &&& answers(
                        steps.skip(3),
                        seq![CoreEventView::SearchJobStarted(job)],
                        Some(id),
                        result,
                    )
                }
            },
        }
    }
}

/// Completing a search: its job is settled and its results are on record.
pub open spec fn completes(
    before: CoreStateView,
    job_id: Seq<char>,
    results: Vec<Song>,
    steps: Seq<PortStep>,
    after: CoreStateView,
    result: Result<(), CoreError>,
) -> bool {
    &&& steps.len() >= 1
    &&& steps[0] matches PortStep::ReadClock { now }
    &&& match crate::core_state::job_index(before.search_jobs, job_id) {
        None => steps.len() == 1 && after == before && fails_with(
            result,
            CoreErrorView::NotFound { kind: "search_job"@, id: job_id },
        ),
        Some(i) => {
            let job = before.settled_job(
                i,
                SearchJobStatus::Completed,
                now,
                Some(results@.len() as u64),
            );
            &&& after == (CoreStateView {
                search_jobs: before.search_jobs.update(i, job),
                search_results: before.search_results.insert(job_id, results),
                ..before
            })
            &&& reports(
                steps.skip(1),
                seq![CoreEventView::SearchJobCompleted { job, results: results@ }],
                failure(result),
            )
        },
    }
}

/// Failing a search: only a running job can fail.
pub open spec fn fails(
    before: CoreStateView,
    job_id: Seq<char>,
    code: Seq<char>,
    message: Seq<char>,
    steps: Seq<PortStep>,
    after: CoreStateView,
    result: Result<(), CoreError>,
) -> bool {
    &&& steps.len() >= 1
    &&& steps[0] matches PortStep::ReadClock { now }
    &&& match crate::core_state::job_index(before.search_jobs, job_id) {
        None => steps.len() == 1 && after == before && fails_with(
            result,
            CoreErrorView::NotFound { kind: "search_job"@, id: job_id },
        ),
        Some(i) => if before.search_jobs[i].status != SearchJobStatus::Running {
            steps.len() == 1 && after == before && fails_with(
                result,
                conflict_view(
                    "search_job_not_running",
                    "cannot fail a search job that is no longer running",
                ),
            )
        } else {
            &&& after == before.with_jobs(
                before.search_jobs.update(
                    i,
                    before.settled_job(i, SearchJobStatus::Failed, now, None),
                ),
            )
            &&& reports(
                steps.skip(1),
                seq![CoreEventView::SearchJobFailed { job_id, code, message }],
                failure(result),
            )
        },
    }
}

/// Setting the volume: the player is given it, brought into range.
pub open spec fn sets_volume(
    before: CoreStateView,
    volume_percent: u8,
    steps: Seq<PortStep>,
    after: CoreStateView,
    result: Result<CommandReceipt, CoreError>,
) -> bool {
    let audio = (AudioSettings { volume_percent }).spec_clamped();
    commands(
        steps,
        PlaybackCall::SetVolume { volume_percent: audio.volume_percent },
        before,
        before.with_audio(audio),
        Seq::empty(),
        after,
        result,
    )
}

/// Taking over the output settings with which the player comes up: the player is
/// given the volume, brought into range. Where it refuses, nothing changes.
pub open spec fn hydrates(
    before: CoreStateView,
    settings: AudioSettings,
    steps: Seq<PortStep>,
    after: CoreStateView,
    result: Result<(), CoreError>,
) -> bool {
    let audio = settings.spec_clamped();
    &&& steps.len() == 1
    &&& steps[0] matches PortStep::Playback { call, reply }
    &&& call == (PlaybackCall::SetVolume { volume_percent: audio.volume_percent })
    &&& match reply {
        Err(error) => after == before && fails_with(result, port_view(error)),
        Ok(_) => after == before.with_audio(audio) && result is Ok,
    }
}

/// Confirming that the item that is being loaded plays. Anything but that item in
/// its session is stale and changes nothing.
pub open spec fn confirms(
    before: CoreStateView,
    playback_session_id: Seq<char>,
    queue_item_id: Seq<char>,
    position_ms: u64,
    steps: Seq<PortStep>,
    after: CoreStateView,
    result: Result<bool, CoreError>,
) -> bool {
    if before.playback.state == PlaybackStatus::Loading && crate::text::opt_is(
        before.playback.playback_session_id,
        playback_session_id,
    ) && crate::text::opt_is(before.playback.current_queue_item_id, queue_item_id) {
        &&& after == before.confirmed(position_ms)
        &&& result is Ok ==> result->Ok_0
        &&& tells_change(
            steps,
            seq![
                after.playback_event(),
                after.queue_event(QueueUpdateReason::CurrentChanged),
            ],
            after,
            failure(result),
        )
    } else {
        steps.len() == 0 && after == before && result == Ok::<bool, CoreError>(false)
    }
}

/// Reporting how far a session has come. Any session but the current one is stale
/// and changes nothing.
pub open spec fn progresses(
    before: CoreStateView,
    playback_session_id: Seq<char>,
    position_ms: u64,
    steps: Seq<PortStep>,
    after: CoreStateView,
    result: Result<bool, CoreError>,
) -> bool {
    if crate::text::opt_is(before.playback.playback_session_id, playback_session_id) {
        &&& after == before.with_position(position_ms)
        &&& result is Ok ==> result->Ok_0
        &&& reports(
            steps,
            seq![
                CoreEventView::PlaybackProgress {
                    playback_session_id: before.playback.playback_session_id->0,
                    position_ms,
                },
            ],
            failure(result),
        )
    } else {
        steps.len() == 0 && after == before && result == Ok::<bool, CoreError>(false)
    }
}

/// Submitting an import: the URL goes to the search port; once that has taken
/// it, a running import is on record.
pub open spec fn submits_import(
    before: CoreStateView,
    url: Seq<char>,
    steps: Seq<PortStep>,
    after: CoreStateView,
    result: Result<CommandReceipt, CoreError>,
) -> bool {
    &&& steps.len() >= 2
    &&& steps[0] matches PortStep::NewId { kind, id }
    &&& steps[1] matches PortStep::Import { job_id, url: asked, reply }
    &&& kind == IdKind::SearchJob
    &&& job_id == id@
    &&& asked == url
    &&& match reply {
        Err(error) => steps.len() == 2 && after == before && fails_with(result, port_view(error)),
        Ok(_) => {
            &&& steps.len() >= 3
            &&& steps[2] matches PortStep::ReadClock { now }
            &&& after.youtube_import_jobs.len() == before.youtube_import_jobs.len() + 1
            &&& {
                let job = after.youtube_import_jobs.last();
                &&& after == before.with_imports(before.youtube_import_jobs.push(job))
                &&& job == (YoutubeImportJobRecord {
                    job_id: id,
                    status: YoutubeImportJobStatus::Running,
                    url: job.url,
                    total_count: 0,
                    queued_count: 0,
                    failed_count: 0,
                    created_at: now,
                    completed_at: None,
                    error_code: None,
                    error_message: None,
                })
                &&& job.url@ == url
                &&& answers(
                    steps.skip(3),
                    seq![CoreEventView::YoutubeImportStarted(job)],
                    Some(id),
                    result,
                )
            }
        },
    }
}

/// Whether `steps` begin with an id and a time for each of `n` new items.
pub open spec fn draws_items(steps: Seq<PortStep>, n: nat) -> bool {
    &&& steps.len() >= 2 * n
    &&& forall|k: int|
        0 <= k < n ==> {
            &&& #[trigger] steps[2 * k] matches PortStep::NewId { kind, id }
            &&& kind == IdKind::QueueItem
            &&& steps[2 * k + 1] is ReadClock
        }
}

/// The items that are made of songs with the ids and times that were drawn:
/// one for each song, in order, waiting.
pub open spec fn drawn_items(steps: Seq<PortStep>, songs: Seq<Song>) -> Seq<QueueItem> {
    Seq::new(
        songs.len(),
        |k: int|
            QueueItem {
                id: steps[2 * k]->NewId_id,
                song: songs[k],
                added_at: steps[2 * k + 1]->ReadClock_now,
                status: QueueItemStatus::Queued,
            },
    )
}

/// Completing an import: its songs become the last items of the queue, in
/// order, and its job is settled. Where nothing is current the first of them is
/// loaded at once. An import without songs cannot be completed.
pub open spec fn completes_import(
    before: CoreStateView,
    job_id: Seq<char>,
    songs: Seq<Song>,
    total_count: u64,
    failed_count: u64,
    steps: Seq<PortStep>,
    after: CoreStateView,
    result: Result<(), CoreError>,
) -> bool {
    match crate::core_state::import_index(before.youtube_import_jobs, job_id) {
        None => declines(
            before,
            steps,
            after,
            result,
            CoreErrorView::NotFound { kind: "youtube_import_job"@, id: job_id },
        ),
        Some(i) => if songs.len() == 0 {
            declines(
                before,
                steps,
                after,
                result,
                conflict_view("youtube_import_empty", "cannot complete an import without songs"),
            )
        } else {
            let n = songs.len() as int;
            let told = 2 * n + 1 + load_calls(before);
            &&& draws_items(steps, songs.len())
            &&& steps.len() >= told
            &&& steps[2 * n] matches PortStep::ReadClock { now }
            &&& {
                let job = crate::core_state::completed_import(
                    before.youtube_import_jobs[i],
                    total_count,
                    n as u64,
                    failed_count,
                    now,
                );
                let added = before.with_queue(before.queue + drawn_items(steps, songs))
                    .with_imports(before.youtube_import_jobs.update(i, job));
                let first = before.queue.len() as int;
                &&& loads(added, first, steps.subrange(2 * n + 1, told), after)
                &&& tells_change(
                    steps.skip(told),
                    after.add_events(first, has_loaded(before, after)).push(
                        CoreEventView::YoutubeImportCompleted(job),
                    ),
                    after,
                    failure(result),
                )
            }
        },
    }
}

/// Failing an import: its job is settled under the code and the message.
pub open spec fn fails_import(
    before: CoreStateView,
    job_id: Seq<char>,
    code: Seq<char>,
    message: Seq<char>,
    steps: Seq<PortStep>,
    after: CoreStateView,
    result: Result<(), CoreError>,
) -> bool {
    match crate::core_state::import_index(before.youtube_import_jobs, job_id) {
        None => declines(
            before,
            steps,
            after,
            result,
            CoreErrorView::NotFound { kind: "youtube_import_job"@, id: job_id },
        ),
        Some(i) => {
            &&& steps.len() >= 1
            &&& steps[0] matches PortStep::ReadClock { now }
            &&& after.youtube_import_jobs.len() == before.youtube_import_jobs.len()
            &&& {
                let job = after.youtube_import_jobs[i];
                &&& after == before.with_imports(before.youtube_import_jobs.update(i, job))
                &&& crate::core_state::is_failed_import(
                    before.youtube_import_jobs[i],
                    code,
                    message,
                    now,
                    job,
                )
                &&& reports(
                    steps.skip(1),
                    seq![CoreEventView::YoutubeImportFailed { job_id, code, message }],
                    failure(result),
                )
            }
        },
    }
}

// ---------------------------------------------------------------------------
// Facts about reports
// ---------------------------------------------------------------------------

proof fn lemma_reports_on(
    first: Seq<PortStep>,
    told: Seq<CoreEventView>,
    second: Seq<PortStep>,
    more: Seq<CoreEventView>,
    failure: Option<CoreErrorView>,
)
    requires
        reports(first, told, None),
        reports(second, more, failure),
    ensures
        reports(first + second, told + more, failure),
    decreases told.len(),
{
    let steps = first + second;
    let events = told + more;
    if told.len() == 0 {
        assert(steps =~= second);
        assert(events =~= more);
    } else {
        assert(steps.take(3) =~= first.take(3));
        assert(steps[2] == first[2]);
        assert(first[2]->Publish_reply is Ok);
        lemma_reports_on(first.skip(3), told.drop_first(), second, more, failure);
        assert(steps.skip(3) =~= first.skip(3) + second);
        assert(events.drop_first() =~= told.drop_first() + more);
    }
}

proof fn lemma_reports_len(steps: Seq<PortStep>, events: Seq<CoreEventView>)
    requires
        reports(steps, events, None),
    ensures
        steps.len() == 3 * events.len(),
    decreases events.len(),
{
    if events.len() > 0 {
        lemma_reports_len(steps.skip(3), events.drop_first());
    }
}

proof fn lemma_reports_broken(
    steps: Seq<PortStep>,
    told: Seq<CoreEventView>,
    more: Seq<CoreEventView>,
    failure: Option<CoreErrorView>,
)
    requires
        reports(steps, told, failure),
        failure is Some,
    ensures
        reports(steps, told + more, failure),
    decreases told.len(),
{
    let events = told + more;
    if told.len() > 0 {
        assert(events[0] == told[0]);
        if steps[2]->Publish_reply is Ok {
            lemma_reports_broken(steps.skip(3), told.drop_first(), more, failure);
            assert(events.drop_first() =~= told.drop_first() + more);
        }
    }
}

// ---------------------------------------------------------------------------
// State
// ---------------------------------------------------------------------------

/// The state of the player.
pub struct OrchestratorState {
    backend: BackendState,
    playback: PlaybackState,
    audio: AudioSettings,
    queue: Vec<QueueItem>,
    search_jobs: Vec<SearchJobRecord>,
    youtube_import_jobs: Vec<YoutubeImportJobRecord>,
    search_results: TextMap<Vec<Song>>,
}

impl View for OrchestratorState {
    type V = CoreStateView;

    closed spec fn view(&self) -> CoreStateView {
        CoreStateView {
            backend: self.backend,
            playback: self.playback,
            audio: self.audio,
            queue: self.queue@,
            search_jobs: self.search_jobs@,
            youtube_import_jobs: self.youtube_import_jobs@,
            search_results: self.search_results@,
        }
    }
}

impl Default for OrchestratorState {
    /// A ready backend with nothing in it.
    fn default() -> (state: Self)
        ensures
            state@.backend.ready,
            state@.backend.version is None,
            state@.backend.yt_dlp_version is None,
            state@.playback.state == PlaybackStatus::Stopped,
            state@.playback.position_ms == 0,
            state@.playback.current_queue_item_id is None,
            state@.playback.playback_session_id is None,
            state@.audio.volume_percent == AudioSettings::DEFAULT_VOLUME_PERCENT,
            state@.queue.len() == 0,
            state@.search_jobs.len() == 0,
            state@.youtube_import_jobs.len() == 0,
            state@.search_results == Map::<Seq<char>, Vec<Song>>::empty(),
            state@.consistent(),
    {
        OrchestratorState {
            backend: BackendState { ready: true, version: None, yt_dlp_version: None },
            playback: PlaybackState {
                state: PlaybackStatus::Stopped,
                position_ms: 0,
                current_queue_item_id: None,
                playback_session_id: None,
            },
            audio: AudioSettings::default(),
            queue: Vec::new(),
            search_jobs: Vec::new(),
            youtube_import_jobs: Vec::new(),
            search_results: TextMap::new(),
        }
    }
}

impl OrchestratorState {
    pub fn backend(&self) -> (backend: &BackendState)
        ensures
            *backend == self@.backend,
    {
        &self.backend
    }

    pub fn playback(&self) -> (playback: &PlaybackState)
        ensures
            *playback == self@.playback,
    {
        &self.playback
    }

    pub fn audio(&self) -> (audio: &AudioSettings)
        ensures
            *audio == self@.audio,
    {
        &self.audio
    }

    pub fn queue(&self) -> (queue: &[QueueItem])
        ensures
            queue@ == self@.queue,
    {
        self.queue.as_slice()
    }

    pub fn search_jobs(&self) -> (jobs: &[SearchJobRecord])
        ensures
            jobs@ == self@.search_jobs,
    {
        self.search_jobs.as_slice()
    }

    pub fn youtube_import_jobs(&self) -> (jobs: &[YoutubeImportJobRecord])
        ensures
            jobs@ == self@.youtube_import_jobs,
    {
        self.youtube_import_jobs.as_slice()
    }

    /// The position of the first item with the given id.
    fn index_of(&self, id: &str) -> (index: Option<usize>)
        ensures
            match index {
                Some(i) => crate::core_state::item_index(self@.queue, id@) == Some(i as int) && i
                    < self@.queue.len(),
                None => crate::core_state::item_index(self@.queue, id@) is None,
            },
    {
        let mut i: usize = 0;
        while i < self.queue.len()
            invariant
                i <= self.queue@.len(),
                forall|j: int| 0 <= j < i ==> (#[trigger] self.queue@[j]).id@ != id@,
            decreases self.queue@.len() - i,
        {
            if crate::text::str_eq(self.queue[i].id.as_str(), id) {
                proof {
                    crate::core_state::lemma_item_index_is(self.queue@, id@, i as int);
                }
                return Some(i);
            }
            i += 1;
        }
        proof {
            crate::core_state::lemma_item_index(self.queue@, id@);
        }
        None
    }

    /// The position of the current item.
    fn current_index(&self) -> (index: Option<usize>)
        ensures
            match index {
                Some(i) => self@.current_index() == Some(i as int) && i < self@.queue.len(),
                None => self@.current_index() is None,
            },
    {
        match &self.playback.current_queue_item_id {
            Some(id) => self.index_of(id.as_str()),
            None => None,
        }
    }

    /// The position of the first job with the given id.
    fn job_index(&self, id: &str) -> (index: Option<usize>)
        ensures
            match index {
                Some(i) => crate::core_state::job_index(self@.search_jobs, id@) == Some(i as int) && i
                    < self@.search_jobs.len(),
                None => crate::core_state::job_index(self@.search_jobs, id@) is None,
            },
    {
        let mut i: usize = 0;
        while i < self.search_jobs.len()
            invariant
                i <= self.search_jobs@.len(),
                forall|j: int| 0 <= j < i ==> (#[trigger] self.search_jobs@[j]).job_id@ != id@,
            decreases self.search_jobs@.len() - i,
        {
            if crate::text::str_eq(self.search_jobs[i].job_id.as_str(), id) {
                proof {
                    crate::core_state::lemma_job_index_is(self.search_jobs@, id@, i as int);
                }
                return Some(i);
            }
            i += 1;
        }
        proof {
            crate::core_state::lemma_job_index(self.search_jobs@, id@);
        }
        None
    }

    /// The position of the first import with the given id.
    fn import_index(&self, id: &str) -> (index: Option<usize>)
        ensures
            match index {
                Some(i) => crate::core_state::import_index(self@.youtube_import_jobs, id@) == Some(
                    i as int,
                ) && i < self@.youtube_import_jobs.len(),
                None => crate::core_state::import_index(self@.youtube_import_jobs, id@) is None,
            },
    {
        let mut i: usize = 0;
        while i < self.youtube_import_jobs.len()
            invariant
                i <= self.youtube_import_jobs@.len(),
                forall|j: int|
                    0 <= j < i ==> (#[trigger] self.youtube_import_jobs@[j]).job_id@ != id@,
            decreases self.youtube_import_jobs@.len() - i,
        {
            if crate::text::str_eq(self.youtube_import_jobs[i].job_id.as_str(), id) {
                proof {
                    crate::core_state::lemma_import_index_is(
                        self.youtube_import_jobs@,
                        id@,
                        i as int,
                    );
                }
                return Some(i);
            }
            i += 1;
        }
        proof {
            crate::core_state::lemma_import_index(self.youtube_import_jobs@, id@);
        }
        None
    }

    /// The song with the given id among the results of all searches.
    fn find_song(&self, id: &str) -> (found: Option<Song>)
        ensures
            crate::core_state::song_among(self@.search_results, id@, found),
    {
        let entries = self.search_results.in_order();
        let ghost map = self.search_results@;
        let mut i: usize = 0;
        while i < entries.len()
            invariant
                i <= entries@.len(),
                map == self.search_results@,
                crate::text_map::keys_ascend(entries@),
                forall|k: int|
                    0 <= k < entries@.len() ==> map.contains_key(#[trigger] entries@[k].0@)
                        && map[entries@[k].0@] == entries@[k].1,
                forall|key: Seq<char>| #[trigger]
                    map.contains_key(key) ==> exists|k: int|
                        crate::text_map::key_at(entries@, key, k),
                forall|k: int|
                    0 <= k < i ==> crate::core_state::song_in((#[trigger] entries@[k]).1@, id@)
                        is None,
            decreases entries@.len() - i,
        {
            match Self::song_in_list(&entries[i].1, id) {
                Some(song) => {
                    proof {
                        let job = entries@[i as int].0@;
                        assert(map.contains_key(job));
                        assert forall|earlier: Seq<char>| #[trigger]
                            map.contains_key(earlier) && crate::text::text_less(
                                earlier,
                                job,
                            ) implies crate::core_state::song_in(map[earlier]@, id@) is None by {
                            let k = choose|k: int| crate::text_map::key_at(entries@, earlier, k);
                            if k > i {
                                assert(crate::text::text_less(entries@[i as int].0@, entries@[k].0@));
                                crate::text::lemma_text_less_transitive(earlier, job, earlier);
                                crate::text::lemma_text_less_irreflexive(earlier);
                            } else if k == i {
                                crate::text::lemma_text_less_irreflexive(earlier);
                            } else {
                                assert(crate::core_state::song_in(entries@[k].1@, id@) is None);
                            }
                        }
                    }
                    return Some(song);
                },
                None => {},
            }
            i += 1;
        }
        proof {
            assert forall|job: Seq<char>| #[trigger]
                map.contains_key(job) implies crate::core_state::song_in(map[job]@, id@) is None by {
                let k = choose|k: int| crate::text_map::key_at(entries@, job, k);
                assert(crate::core_state::song_in(entries@[k].1@, id@) is None);
            }
        }
        None
    }

    fn song_in_list(songs: &Vec<Song>, id: &str) -> (found: Option<Song>)
        ensures
            found == crate::core_state::song_in(songs@, id@),
    {
        let mut i: usize = 0;
        assert(songs@.skip(0) =~= songs@);
        while i < songs.len()
            invariant
                i <= songs@.len(),
                crate::core_state::song_in(songs@.skip(i as int), id@)
                    == crate::core_state::song_in(songs@, id@),
            decreases songs@.len() - i,
        {
            if crate::text::str_eq(songs[i].id.as_str(), id) {
                return Some(songs[i].clone());
            }
            assert(songs@.skip(i as int).drop_first() =~= songs@.skip(i + 1));
            i += 1;
        }
        None
    }

    /// Gives every item the status that fits around the item at `current`.
    fn apply_queue_statuses(&mut self, current: usize, status: QueueItemStatus)
        requires
            current < old(self)@.queue.len(),
        ensures
            final(self)@ == old(self)@.with_queue(
                crate::core_state::queue_around(old(self)@.queue, current as int, status),
            ),
    {
        let ghost before = self.queue@;
        let ghost target = crate::core_state::queue_around(before, current as int, status);
        let mut i: usize = 0;
        while i < self.queue.len()
            invariant
                i <= self.queue@.len(),
                self.queue@.len() == before.len(),
                target == crate::core_state::queue_around(before, current as int, status),
                self.queue@ =~= target.take(i as int) + before.skip(i as int),
                self.backend == old(self).backend,
                self.playback == old(self).playback,
                self.audio == old(self).audio,
                self.search_jobs == old(self).search_jobs,
                self.youtube_import_jobs == old(self).youtube_import_jobs,
                self.search_results == old(self).search_results,
            decreases self.queue@.len() - i,
        {
            let mut item = self.queue[i].clone();
            item.status = if i < current {
                QueueItemStatus::Finished
            } else if i == current {
                status
            } else {
                QueueItemStatus::Queued
            };
            assert(item == target[i as int]);
            self.queue.set(i, item);
            i += 1;
        }
        assert(self.queue@ =~= target);
    }

    /// Puts everything that played or loaded back to waiting.
    fn normalize_queue_for_stop(&mut self)
        ensures
            final(self)@ == old(self)@.with_queue(crate::core_state::resting(old(self)@.queue)),
    {
        let ghost before = self.queue@;
        let ghost target = crate::core_state::resting(before);
        let mut i: usize = 0;
        while i < self.queue.len()
            invariant
                i <= self.queue@.len(),
                self.queue@.len() == before.len(),
                target == crate::core_state::resting(before),
                self.queue@ =~= target.take(i as int) + before.skip(i as int),
                self.backend == old(self).backend,
                self.playback == old(self).playback,
                self.audio == old(self).audio,
                self.search_jobs == old(self).search_jobs,
                self.youtube_import_jobs == old(self).youtube_import_jobs,
                self.search_results == old(self).search_results,
            decreases self.queue@.len() - i,
        {
            let mut item = self.queue[i].clone();
            item.status = match item.status {
                QueueItemStatus::Playing | QueueItemStatus::Loading => QueueItemStatus::Queued,
                other => other,
            };
            assert(item == target[i as int]);
            self.queue.set(i, item);
            i += 1;
        }
        assert(self.queue@ =~= target);
    }

    /// Notes that nothing plays.
    fn silence(&mut self)
        ensures
            final(self)@ == old(self)@.silenced(),
    {
        self.playback.state = PlaybackStatus::Stopped;
        self.playback.position_ms = 0;
        self.playback.current_queue_item_id = None;
        self.playback.playback_session_id = None;
    }
}

// ---------------------------------------------------------------------------
// The orchestrator
// ---------------------------------------------------------------------------

/// The player: its ports, its state, and the record of what it has said to the ports.
#[verifier::reject_recursive_types(C)]
#[verifier::reject_recursive_types(I)]
#[verifier::reject_recursive_types(E)]
#[verifier::reject_recursive_types(P)]
#[verifier::reject_recursive_types(S)]
pub struct Orchestrator<C, I, E, P, S> {
    clock: C,
    ids: I,
    events: E,
    playback: P,
    search: S,
    state: OrchestratorState,
    journal: Ghost<Seq<PortStep>>,
}

impl<C, I, E, P, S> Orchestrator<C, I, E, P, S> where
    C: ClockPort,
    I: IdGeneratorPort,
    E: EventPublisherPort,
    P: PlaybackPort,
    S: SearchPort,
 {
    /// The state, as the model sees it.
    pub closed spec fn model(&self) -> CoreStateView {
        self.state@
    }

    /// The ports.
    pub closed spec fn ports(&self) -> Ports<C, I, E, P, S> {
        Ports {
            clock: self.clock,
            ids: self.ids,
            events: self.events,
            playback: self.playback,
            search: self.search,
        }
    }

    /// Every port call made so far.
    pub closed spec fn journal(&self) -> Seq<PortStep> {
        self.journal@
    }

    /// The port calls made since `earlier`.
    pub open spec fn since(&self, earlier: &Self) -> Seq<PortStep> {
        self.journal().skip(earlier.journal().len() as int)
    }

    /// Whether the recorded calls took the ports from what they were in `earlier`
    /// to what they are now.
    pub open spec fn follows(&self, earlier: &Self) -> bool {
        &&& earlier.journal().is_prefix_of(self.journal())
        &&& earlier.ports().runs(self.since(earlier), self.ports())
    }

    pub(crate) proof fn lemma_follows_itself(&self)
        ensures
            self.follows(self),
            self.since(self) == Seq::<PortStep>::empty(),
    {
        assert(self.since(self) =~= Seq::<PortStep>::empty());
        self.ports().lemma_runs_nothing();
    }

    pub(crate) proof fn lemma_follows_on(&self, between: &Self, earlier: &Self)
        requires
            between.follows(earlier),
            self.follows(between),
        ensures
            self.follows(earlier),
            self.since(earlier) == between.since(earlier) + self.since(between),
    {
        assert(self.since(earlier) =~= between.since(earlier) + self.since(between));
        earlier.ports().lemma_runs_on(
            between.since(earlier),
            between.ports(),
            self.since(between),
            self.ports(),
        );
    }

    proof fn lemma_follows_step(&self, earlier: &Self, step: PortStep)
        requires
            self.journal() == earlier.journal().push(step),
            earlier.ports().takes(step, self.ports()),
        ensures
            self.follows(earlier),
            self.since(earlier) == seq![step],
    {
        assert(self.since(earlier) =~= seq![step]);
        earlier.ports().lemma_runs_step(step, self.ports());
    }

    /// A player in its first state.
    pub fn new(clock: C, ids: I, events: E, playback: P, search: S) -> (orchestrator: Self)
        ensures
            orchestrator.ports() == (Ports { clock, ids, events, playback, search }),
            orchestrator.journal().len() == 0,
            orchestrator.model().backend.ready,
            orchestrator.model().backend.version is None,
            orchestrator.model().backend.yt_dlp_version is None,
            orchestrator.model().playback.state == PlaybackStatus::Stopped,
            orchestrator.model().playback.position_ms == 0,
            orchestrator.model().playback.current_queue_item_id is None,
            orchestrator.model().playback.playback_session_id is None,
            orchestrator.model().audio.volume_percent == AudioSettings::DEFAULT_VOLUME_PERCENT,
            orchestrator.model().queue.len() == 0,
            orchestrator.model().search_jobs.len() == 0,
            orchestrator.model().youtube_import_jobs.len() == 0,
            orchestrator.model().search_results == Map::<Seq<char>, Vec<Song>>::empty(),
            orchestrator.model().consistent(),
    {
        Orchestrator {
            clock,
            ids,
            events,
            playback,
            search,
            state: OrchestratorState::default(),
            journal: Ghost(Seq::empty()),
        }
    }

    // -- single port calls ---------------------------------------------------

    fn read_clock(&mut self) -> (now: String)
        ensures
            final(self).follows(old(self)),
            final(self).since(old(self)) == seq![PortStep::ReadClock { now }],
            final(self).state == old(self).state,
    {
        let ghost before = *self;
        let now = self.clock.now();
        self.journal = Ghost(self.journal@.push(PortStep::ReadClock { now }));
        proof {
            self.lemma_follows_step(&before, PortStep::ReadClock { now });
        }
        now
    }

    fn new_id(&mut self, kind: IdKind) -> (id: String)
        ensures
            final(self).follows(old(self)),
            final(self).since(old(self)) == seq![PortStep::NewId { kind, id }],
            final(self).state == old(self).state,
    {
        let ghost before = *self;
        let id = self.ids.next_id(kind);
        self.journal = Ghost(self.journal@.push(PortStep::NewId { kind, id }));
        proof {
            self.lemma_follows_step(&before, PortStep::NewId { kind, id });
        }
        id
    }

    fn send(&mut self, envelope: CoreEventEnvelope<CoreEvent>) -> (reply: Result<(), PortError>)
        ensures
            final(self).follows(old(self)),
            final(self).since(old(self)) == seq![PortStep::Publish { envelope, reply }],
            final(self).state == old(self).state,
    {
        let ghost before = *self;
        let reply = self.events.publish(envelope);
        let ghost step = PortStep::Publish { envelope, reply };
        self.journal = Ghost(self.journal@.push(step));
        proof {
            self.lemma_follows_step(&before, step);
        }
        reply
    }

    fn player_start(&mut self, item: &QueueItem, session: &str, position_ms: u64) -> (reply: Result<
        (),
        PortError,
    >)
        ensures
            final(self).follows(old(self)),
            final(self).since(old(self)) == seq![
                PortStep::Playback {
                    call: PlaybackCall::Start {
                        item: *item,
                        playback_session_id: session@,
                        position_ms,
                    },
                    reply,
                },
            ],
            final(self).state == old(self).state,
    {
        let ghost before = *self;
        let reply = self.playback.start(item, session, position_ms);
        let ghost step = PortStep::Playback {
            call: PlaybackCall::Start { item: *item, playback_session_id: session@, position_ms },
            reply,
        };
        self.journal = Ghost(self.journal@.push(step));
        proof {
            self.lemma_follows_step(&before, step);
        }
        reply
    }

    fn player_set_volume(&mut self, volume_percent: u8) -> (reply: Result<(), PortError>)
        ensures
            final(self).follows(old(self)),
            final(self).since(old(self)) == seq![
                PortStep::Playback { call: PlaybackCall::SetVolume { volume_percent }, reply },
            ],
            final(self).state == old(self).state,
    {
        let ghost before = *self;
        let reply = self.playback.set_volume(volume_percent);
        let ghost step = PortStep::Playback {
            call: PlaybackCall::SetVolume { volume_percent },
            reply,
        };
        self.journal = Ghost(self.journal@.push(step));
        proof {
            self.lemma_follows_step(&before, step);
        }
        reply
    }

    fn player_pause(&mut self) -> (reply: Result<(), PortError>)
        ensures
            final(self).follows(old(self)),
            final(self).since(old(self)) == seq![
                PortStep::Playback { call: PlaybackCall::Pause, reply },
            ],
            final(self).state == old(self).state,
    {
        let ghost before = *self;
        let reply = self.playback.pause();
        let ghost step = PortStep::Playback { call: PlaybackCall::Pause, reply };
        self.journal = Ghost(self.journal@.push(step));
        proof {
            self.lemma_follows_step(&before, step);
        }
        reply
    }

    fn player_resume(&mut self) -> (reply: Result<(), PortError>)
        ensures
            final(self).follows(old(self)),
            final(self).since(old(self)) == seq![
                PortStep::Playback { call: PlaybackCall::Resume, reply },
            ],
            final(self).state == old(self).state,
    {
        let ghost before = *self;
        let reply = self.playback.resume();
        let ghost step = PortStep::Playback { call: PlaybackCall::Resume, reply };
        self.journal = Ghost(self.journal@.push(step));
        proof {
            self.lemma_follows_step(&before, step);
        }
        reply
    }

    fn player_stop(&mut self) -> (reply: Result<(), PortError>)
        ensures
            final(self).follows(old(self)),
            final(self).since(old(self)) == seq![
                PortStep::Playback { call: PlaybackCall::Stop, reply },
            ],
            final(self).state == old(self).state,
    {
        let ghost before = *self;
        let reply = self.playback.stop();
        let ghost step = PortStep::Playback { call: PlaybackCall::Stop, reply };
        self.journal = Ghost(self.journal@.push(step));
        proof {
            self.lemma_follows_step(&before, step);
        }
        reply
    }

    fn player_seek(&mut self, position_ms: u64) -> (reply: Result<(), PortError>)
        ensures
            final(self).follows(old(self)),
            final(self).since(old(self)) == seq![
                PortStep::Playback { call: PlaybackCall::Seek { position_ms }, reply },
            ],
            final(self).state == old(self).state,
    {
        let ghost before = *self;
        let reply = self.playback.seek(position_ms);
        let ghost step = PortStep::Playback { call: PlaybackCall::Seek { position_ms }, reply };
        self.journal = Ghost(self.journal@.push(step));
        proof {
            self.lemma_follows_step(&before, step);
        }
        reply
    }

    fn searcher_start(&mut self, job_id: &str, query: &str) -> (reply: Result<(), PortError>)
        ensures
            final(self).follows(old(self)),
            final(self).since(old(self)) == seq![
                PortStep::Search { job_id: job_id@, query: query@, reply },
            ],
            final(self).state == old(self).state,
    {
        let ghost before = *self;
        let reply = self.search.start_search(job_id, query);
        let ghost step = PortStep::Search { job_id: job_id@, query: query@, reply };
        self.journal = Ghost(self.journal@.push(step));
        proof {
            self.lemma_follows_step(&before, step);
        }
        reply
    }

    fn searcher_import(&mut self, job_id: &str, url: &str) -> (reply: Result<(), PortError>)
        ensures
            final(self).follows(old(self)),
            final(self).since(old(self)) == seq![
                PortStep::Import { job_id: job_id@, url: url@, reply },
            ],
            final(self).state == old(self).state,
    {
        let ghost before = *self;
        let reply = self.search.start_youtube_import(job_id, url);
        let ghost step = PortStep::Import { job_id: job_id@, url: url@, reply };
        self.journal = Ghost(self.journal@.push(step));
        proof {
            self.lemma_follows_step(&before, step);
        }
        reply
    }

    // -- publishing ----------------------------------------------------------

    fn publish(&mut self, kind: CoreEventKind, event: CoreEvent) -> (result: Result<(), CoreError>)
        requires
            kind == event@.kind(),
        ensures
            final(self).follows(old(self)),
            reports(final(self).since(old(self)), seq![event@], failure(result)),
            final(self).state == old(self).state,
    {
        let ghost s0 = *self;
        let ghost told = event@;
        let id = self.new_id(IdKind::Event);
        let ghost s1 = *self;
        let now = self.read_clock();
        let ghost s2 = *self;
        let envelope = CoreEventEnvelope::new(id, kind, now, event);
        let reply = self.send(envelope);
        proof {
            s2.lemma_follows_on(&s1, &s0);
            self.lemma_follows_on(&s2, &s0);
            let steps = self.since(&s0);
            assert(steps.take(3) =~= steps);
            assert(publication(steps, told));
            assert(steps.skip(3) =~= Seq::<PortStep>::empty());
            assert(seq![told].drop_first() =~= Seq::<CoreEventView>::empty());
            reveal_with_fuel(reports, 2);
        }
        match reply {
            Ok(_) => Ok(()),
            Err(error) => Err(CoreError::from(error)),
        }
    }

    fn publish_playback_state_changed(&mut self) -> (result: Result<(), CoreError>)
        ensures
            final(self).follows(old(self)),
            reports(
                final(self).since(old(self)),
                seq![old(self).model().playback_event()],
                failure(result),
            ),
            final(self).state == old(self).state,
    {
        let event = PlaybackStateChangedEvent {
            state: self.state.playback.state,
            current_queue_item_id: self.state.playback.current_queue_item_id.clone(),
            position_ms: self.state.playback.position_ms,
        };
        self.publish(
            CoreEventKind::PlaybackStateChanged,
            CoreEvent::PlaybackStateChanged(event),
        )
    }

    fn publish_queue_updated(&mut self, reason: QueueUpdateReason) -> (result: Result<
        (),
        CoreError,
    >)
        ensures
            final(self).follows(old(self)),
            reports(
                final(self).since(old(self)),
                seq![old(self).model().queue_event(reason)],
                failure(result),
            ),
            final(self).state == old(self).state,
    {
        let event = QueueUpdatedEvent { reason, items: clone_items(&self.state.queue) };
        self.publish(CoreEventKind::QueueUpdated, CoreEvent::QueueUpdated(event))
    }

    /// Tells of the playback state and then of the queue.
    fn publish_playback_and_queue(&mut self, reason: QueueUpdateReason) -> (result: Result<
        (),
        CoreError,
    >)
        ensures
            final(self).follows(old(self)),
            reports(
                final(self).since(old(self)),
                seq![
                    old(self).model().playback_event(),
                    old(self).model().queue_event(reason),
                ],
                failure(result),
            ),
            final(self).state == old(self).state,
    {
        let ghost s0 = *self;
        let ghost e1 = seq![self.model().playback_event()];
        let ghost e2 = seq![self.model().queue_event(reason)];
        let first = self.publish_playback_state_changed();
        assert(e1 + e2 =~= seq![s0.model().playback_event(), s0.model().queue_event(reason)]);
        if first.is_err() {
            proof {
                lemma_reports_broken(self.since(&s0), e1, e2, failure(first));
            }
            return first;
        }
        let ghost s1 = *self;
        let second = self.publish_queue_updated(reason);
        proof {
            self.lemma_follows_on(&s1, &s0);
            lemma_reports_on(s1.since(&s0), e1, self.since(&s1), e2, failure(second));
        }
        second
    }

    /// Makes the receipt of an accepted command.
    fn command_accepted(&mut self, job_id: Option<String>, queue_item_id: Option<String>) -> (receipt:
        CommandReceipt)
        ensures
            final(self).follows(old(self)),
            receives(final(self).since(old(self)), job_id, queue_item_id, receipt),
            final(self).state == old(self).state,
    {
        let ghost s0 = *self;
        let command_id = self.new_id(IdKind::Command);
        let ghost s1 = *self;
        let accepted_at = self.read_clock();
        proof {
            self.lemma_follows_on(&s1, &s0);
            assert(self.since(&s0) =~= seq![
                PortStep::NewId { kind: IdKind::Command, id: command_id },
                PortStep::ReadClock { now: accepted_at },
            ]);
        }
        CommandReceipt { command_id, accepted_at, job_id, queue_item_id }
    }

    /// Makes the receipt where everything was told, and passes the failure on where not.
    fn answer(
        &mut self,
        told: Result<(), CoreError>,
        job_id: Option<String>,
        Ghost(origin): Ghost<Self>,
        Ghost(events): Ghost<Seq<CoreEventView>>,
    ) -> (result: Result<CommandReceipt, CoreError>)
        requires
            old(self).follows(&origin),
            reports(old(self).since(&origin), events, failure(told)),
        ensures
            final(self).follows(&origin),
            answers(final(self).since(&origin), events, job_id, result),
            final(self).state == old(self).state,
    {
        let ghost s0 = *self;
        match told {
            Err(error) => Err(error),
            Ok(_) => {
                let receipt = self.command_accepted(job_id, None);
                proof {
                    self.lemma_follows_on(&s0, &origin);
                    let steps = self.since(&origin);
                    assert(steps.take(steps.len() - 2) =~= s0.since(&origin));
                    assert(steps.skip(steps.len() - 2) =~= self.since(&s0));
                }
                Ok(receipt)
            },
        }
    }

    /// Tells of the whole state where everything before was told, and passes the
    /// failure on where not.
    fn tell_change(
        &mut self,
        told: Result<(), CoreError>,
        Ghost(origin): Ghost<Self>,
        Ghost(events): Ghost<Seq<CoreEventView>>,
    ) -> (result: Result<(), CoreError>)
        requires
            old(self).follows(&origin),
            reports(old(self).since(&origin), events, failure(told)),
        ensures
            final(self).follows(&origin),
            tells_change(
                final(self).since(&origin),
                events,
                old(self).model(),
                failure(result),
            ),
            final(self).model() == old(self).model(),
    {
        let ghost s0 = *self;
        match told {
            Err(error) => Err(error),
            Ok(_) => {
                let result = self.publish_state_updated();
                proof {
                    lemma_reports_len(s0.since(&origin), events);
                    self.lemma_calls_first(&s0, &origin);
                }
                result
            },
        }
    }

    /// Tells of the whole state and makes the receipt where everything was told,
    /// and passes the failure on where not.
    fn answer_change(
        &mut self,
        told: Result<(), CoreError>,
        queue_item_id: Option<String>,
        Ghost(origin): Ghost<Self>,
        Ghost(events): Ghost<Seq<CoreEventView>>,
    ) -> (result: Result<CommandReceipt, CoreError>)
        requires
            old(self).follows(&origin),
            reports(old(self).since(&origin), events, failure(told)),
        ensures
            final(self).follows(&origin),
            answers_change(
                final(self).since(&origin),
                events,
                old(self).model(),
                queue_item_id,
                result,
            ),
            final(self).model() == old(self).model(),
    {
        match self.tell_change(told, Ghost(origin), Ghost(events)) {
            Err(error) => Err(error),
            Ok(_) => {
                let ghost s1 = *self;
                let receipt = self.command_accepted(None, queue_item_id);
                proof {
                    self.lemma_follows_on(&s1, &origin);
                    let steps = self.since(&origin);
                    assert(steps.take(steps.len() - 2) =~= s1.since(&origin));
                    assert(steps.skip(steps.len() - 2) =~= self.since(&s1));
                }
                Ok(receipt)
            },
        }
    }

    proof fn lemma_call_first(&self, origin: &Self, earlier: &Self, step: PortStep)
        requires
            origin.follows(earlier),
            origin.since(earlier) == seq![step],
            self.follows(origin),
        ensures
            self.follows(earlier),
            self.since(earlier).len() >= 1,
            self.since(earlier)[0] == step,
            self.since(earlier).skip(1) == self.since(origin),
    {
        self.lemma_follows_on(origin, earlier);
        assert(self.since(earlier).skip(1) =~= self.since(origin));
    }

    proof fn lemma_calls_first(&self, origin: &Self, earlier: &Self)
        requires
            origin.follows(earlier),
            self.follows(origin),
        ensures
            self.follows(earlier),
            self.since(earlier).len() >= origin.since(earlier).len(),
            self.since(earlier).take(origin.since(earlier).len() as int) == origin.since(earlier),
            self.since(earlier).skip(origin.since(earlier).len() as int) == self.since(origin),
    {
        self.lemma_follows_on(origin, earlier);
        let n = origin.since(earlier).len() as int;
        assert(self.since(earlier).take(n) =~= origin.since(earlier));
        assert(self.since(earlier).skip(n) =~= self.since(origin));
    }

    /// Starts the item at `index`, in a session of its own.
    fn start_track(&mut self, index: usize, position_ms: u64) -> (result: Result<(), CoreError>)
        requires
            index < old(self).model().queue.len(),
        ensures
            final(self).follows(old(self)),
            starts(
                old(self).model(),
                index as int,
                position_ms,
                final(self).since(old(self)),
                final(self).model(),
                failure(result),
            ),
    {
        let ghost s0 = *self;
        let item = self.state.queue[index].clone();
        let track_changed = !crate::text::opt_eq(
            &self.state.playback.current_queue_item_id,
            item.id.as_str(),
        );
        let session = self.new_id(IdKind::PlaybackSession);
        let ghost s1 = *self;
        let reply = self.player_start(&item, session.as_str(), position_ms);
        proof {
            self.lemma_follows_on(&s1, &s0);
        }
        match reply {
            Err(error) => return Err(CoreError::from(error)),
            Ok(_) => {},
        }
        self.state.playback.state = PlaybackStatus::Playing;
        self.state.playback.position_ms = position_ms;
        self.state.playback.current_queue_item_id = Some(item.id.clone());
        self.state.playback.playback_session_id = Some(session.clone());
        self.state.apply_queue_statuses(index, QueueItemStatus::Playing);
        let ghost origin = *self;
        let ghost news = seq![
            origin.model().playback_event(),
            origin.model().queue_event(QueueUpdateReason::CurrentChanged),
        ];
        assert(origin.model() == s0.model().started(index as int, session, position_ms));
        if track_changed {
            let event = PlaybackTrackChangedEvent {
                queue_item_id: item.id.clone(),
                song: item.song.clone(),
            };
            let ghost track = seq![
                CoreEventView::PlaybackTrackChanged { queue_item_id: item.id, song: item.song },
            ];
            let first = self.publish(
                CoreEventKind::PlaybackTrackChanged,
                CoreEvent::PlaybackTrackChanged(event),
            );
            if first.is_err() {
                proof {
                    self.lemma_calls_first(&origin, &s0);
                    lemma_reports_broken(self.since(&origin), track, news, failure(first));
                }
                return first;
            }
            let ghost s2 = *self;
            let second = self.publish_playback_and_queue(QueueUpdateReason::CurrentChanged);
            proof {
                self.lemma_follows_on(&s2, &origin);
                lemma_reports_on(
                    s2.since(&origin),
                    track,
                    self.since(&s2),
                    news,
                    failure(second),
                );
            }
            let told = self.tell_change(second, Ghost(origin), Ghost(track + news));
            proof {
                self.lemma_calls_first(&origin, &s0);
            }
            told
        } else {
            let told = self.publish_playback_and_queue(QueueUpdateReason::CurrentChanged);
            let told = self.tell_change(told, Ghost(origin), Ghost(news));
            proof {
                self.lemma_calls_first(&origin, &s0);
            }
            told
        }
    }

    /// Starts the item at `index` and makes a receipt.
    fn start_and_answer(&mut self, index: usize, position_ms: u64) -> (result: Result<
        CommandReceipt,
        CoreError,
    >)
        requires
            index < old(self).model().queue.len(),
        ensures
            final(self).follows(old(self)),
            starts_and_answers(
                old(self).model(),
                index as int,
                position_ms,
                final(self).since(old(self)),
                final(self).model(),
                result,
            ),
    {
        let ghost s0 = *self;
        match self.start_track(index, position_ms) {
            Err(error) => Err(error),
            Ok(_) => {
                let ghost s1 = *self;
                let receipt = self.command_accepted(None, None);
                proof {
                    self.lemma_follows_on(&s1, &s0);
                    let steps = self.since(&s0);
                    assert(steps.take(steps.len() - 2) =~= s1.since(&s0));
                    assert(steps.skip(steps.len() - 2) =~= self.since(&s1));
                }
                Ok(receipt)
            },
        }
    }

    // -- playback commands -----------------------------------------------------

    /// Plays on, or starts the current or the first item. One that is still being
    /// loaded is started as well; that is no conflict.
    pub fn play(&mut self) -> (result: Result<CommandReceipt, CoreError>)
        ensures
            final(self).follows(old(self)),
            plays(
                old(self).model(),
                final(self).since(old(self)),
                final(self).model(),
                result,
            ),
            old(self).model().consistent() ==> final(self).model().consistent(),
    {
        let ghost s0 = *self;
        proof {
            self.lemma_follows_itself();
        }
        if self.state.queue.is_empty() {
            return Err(
                CoreError::conflict("queue_empty", "cannot start playback without queued items"),
            );
        }
        let current = self.state.current_index();
        if self.state.playback.state == PlaybackStatus::Paused && current.is_some() {
            let reply = self.player_resume();
            let ghost step = PortStep::Playback { call: PlaybackCall::Resume, reply };
            match reply {
                Err(error) => return Err(CoreError::from(error)),
                Ok(_) => {},
            }
            self.state.playback.state = PlaybackStatus::Playing;
            let ghost origin = *self;
            let told = self.publish_playback_state_changed();
            let ghost events = seq![origin.model().playback_event()];
            let result = self.answer_change(told, None, Ghost(origin), Ghost(events));
            proof {
                self.lemma_call_first(&origin, &s0, step);
            }
            return result;
        }
        let index = match current {
            Some(i) => i,
            None => 0,
        };
        let position_ms = self.state.playback.position_ms;
        self.start_and_answer(index, position_ms)
    }

    /// Pauses what plays.
    pub fn pause(&mut self) -> (result: Result<CommandReceipt, CoreError>)
        ensures
            final(self).follows(old(self)),
            pauses(
                old(self).model(),
                final(self).since(old(self)),
                final(self).model(),
                result,
            ),
            old(self).model().consistent() ==> final(self).model().consistent(),
    {
        let ghost s0 = *self;
        proof {
            self.lemma_follows_itself();
        }
        if self.state.playback.state != PlaybackStatus::Playing {
            return Err(
                CoreError::conflict(
                    "playback_not_playing",
                    "cannot pause while playback is not running",
                ),
            );
        }
        let reply = self.player_pause();
        let ghost step = PortStep::Playback { call: PlaybackCall::Pause, reply };
        match reply {
            Err(error) => return Err(CoreError::from(error)),
            Ok(_) => {},
        }
        self.state.playback.state = PlaybackStatus::Paused;
        let ghost origin = *self;
        let told = self.publish_playback_state_changed();
        let ghost events = seq![origin.model().playback_event()];
        let result = self.answer_change(told, None, Ghost(origin), Ghost(events));
        proof {
            self.lemma_call_first(&origin, &s0, step);
        }
        result
    }

    /// Pauses what plays, and plays otherwise.
    pub fn play_pause(&mut self) -> (result: Result<CommandReceipt, CoreError>)
        ensures
            final(self).follows(old(self)),
            toggles(
                old(self).model(),
                final(self).since(old(self)),
                final(self).model(),
                result,
            ),
            old(self).model().consistent() ==> final(self).model().consistent(),
    {
        match self.state.playback.state {
            PlaybackStatus::Playing => self.pause(),
            _ => self.play(),
        }
    }

    /// Stops playback.
    pub fn stop(&mut self) -> (result: Result<CommandReceipt, CoreError>)
        ensures
            final(self).follows(old(self)),
            stops(
                old(self).model(),
                final(self).since(old(self)),
                final(self).model(),
                result,
            ),
            old(self).model().consistent() ==> final(self).model().consistent(),
    {
        let ghost s0 = *self;
        let reply = self.player_stop();
        let ghost step = PortStep::Playback { call: PlaybackCall::Stop, reply };
        match reply {
            Err(error) => return Err(CoreError::from(error)),
            Ok(_) => {},
        }
        self.state.silence();
        self.state.normalize_queue_for_stop();
        let ghost origin = *self;
        let told = self.publish_playback_and_queue(QueueUpdateReason::CurrentChanged);
        let ghost events = seq![
                    origin.model().playback_event(),
                    origin.model().queue_event(QueueUpdateReason::CurrentChanged),
                ];
        let result = self.answer_change(told, None, Ghost(origin), Ghost(events));
        proof {
            self.lemma_call_first(&origin, &s0, step);
        }
        result
    }

    /// Goes to the next item; behind the last one playback stops.
    pub fn next(&mut self) -> (result: Result<CommandReceipt, CoreError>)
        ensures
            final(self).follows(old(self)),
            goes_on(
                old(self).model(),
                final(self).since(old(self)),
                final(self).model(),
                result,
            ),
            old(self).model().consistent() ==> final(self).model().consistent(),
    {
        let ghost s0 = *self;
        proof {
            self.lemma_follows_itself();
        }
        let len = self.state.queue.len();
        let index = match self.state.current_index() {
            Some(current) => {
                if current + 1 < len {
                    current + 1
                } else {
                    match self.stop() {
                        Err(error) => return Err(error),
                        Ok(inner) => {
                            let ghost s1 = *self;
                            let receipt = self.command_accepted(None, None);
                            proof {
                                self.lemma_follows_on(&s1, &s0);
                                let steps = self.since(&s0);
                                assert(steps.take(steps.len() - 2) =~= s1.since(&s0));
                                assert(steps.skip(steps.len() - 2) =~= self.since(&s1));
                                assert(stops(
                                    s0.model(),
                                    steps.take(steps.len() - 2),
                                    self.model(),
                                    Ok(inner),
                                ));
                            }
                            return Ok(receipt);
                        },
                    }
                }
            },
            None => {
                if self.state.queue.is_empty() {
                    return Err(
                        CoreError::conflict(
                            "queue_empty",
                            "cannot skip forward without queued items",
                        ),
                    );
                }
                0
            },
        };
        self.start_and_answer(index, 0)
    }

    /// Goes to the previous item.
    pub fn previous(&mut self) -> (result: Result<CommandReceipt, CoreError>)
        ensures
            final(self).follows(old(self)),
            goes_back(
                old(self).model(),
                final(self).since(old(self)),
                final(self).model(),
                result,
            ),
            old(self).model().consistent() ==> final(self).model().consistent(),
    {
        proof {
            self.lemma_follows_itself();
        }
        if self.state.queue.is_empty() {
            return Err(
                CoreError::conflict("queue_empty", "cannot skip backward without queued items"),
            );
        }
        let index = match self.state.current_index() {
            Some(current) => if current == 0 {
                0
            } else {
                current - 1
            },
            None => 0,
        };
        self.start_and_answer(index, 0)
    }

    /// Seeks in the current item.
    pub fn seek(&mut self, position_ms: u64) -> (result: Result<CommandReceipt, CoreError>)
        ensures
            final(self).follows(old(self)),
            seeks(
                old(self).model(),
                position_ms,
                final(self).since(old(self)),
                final(self).model(),
                result,
            ),
            old(self).model().consistent() ==> final(self).model().consistent(),
    {
        let ghost s0 = *self;
        proof {
            self.lemma_follows_itself();
        }
        if self.state.playback.current_queue_item_id.is_none() {
            return Err(
                CoreError::conflict("no_current_track", "cannot seek without a current track"),
            );
        }
        let reply = self.player_seek(position_ms);
        let ghost step = PortStep::Playback { call: PlaybackCall::Seek { position_ms }, reply };
        match reply {
            Err(error) => return Err(CoreError::from(error)),
            Ok(_) => {},
        }
        let ghost origin = *self;
        let told = self.note_position(position_ms);
        let ghost events = seq![CoreEventView::PlaybackPositionUpdated { position_ms }];
        let result = self.answer_change(told, None, Ghost(origin), Ghost(events));
        proof {
            self.lemma_call_first(&origin, &s0, step);
        }
        result
    }

    /// Sets the volume.
    pub fn set_volume(&mut self, volume_percent: u8) -> (result: Result<CommandReceipt, CoreError>)
        ensures
            final(self).follows(old(self)),
            sets_volume(
                old(self).model(),
                volume_percent,
                final(self).since(old(self)),
                final(self).model(),
                result,
            ),
            old(self).model().consistent() ==> final(self).model().consistent(),
    {
        let ghost s0 = *self;
        let audio = (AudioSettings { volume_percent }).clamped();
        let reply = self.player_set_volume(audio.volume_percent);
        let ghost step = PortStep::Playback {
            call: PlaybackCall::SetVolume { volume_percent: audio.volume_percent },
            reply,
        };
        match reply {
            Err(error) => return Err(CoreError::from(error)),
            Ok(_) => {},
        }
        self.state.audio = audio;
        let ghost origin = *self;
        proof {
            self.lemma_follows_itself();
        }
        let ghost events = Seq::<CoreEventView>::empty();
        let result = self.answer_change(Ok(()), None, Ghost(origin), Ghost(events));
        proof {
            self.lemma_call_first(&origin, &s0, step);
        }
        result
    }

    /// Takes over the output settings with which the player comes up.
    pub fn hydrate_audio_settings(&mut self, settings: AudioSettings) -> (result: Result<
        (),
        CoreError,
    >)
        ensures
            final(self).follows(old(self)),
            hydrates(
                old(self).model(),
                settings,
                final(self).since(old(self)),
                final(self).model(),
                result,
            ),
            old(self).model().consistent() ==> final(self).model().consistent(),
    {
        let audio = settings.clamped();
        match self.player_set_volume(audio.volume_percent) {
            Err(error) => Err(CoreError::from(error)),
            Ok(_) => {
                self.state.audio = audio;
                Ok(())
            },
        }
    }

    /// Notes that the item that was being loaded plays. Whether it was that item,
    /// in its session, that the news are of.
    pub fn confirm_playback_started(
        &mut self,
        playback_session_id: &str,
        queue_item_id: &str,
        position_ms: u64,
    ) -> (result: Result<bool, CoreError>)
        ensures
            final(self).follows(old(self)),
            confirms(
                old(self).model(),
                playback_session_id@,
                queue_item_id@,
                position_ms,
                final(self).since(old(self)),
                final(self).model(),
                result,
            ),
            old(self).model().consistent() ==> final(self).model().consistent(),
    {
        let ghost s0 = *self;
        proof {
            self.lemma_follows_itself();
        }
        if self.state.playback.state != PlaybackStatus::Loading || !crate::text::opt_eq(
            &self.state.playback.playback_session_id,
            playback_session_id,
        ) || !crate::text::opt_eq(&self.state.playback.current_queue_item_id, queue_item_id) {
            return Ok(false);
        }
        self.state.playback.state = PlaybackStatus::Playing;
        self.state.playback.position_ms = position_ms;
        match self.state.current_index() {
            Some(current) => self.state.apply_queue_statuses(current, QueueItemStatus::Playing),
            None => {},
        }
        assert(self.model() == s0.model().confirmed(position_ms));
        let ghost origin = *self;
        let ghost events = seq![
            origin.model().playback_event(),
            origin.model().queue_event(QueueUpdateReason::CurrentChanged),
        ];
        let told = self.publish_playback_and_queue(QueueUpdateReason::CurrentChanged);
        match self.tell_change(told, Ghost(origin), Ghost(events)) {
            Err(error) => Err(error),
            Ok(_) => Ok(true),
        }
    }

    /// Notes how far a session has come and tells of it. Whether it is the current
    /// session.
    pub fn report_playback_progress(&mut self, playback_session_id: &str, position_ms: u64) -> (
    result: Result<bool, CoreError>)
        ensures
            final(self).follows(old(self)),
            progresses(
                old(self).model(),
                playback_session_id@,
                position_ms,
                final(self).since(old(self)),
                final(self).model(),
                result,
            ),
            old(self).model().consistent() ==> final(self).model().consistent(),
    {
        proof {
            self.lemma_follows_itself();
        }
        let session = match &self.state.playback.playback_session_id {
            Some(session) => session.clone(),
            None => return Ok(false),
        };
        if !crate::text::str_eq(session.as_str(), playback_session_id) {
            return Ok(false);
        }
        self.state.playback.position_ms = position_ms;
        let event = PlaybackProgressEvent { playback_session_id: session, position_ms };
        match self.publish(CoreEventKind::PlaybackProgress, CoreEvent::PlaybackProgress(event)) {
            Err(error) => Err(error),
            Ok(_) => Ok(true),
        }
    }

    /// Notes the position of the current item and tells of it.
    pub fn note_position(&mut self, position_ms: u64) -> (result: Result<(), CoreError>)
        ensures
            final(self).follows(old(self)),
            notes_position(
                old(self).model(),
                position_ms,
                final(self).since(old(self)),
                final(self).model(),
                result,
            ),
            old(self).model().consistent() ==> final(self).model().consistent(),
    {
        self.state.playback.position_ms = position_ms;
        self.publish(
            CoreEventKind::PlaybackPositionUpdated,
            CoreEvent::PlaybackPositionUpdated(PlaybackPositionUpdatedEvent { position_ms }),
        )
    }

    /// Goes on after the current item has come to its end.
    pub fn finish_current_track(&mut self) -> (result: Result<(), CoreError>)
        ensures
            final(self).follows(old(self)),
            finishes(
                old(self).model(),
                final(self).since(old(self)),
                final(self).model(),
                result,
            ),
            old(self).model().consistent() ==> final(self).model().consistent(),
    {
        let ghost s0 = *self;
        proof {
            self.lemma_follows_itself();
        }
        let current = match self.state.current_index() {
            Some(current) => current,
            None => return Ok(()),
        };
        let mut item = self.state.queue[current].clone();
        item.status = QueueItemStatus::Finished;
        self.state.queue.set(current, item);
        let ghost marked = *self;
        assert(marked.model() == s0.model().finished(current as int));
        let len = self.state.queue.len();
        if current + 1 < len {
            self.start_track(current + 1, 0)
        } else {
            let reply = self.player_stop();
            let ghost step = PortStep::Playback { call: PlaybackCall::Stop, reply };
            match reply {
                Err(error) => return Err(CoreError::from(error)),
                Ok(_) => {},
            }
            self.state.silence();
            self.state.normalize_queue_for_stop();
            let ghost origin = *self;
            let told = self.publish_playback_and_queue(QueueUpdateReason::CurrentChanged);
            let ghost events = seq![
                origin.model().playback_event(),
                origin.model().queue_event(QueueUpdateReason::CurrentChanged),
            ];
            let told = self.tell_change(told, Ghost(origin), Ghost(events));
            proof {
                self.lemma_call_first(&origin, &s0, step);
            }
            told
        }
    }

    // -- queue commands --------------------------------------------------------

    /// Adds the song with the given id that a search has found.
    pub fn enqueue_song_by_id(&mut self, song_id: &str) -> (result: Result<
        CommandReceipt,
        CoreError,
    >)
        ensures
            final(self).follows(old(self)),
            enqueues_found(
                old(self).model(),
                song_id@,
                final(self).since(old(self)),
                final(self).model(),
                result,
            ),
            old(self).model().consistent() ==> final(self).model().consistent(),
    {
        proof {
            self.lemma_follows_itself();
        }
        match self.state.find_song(song_id) {
            Some(song) => self.enqueue_song(song),
            None => Err(CoreError::not_found("song", song_id)),
        }
    }

    /// Has the item at `index` loaded where nothing is current.
    fn load_if_idle(&mut self, index: usize) -> (loaded: bool)
        requires
            index < old(self).model().queue.len(),
        ensures
            final(self).follows(old(self)),
            loads(
                old(self).model(),
                index as int,
                final(self).since(old(self)),
                final(self).model(),
            ),
            loaded == has_loaded(old(self).model(), final(self).model()),
    {
        let ghost s0 = *self;
        if self.state.playback.current_queue_item_id.is_some() {
            proof {
                self.lemma_follows_itself();
            }
            return false;
        }
        let mut item = self.state.queue[index].clone();
        let session = self.new_id(IdKind::PlaybackSession);
        let ghost s1 = *self;
        let reply = self.player_start(&item, session.as_str(), 0);
        proof {
            self.lemma_follows_on(&s1, &s0);
        }
        if reply.is_err() {
            return false;
        }
        self.state.playback.state = PlaybackStatus::Loading;
        self.state.playback.position_ms = 0;
        self.state.playback.current_queue_item_id = Some(item.id.clone());
        self.state.playback.playback_session_id = Some(session);
        item.status = QueueItemStatus::Loading;
        self.state.queue.set(index, item);
        assert(self.model() == s0.model().loading(index as int, session));
        true
    }

    /// Tells of items that were added.
    fn publish_added(&mut self, index: usize, loaded: bool) -> (result: Result<(), CoreError>)
        requires
            index < old(self).model().queue.len(),
        ensures
            final(self).follows(old(self)),
            reports(
                final(self).since(old(self)),
                old(self).model().add_events(index as int, loaded),
                failure(result),
            ),
            final(self).state == old(self).state,
    {
        let ghost s0 = *self;
        let ghost item = s0.model().queue[index as int];
        let ghost e1 = seq![s0.model().queue_event(QueueUpdateReason::Add)];
        let ghost e2 = seq![
            CoreEventView::PlaybackTrackChanged { queue_item_id: item.id, song: item.song },
        ];
        let ghost e3 = seq![s0.model().playback_event()];
        let first = self.publish_queue_updated(QueueUpdateReason::Add);
        if !loaded {
            return first;
        }
        assert(e1 + (e2 + e3) =~= s0.model().add_events(index as int, true));
        if first.is_err() {
            proof {
                lemma_reports_broken(self.since(&s0), e1, e2 + e3, failure(first));
            }
            return first;
        }
        let ghost s1 = *self;
        let event = PlaybackTrackChangedEvent {
            queue_item_id: self.state.queue[index].id.clone(),
            song: self.state.queue[index].song.clone(),
        };
        let second = self.publish(
            CoreEventKind::PlaybackTrackChanged,
            CoreEvent::PlaybackTrackChanged(event),
        );
        let ghost s2 = *self;
        proof {
            s2.lemma_follows_on(&s1, &s0);
        }
        if second.is_err() {
            proof {
                lemma_reports_broken(s2.since(&s1), e2, e3, failure(second));
                lemma_reports_on(
                    s1.since(&s0),
                    e1,
                    s2.since(&s1),
                    e2 + e3,
                    failure(second),
                );
            }
            return second;
        }
        let third = self.publish_playback_state_changed();
        proof {
            self.lemma_follows_on(&s2, &s1);
            self.lemma_follows_on(&s1, &s0);
            lemma_reports_on(s2.since(&s1), e2, self.since(&s2), e3, failure(third));
            lemma_reports_on(s1.since(&s0), e1, self.since(&s1), e2 + e3, failure(third));
        }
        third
    }

    /// Adds a song at the end of the queue, and has it loaded where nothing is
    /// current.
    pub fn enqueue_song(&mut self, song: Song) -> (result: Result<CommandReceipt, CoreError>)
        ensures
            final(self).follows(old(self)),
            enqueues(
                old(self).model(),
                song,
                final(self).since(old(self)),
                final(self).model(),
                result,
            ),
            old(self).model().consistent() ==> final(self).model().consistent(),
    {
        let ghost s0 = *self;
        let id = self.new_id(IdKind::QueueItem);
        let ghost s1 = *self;
        let added_at = self.read_clock();
        proof {
            self.lemma_follows_on(&s1, &s0);
        }
        let queue_item_id = id.clone();
        let index = self.state.queue.len();
        let item = QueueItem { id, song, added_at, status: QueueItemStatus::Queued };
        self.state.queue.push(item);
        let ghost s2 = *self;
        assert(s2.model() == s0.model().with_queue(s0.model().queue.push(item)));
        let loaded = self.load_if_idle(index);
        let ghost origin = *self;
        proof {
            origin.lemma_follows_on(&s2, &s0);
        }
        let told = self.publish_added(index, loaded);
        let ghost events = origin.model().add_events(index as int, loaded);
        let result = self.answer_change(told, Some(queue_item_id), Ghost(origin), Ghost(events));
        proof {
            self.lemma_calls_first(&origin, &s0);
            let steps = self.since(&s0);
            let n = 2 + load_calls(s0.model());
            assert(origin.since(&s0).len() == n);
            assert(forall|k: int| 0 <= k < n ==> #[trigger] steps[k] == steps.take(n)[k]);
            assert(steps.subrange(2, n) =~= origin.since(&s2));
        }
        result
    }

    /// Removes an item. The current one stays where it is.
    pub fn remove_queue_item(&mut self, queue_item_id: &str) -> (result: Result<
        CommandReceipt,
        CoreError,
    >)
        ensures
            final(self).follows(old(self)),
            removes(
                old(self).model(),
                queue_item_id@,
                final(self).since(old(self)),
                final(self).model(),
                result,
            ),
            old(self).model().consistent() ==> final(self).model().consistent(),
    {
        let ghost s0 = *self;
        proof {
            self.lemma_follows_itself();
        }
        let index = match self.state.index_of(queue_item_id) {
            Some(index) => index,
            None => return Err(CoreError::not_found("queue_item", queue_item_id)),
        };
        if crate::text::opt_eq(&self.state.playback.current_queue_item_id, queue_item_id) {
            return Err(
                CoreError::conflict(
                    "current_queue_item_not_removable",
                    "the currently playing item cannot be removed",
                ),
            );
        }
        self.state.queue.remove(index);
        let ghost origin = *self;
        assert(origin.model() == s0.model().with_queue(s0.model().queue.remove(index as int)));
        let told = self.publish_queue_updated(QueueUpdateReason::Remove);
        let ghost events = seq![origin.model().queue_event(QueueUpdateReason::Remove)];
        self.answer_change(told, None, Ghost(origin), Ghost(events))
    }

    /// Moves an item to another position of the queue.
    pub fn move_queue_item(&mut self, queue_item_id: &str, to_index: u64) -> (result: Result<
        CommandReceipt,
        CoreError,
    >)
        ensures
            final(self).follows(old(self)),
            moves(
                old(self).model(),
                queue_item_id@,
                to_index,
                final(self).since(old(self)),
                final(self).model(),
                result,
            ),
            old(self).model().consistent() ==> final(self).model().consistent(),
    {
        let ghost s0 = *self;
        proof {
            self.lemma_follows_itself();
        }
        let from = match self.state.index_of(queue_item_id) {
            Some(index) => index,
            None => return Err(CoreError::not_found("queue_item", queue_item_id)),
        };
        if to_index > usize::MAX as u64 {
            return Err(
                CoreError::validation("index_out_of_range", "queue move target index is too large"),
            );
        }
        let target = to_index as usize;
        if target >= self.state.queue.len() {
            return Err(
                CoreError::validation(
                    "index_out_of_range",
                    "queue move target index is out of range",
                ),
            );
        }
        let item = self.state.queue.remove(from);
        self.state.queue.insert(target, item);
        assert(self.state.queue@ =~= crate::core_state::moved(
            s0.model().queue,
            from as int,
            target as int,
        ));
        let status = if self.state.playback.state == PlaybackStatus::Loading {
            QueueItemStatus::Loading
        } else {
            QueueItemStatus::Playing
        };
        match self.state.current_index() {
            Some(current) => self.state.apply_queue_statuses(current, status),
            None => {},
        }
        let ghost origin = *self;
        assert(origin.model() == s0.model().rearranged(from as int, target as int));
        let told = self.publish_queue_updated(QueueUpdateReason::Move);
        let ghost events = seq![origin.model().queue_event(QueueUpdateReason::Move)];
        self.answer_change(told, None, Ghost(origin), Ghost(events))
    }

    /// Empties the queue and stops playback.
    pub fn clear_queue(&mut self) -> (result: Result<CommandReceipt, CoreError>)
        ensures
            final(self).follows(old(self)),
            clears(
                old(self).model(),
                final(self).since(old(self)),
                final(self).model(),
                result,
            ),
            old(self).model().consistent() ==> final(self).model().consistent(),
    {
        let ghost s0 = *self;
        self.state.queue.clear();
        assert(self.model() == s0.model().with_queue(Seq::empty()));
        let reply = self.player_stop();
        let ghost step = PortStep::Playback { call: PlaybackCall::Stop, reply };
        match reply {
            Err(error) => return Err(CoreError::from(error)),
            Ok(_) => {},
        }
        self.state.silence();
        let ghost origin = *self;
        let told = self.publish_playback_and_queue(QueueUpdateReason::Clear);
        let ghost events = seq![
            origin.model().playback_event(),
            origin.model().queue_event(QueueUpdateReason::Clear),
        ];
        let result = self.answer_change(told, None, Ghost(origin), Ghost(events));
        proof {
            self.lemma_call_first(&origin, &s0, step);
        }
        result
    }

    // -- searches --------------------------------------------------------------

    /// Submits a search.
    pub fn submit_search(&mut self, query: &str) -> (result: Result<CommandReceipt, CoreError>)
        ensures
            final(self).follows(old(self)),
            submits(
                old(self).model(),
                query@,
                final(self).since(old(self)),
                final(self).model(),
                result,
            ),
            old(self).model().consistent() ==> final(self).model().consistent(),
    {
        let ghost s0 = *self;
        proof {
            self.lemma_follows_itself();
        }
        let query = crate::text::trim(query);
        if query.as_str().is_empty() {
            return Err(CoreError::validation("query_empty", "search query must not be empty"));
        }
        let job_id = self.new_id(IdKind::SearchJob);
        let ghost s1 = *self;
        let reply = self.searcher_start(job_id.as_str(), query.as_str());
        let ghost s2 = *self;
        proof {
            s2.lemma_follows_on(&s1, &s0);
        }
        match reply {
            Err(error) => return Err(CoreError::from(error)),
            Ok(_) => {},
        }
        let created_at = self.read_clock();
        proof {
            self.lemma_follows_on(&s2, &s0);
        }
        let job = SearchJobRecord {
            job_id: job_id.clone(),
            status: SearchJobStatus::Running,
            query,
            created_at,
            completed_at: None,
            result_count: None,
        };
        let copy = job.clone();
        self.state.search_jobs.push(job);
        let ghost origin = *self;
        let told = self.publish(
            CoreEventKind::SearchJobStarted,
            CoreEvent::SearchJobStarted(copy),
        );
        let ghost events = seq![CoreEventView::SearchJobStarted(copy)];
        let result = self.answer(told, Some(job_id), Ghost(origin), Ghost(events));
        proof {
            self.lemma_follows_on(&origin, &s0);
            assert(self.since(&s0).skip(3) =~= self.since(&origin));
            assert(self.model().search_jobs.last() == job);
        }
        result
    }

    /// Puts the results of a search on record.
    pub fn complete_search(&mut self, job_id: &str, results: Vec<Song>) -> (result: Result<
        (),
        CoreError,
    >)
        ensures
            final(self).follows(old(self)),
            completes(
                old(self).model(),
                job_id@,
                results,
                final(self).since(old(self)),
                final(self).model(),
                result,
            ),
            old(self).model().consistent() ==> final(self).model().consistent(),
    {
        let ghost s0 = *self;
        let completed_at = self.read_clock();
        let ghost step = PortStep::ReadClock { now: completed_at };
        let result_count = results.len() as u64;
        let index = match self.state.job_index(job_id) {
            Some(index) => index,
            None => return Err(CoreError::not_found("search_job", job_id)),
        };
        let mut job = self.state.search_jobs[index].clone();
        job.status = SearchJobStatus::Completed;
        job.completed_at = Some(completed_at);
        job.result_count = Some(result_count);
        let told_job = job.clone();
        self.state.search_jobs.set(index, job);
        let told_results = crate::domain::clone_songs(&results);
        self.state.search_results.insert(job_id.to_owned(), results);
        let ghost origin = *self;
        let told = self.publish(
            CoreEventKind::SearchJobCompleted,
            CoreEvent::SearchJobCompleted(
                SearchJobCompletedEvent { job: told_job, results: told_results },
            ),
        );
        proof {
            self.lemma_call_first(&origin, &s0, step);
        }
        told
    }

    /// Puts the failure of a search on record.
    pub fn fail_search(&mut self, job_id: &str, code: &str, message: &str) -> (result: Result<
        (),
        CoreError,
    >)
        ensures
            final(self).follows(old(self)),
            fails(
                old(self).model(),
                job_id@,
                code@,
                message@,
                final(self).since(old(self)),
                final(self).model(),
                result,
            ),
            old(self).model().consistent() ==> final(self).model().consistent(),
    {
        let ghost s0 = *self;
        let completed_at = self.read_clock();
        let ghost step = PortStep::ReadClock { now: completed_at };
        let index = match self.state.job_index(job_id) {
            Some(index) => index,
            None => return Err(CoreError::not_found("search_job", job_id)),
        };
        if self.state.search_jobs[index].status != SearchJobStatus::Running {
            return Err(
                CoreError::conflict(
                    "search_job_not_running",
                    "cannot fail a search job that is no longer running",
                ),
            );
        }
        let mut job = self.state.search_jobs[index].clone();
        job.status = SearchJobStatus::Failed;
        job.completed_at = Some(completed_at);
        job.result_count = None;
        self.state.search_jobs.set(index, job);
        let ghost origin = *self;
        let told = self.publish(
            CoreEventKind::SearchJobFailed,
            CoreEvent::SearchJobFailed(
                SearchJobFailedEvent {
                    job_id: job_id.to_owned(),
                    code: code.to_owned(),
                    message: message.to_owned(),
                },
            ),
        );
        proof {
            self.lemma_call_first(&origin, &s0, step);
        }
        told
    }

    // -- imports ---------------------------------------------------------------

    /// Submits the import of a canonical URL.
    pub fn submit_youtube_import(&mut self, canonical_url: &str) -> (result: Result<
        CommandReceipt,
        CoreError,
    >)
        ensures
            final(self).follows(old(self)),
            submits_import(
                old(self).model(),
                canonical_url@,
                final(self).since(old(self)),
                final(self).model(),
                result,
            ),
            old(self).model().consistent() ==> final(self).model().consistent(),
    {
        let ghost s0 = *self;
        let job_id = self.new_id(IdKind::SearchJob);
        let ghost s1 = *self;
        let reply = self.searcher_import(job_id.as_str(), canonical_url);
        let ghost s2 = *self;
        proof {
            s2.lemma_follows_on(&s1, &s0);
        }
        match reply {
            Err(error) => return Err(CoreError::from(error)),
            Ok(_) => {},
        }
        let created_at = self.read_clock();
        proof {
            self.lemma_follows_on(&s2, &s0);
        }
        let job = YoutubeImportJobRecord {
            job_id: job_id.clone(),
            status: YoutubeImportJobStatus::Running,
            url: canonical_url.to_owned(),
            total_count: 0,
            queued_count: 0,
            failed_count: 0,
            created_at,
            completed_at: None,
            error_code: None,
            error_message: None,
        };
        let copy = job.clone();
        self.state.youtube_import_jobs.push(job);
        let ghost origin = *self;
        let told = self.publish(
            CoreEventKind::YoutubeImportStarted,
            CoreEvent::YoutubeImportStarted(copy),
        );
        let ghost events = seq![CoreEventView::YoutubeImportStarted(copy)];
        let result = self.answer(told, Some(job_id), Ghost(origin), Ghost(events));
        proof {
            self.lemma_calls_first(&origin, &s0);
            let steps = self.since(&s0);
            assert(forall|k: int| 0 <= k < 3 ==> #[trigger] steps[k] == steps.take(3)[k]);
            assert(self.model().youtube_import_jobs.last() == job);
        }
        result
    }

    /// Makes an item of each song, under new ids, and appends them to the queue.
    fn append_songs(&mut self, songs: &Vec<Song>)
        ensures
            final(self).follows(old(self)),
            final(self).since(old(self)).len() == 2 * songs@.len(),
            draws_items(final(self).since(old(self)), songs@.len()),
            final(self).model() == old(self).model().with_queue(
                old(self).model().queue + drawn_items(final(self).since(old(self)), songs@),
            ),
    {
        let ghost s0 = *self;
        proof {
            self.lemma_follows_itself();
            assert(s0.model().queue + drawn_items(self.since(&s0), songs@.take(0))
                =~= s0.model().queue);
        }
        for i in 0..songs.len()
            invariant
                s0 == *old(self),
                self.follows(&s0),
                self.since(&s0).len() == 2 * i,
                draws_items(self.since(&s0), i as nat),
                self.model() == s0.model().with_queue(
                    s0.model().queue + drawn_items(self.since(&s0), songs@.take(i as int)),
                ),
        {
            let ghost s1 = *self;
            let id = self.new_id(IdKind::QueueItem);
            let ghost s2 = *self;
            let added_at = self.read_clock();
            let ghost s3 = *self;
            let song = songs[i].clone();
            self.state.queue.push(
                QueueItem { id, song, added_at, status: QueueItemStatus::Queued },
            );
            proof {
                s3.lemma_follows_on(&s2, &s1);
                s3.lemma_follows_on(&s1, &s0);
                let earlier = s1.since(&s0);
                let steps = self.since(&s0);
                assert(self.follows(&s0));
                assert(steps == s3.since(&s0));
                assert(steps[2 * i as int] == (PortStep::NewId { kind: IdKind::QueueItem, id }));
                assert(steps[2 * i + 1] == (PortStep::ReadClock { now: added_at }));
                assert forall|k: int| 0 <= k < i + 1 implies {
                    &&& #[trigger] steps[2 * k] matches PortStep::NewId { kind, id }
                    &&& kind == IdKind::QueueItem
                    &&& steps[2 * k + 1] is ReadClock
                } by {
                    if k < i {
                        assert(steps[2 * k] == earlier[2 * k]);
                        assert(steps[2 * k + 1] == earlier[2 * k + 1]);
                    }
                }
                let before = drawn_items(earlier, songs@.take(i as int));
                let after = drawn_items(steps, songs@.take(i + 1));
                assert forall|k: int| 0 <= k < i implies after[k] == #[trigger] before[k] by {
                    assert(steps[2 * k] == earlier[2 * k]);
                    assert(steps[2 * k + 1] == earlier[2 * k + 1]);
                }
                assert(self.model().queue =~= s0.model().queue + after);
            }
        }
        assert(songs@.take(songs@.len() as int) =~= songs@);
    }

    /// Takes the songs of an import over into the queue and puts its end on record.
    pub fn complete_youtube_import(
        &mut self,
        job_id: &str,
        songs: Vec<Song>,
        total_count: u64,
        failed_count: u64,
    ) -> (result: Result<(), CoreError>)
        ensures
            final(self).follows(old(self)),
            completes_import(
                old(self).model(),
                job_id@,
                songs@,
                total_count,
                failed_count,
                final(self).since(old(self)),
                final(self).model(),
                result,
            ),
            old(self).model().consistent() ==> final(self).model().consistent(),
    {
        let ghost s0 = *self;
        proof {
            self.lemma_follows_itself();
        }
        let index = match self.state.import_index(job_id) {
            Some(index) => index,
            None => return Err(CoreError::not_found("youtube_import_job", job_id)),
        };
        if songs.is_empty() {
            return Err(
                CoreError::conflict(
                    "youtube_import_empty",
                    "cannot complete an import without songs",
                ),
            );
        }
        let first_index = self.state.queue.len();
        self.append_songs(&songs);
        let ghost s1 = *self;
        let completed_at = self.read_clock();
        let mut job = self.state.youtube_import_jobs[index].clone();
        job.status = YoutubeImportJobStatus::Completed;
        job.total_count = total_count;
        job.queued_count = songs.len() as u64;
        job.failed_count = failed_count;
        job.completed_at = Some(completed_at);
        job.error_code = None;
        job.error_message = None;
        let told_job = job.clone();
        self.state.youtube_import_jobs.set(index, job);
        let ghost s3 = *self;
        proof {
            s3.lemma_follows_on(&s1, &s0);
        }
        let loaded = self.load_if_idle(first_index);
        let ghost origin = *self;
        proof {
            origin.lemma_follows_on(&s3, &s0);
        }
        let ghost first = origin.model().add_events(first_index as int, loaded);
        let ghost second = seq![CoreEventView::YoutubeImportCompleted(job)];
        let ghost events = first.push(CoreEventView::YoutubeImportCompleted(job));
        let queue_told = self.publish_added(first_index, loaded);
        let ghost s2 = *self;
        assert(first + second =~= events);
        let result = match queue_told {
            Err(error) => {
                proof {
                    lemma_reports_broken(s2.since(&origin), first, second, Some(error@));
                }
                Err(error)
            },
            Ok(_) => {
                let told = self.publish(
                    CoreEventKind::YoutubeImportCompleted,
                    CoreEvent::YoutubeImportCompleted(
                        YoutubeImportCompletedEvent { job: told_job },
                    ),
                );
                proof {
                    self.lemma_follows_on(&s2, &origin);
                    lemma_reports_on(
                        s2.since(&origin),
                        first,
                        self.since(&s2),
                        second,
                        failure(told),
                    );
                }
                told
            },
        };
        let result = self.tell_change(result, Ghost(origin), Ghost(events));
        proof {
            self.lemma_calls_first(&origin, &s0);
            let steps = self.since(&s0);
            let drawn = s1.since(&s0);
            let n = songs@.len() as int;
            let told = 2 * n + 1 + load_calls(s0.model());
            let noted = s3.since(&s0);
            assert(noted == drawn + seq![PortStep::ReadClock { now: completed_at }]);
            assert(origin.since(&s0) == noted + origin.since(&s3));
            assert(origin.since(&s0).len() == told);
            assert forall|k: int| 0 <= k < told implies #[trigger] steps[k] == origin.since(&s0)[k] by {
                assert(steps.take(told)[k] == steps[k]);
            }
            assert forall|k: int| 0 <= k < 2 * n implies #[trigger] steps[k] == drawn[k] by {
                assert(noted[k] == drawn[k]);
            }
            assert(steps[2 * n] == noted[2 * n]);
            assert(steps.subrange(2 * n + 1, told) =~= origin.since(&s3));
            assert(drawn_items(steps, songs@) =~= drawn_items(drawn, songs@));
        }
        result
    }

    /// Puts the failure of an import on record.
    pub fn fail_youtube_import(&mut self, job_id: &str, code: &str, message: &str) -> (result:
        Result<(), CoreError>)
        ensures
            final(self).follows(old(self)),
            fails_import(
                old(self).model(),
                job_id@,
                code@,
                message@,
                final(self).since(old(self)),
                final(self).model(),
                result,
            ),
            old(self).model().consistent() ==> final(self).model().consistent(),
    {
        let ghost s0 = *self;
        proof {
            self.lemma_follows_itself();
        }
        let index = match self.state.import_index(job_id) {
            Some(index) => index,
            None => return Err(CoreError::not_found("youtube_import_job", job_id)),
        };
        let completed_at = self.read_clock();
        let ghost step = PortStep::ReadClock { now: completed_at };
        let mut job = self.state.youtube_import_jobs[index].clone();
        job.status = YoutubeImportJobStatus::Failed;
        job.completed_at = Some(completed_at);
        job.error_code = Some(code.to_owned());
        job.error_message = Some(message.to_owned());
        self.state.youtube_import_jobs.set(index, job);
        let ghost origin = *self;
        let told = self.publish(
            CoreEventKind::YoutubeImportFailed,
            CoreEvent::YoutubeImportFailed(
                YoutubeImportFailedEvent {
                    job_id: job_id.to_owned(),
                    code: code.to_owned(),
                    message: message.to_owned(),
                },
            ),
        );
        proof {
            self.lemma_call_first(&origin, &s0, step);
        }
        told
    }

    // -- the rest --------------------------------------------------------------

    /// Tells subscribers of an error.
    pub fn emit_system_error(
        &mut self,
        code: &str,
        message: &str,
        severity: SystemErrorSeverity,
    ) -> (result: Result<(), CoreError>)
        ensures
            final(self).follows(old(self)),
            final(self).model() == old(self).model(),
            tells_error(code@, message@, severity, final(self).since(old(self)), result),
    {
        self.publish(
            CoreEventKind::SystemError,
            CoreEvent::SystemError(
                SystemErrorEvent { code: code.to_owned(), message: message.to_owned(), severity },
            ),
        )
    }

    /// The whole state at this moment, under a new id. The orchestrator counts no
    /// revisions of its own.
    pub fn snapshot(&mut self) -> (snapshot: CoreSnapshot)
        ensures
            final(self).follows(old(self)),
            final(self).model() == old(self).model(),
            takes_snapshot(old(self).model(), final(self).since(old(self)), snapshot),
    {
        let ghost s0 = *self;
        let current_song = match self.state.current_index() {
            Some(index) => Some(self.state.queue[index].song.clone()),
            None => None,
        };
        let snapshot_id = self.new_id(IdKind::Snapshot);
        let ghost s1 = *self;
        let timestamp = self.read_clock();
        proof {
            self.lemma_follows_on(&s1, &s0);
            assert(self.since(&s0) =~= seq![
                PortStep::NewId { kind: IdKind::Snapshot, id: snapshot_id },
                PortStep::ReadClock { now: timestamp },
            ]);
        }
        CoreSnapshot {
            backend: self.state.backend.clone(),
            playback: self.state.playback.clone(),
            audio: self.state.audio,
            current_song,
            queue: clone_items(&self.state.queue),
            search_jobs: clone_jobs(&self.state.search_jobs),
            youtube_import_jobs: clone_imports(&self.state.youtube_import_jobs),
            revision: 0,
            snapshot_id,
            timestamp,
        }
    }

    /// Tells of the whole state.
    fn publish_state_updated(&mut self) -> (result: Result<(), CoreError>)
        ensures
            final(self).follows(old(self)),
            tells_state(
                final(self).since(old(self)),
                old(self).model(),
                failure(result),
            ),
            final(self).model() == old(self).model(),
    {
        let ghost s0 = *self;
        let snapshot = self.snapshot();
        let ghost s1 = *self;
        let result = self.publish(
            CoreEventKind::StateUpdated,
            CoreEvent::StateUpdated(StateUpdatedEvent { snapshot }),
        );
        proof {
            self.lemma_follows_on(&s1, &s0);
            assert(self.since(&s0).skip(2) =~= self.since(&s1));
        }
        result
    }

    /// The results of a search that has completed.
    pub fn search_results(&self, job_id: &str) -> (found: Option<SearchResultsRecord>)
        ensures
            finds_results(self.model(), job_id@, found),
    {
        let job = match self.state.job_index(job_id) {
            Some(index) => self.state.search_jobs[index].clone(),
            None => return None,
        };
        match self.state.search_results.get(job_id) {
            Some(results) => Some(
                SearchResultsRecord { job, results: crate::domain::clone_songs(results) },
            ),
            None => None,
        }
    }

    /// The publisher, to be read or set up.
    pub fn event_port(&mut self) -> (port: &mut E)
        ensures
            *port == old(self).ports().events,
            final(self).ports() == (Ports { events: *final(port), ..old(self).ports() }),
            final(self).journal() == old(self).journal(),
            final(self).model() == old(self).model(),
    {
        &mut self.events
    }

    /// The player, to be read or set up.
    pub fn playback_port(&mut self) -> (port: &mut P)
        ensures
            *port == old(self).ports().playback,
            final(self).ports() == (Ports { playback: *final(port), ..old(self).ports() }),
            final(self).journal() == old(self).journal(),
            final(self).model() == old(self).model(),
    {
        &mut self.playback
    }

    /// The searcher, to be read or set up.
    pub fn search_port(&mut self) -> (port: &mut S)
        ensures
            *port == old(self).ports().search,
            final(self).ports() == (Ports { search: *final(port), ..old(self).ports() }),
            final(self).journal() == old(self).journal(),
            final(self).model() == old(self).model(),
    {
        &mut self.search
    }

    pub fn state(&self) -> (state: &OrchestratorState)
        ensures
            state@ == self.model(),
    {
        &self.state
    }

    pub fn queue(&self) -> (queue: &[QueueItem])
        ensures
            queue@ == self.model().queue,
    {
        self.state.queue.as_slice()
    }

    pub fn search_jobs(&self) -> (jobs: &[SearchJobRecord])
        ensures
            jobs@ == self.model().search_jobs,
    {
        self.state.search_jobs.as_slice()
    }

    pub fn youtube_import_jobs(&self) -> (jobs: &[YoutubeImportJobRecord])
        ensures
            jobs@ == self.model().youtube_import_jobs,
    {
        self.state.youtube_import_jobs.as_slice()
    }

    pub fn set_backend_ready(&mut self, ready: bool)
        ensures
            final(self).ports() == old(self).ports(),
            final(self).journal() == old(self).journal(),
            final(self).model() == (CoreStateView {
                backend: BackendState { ready, ..old(self).model().backend },
                ..old(self).model()
            }),
    {
        self.state.backend.ready = ready;
    }

    pub fn set_backend_version(&mut self, version: Option<String>)
        ensures
            final(self).ports() == old(self).ports(),
            final(self).journal() == old(self).journal(),
            final(self).model() == (CoreStateView {
                backend: BackendState { version, ..old(self).model().backend },
                ..old(self).model()
            }),
    {
        self.state.backend.version = version;
    }

    /// Notes the version of yt-dlp with which the player comes up.
    pub fn set_yt_dlp_version(&mut self, version: Option<String>)
        ensures
            final(self).ports() == old(self).ports(),
            final(self).journal() == old(self).journal(),
            final(self).model() == (CoreStateView {
                backend: BackendState { yt_dlp_version: version, ..old(self).model().backend },
                ..old(self).model()
            }),
    {
        self.state.backend.yt_dlp_version = version;
    }

    /// Notes another version of yt-dlp and tells of it.
    pub fn update_yt_dlp_version(&mut self, version: Option<String>) -> (result: Result<
        (),
        CoreError,
    >)
        ensures
            final(self).follows(old(self)),
            final(self).model() == (CoreStateView {
                backend: BackendState { yt_dlp_version: version, ..old(self).model().backend },
                ..old(self).model()
            }),
            tells_state(
                final(self).since(old(self)),
                final(self).model(),
                failure(result),
            ),
    {
        self.set_yt_dlp_version(version);
        self.publish_state_updated()
    }
}

} // verus!
