//! What the terminal client asks of the backend, and what it makes of the
//! answers.

use vstd::prelude::*;

use crate::api::{
    CommandAccepted, PlaybackProgress, ProblemDetails, SearchJobCompleted, SearchJobFailed,
    SearchJobSummary, SearchResultsResponse, StateSnapshot, SystemError,
};
use crate::domain::Song;
use crate::text::str_eq;

verus! {

pub const EVENT_CURSOR_NOT_FOUND_TYPE: &'static str = "https://nocturne.local/problems/event-cursor-not-found";

/// How often a starting backend is asked whether it is ready.
pub const READY_ATTEMPTS: u64 = 50;

// ---------------------------------------------------------------------------
// Messages
// ---------------------------------------------------------------------------

/// Something that the user wants of the backend.
#[derive(Debug, PartialEq, Eq)]
pub enum CommandAction {
    Search(String),
    AddSong(String),
    PlayPause,
    Next,
    Previous,
    SetVolume(u8),
    RemoveQueueItem(String),
}

/// The contents of a [`CommandAction`].
#[verifier::ext_equal]
pub enum CommandActionView {
    Search(Seq<char>),
    AddSong(Seq<char>),
    PlayPause,
    Next,
    Previous,
    SetVolume(u8),
    RemoveQueueItem(Seq<char>),
}

impl View for CommandAction {
    type V = CommandActionView;

    open spec fn view(&self) -> CommandActionView {
        match *self {
            CommandAction::Search(query) => CommandActionView::Search(query@),
            CommandAction::AddSong(song_id) => CommandActionView::AddSong(song_id@),
            CommandAction::PlayPause => CommandActionView::PlayPause,
            CommandAction::Next => CommandActionView::Next,
            CommandAction::Previous => CommandActionView::Previous,
            CommandAction::SetVolume(volume_percent) => CommandActionView::SetVolume(
                volume_percent,
            ),
            CommandAction::RemoveQueueItem(id) => CommandActionView::RemoveQueueItem(id@),
        }
    }
}

/// What an accepted command means for the user.
#[derive(Debug, PartialEq, Eq)]
pub enum CommandOutcome {
    StatusMessage(String),
    SearchSubmitted { job_id: String, query: String },
    SongQueued(String),
}

/// What came of asking for the results of a search.
#[derive(Debug, PartialEq, Eq)]
pub enum SearchResultsOutcome {
    Loaded { job: SearchJobSummary, results: Vec<Song> },
    Failed { job_id: String, message: String },
}

/// An event of the backend.
#[derive(Debug)]
pub struct BackendEvent {
    pub event_id: String,
    pub kind: BackendEventKind,
}

/// The events that the client knows.
#[derive(Debug)]
pub enum BackendEventKind {
    StateUpdated(StateSnapshot),
    PlaybackProgress(PlaybackProgress),
    SearchJobStarted(SearchJobSummary),
    SearchJobCompleted(SearchJobCompleted),
    SearchJobFailed(SearchJobFailed),
    SystemError(SystemError),
}

/// A whole state, and the event behind which it was taken.
#[derive(Debug)]
pub struct SnapshotSeed {
    pub snapshot: StateSnapshot,
    pub current_event_id: Option<String>,
}

/// A failure of the client.
#[derive(Debug)]
pub struct TuiError {
    message: String,
}

impl TuiError {
    /// What the failure says.
    pub closed spec fn spec_message(&self) -> Seq<char> {
        self.message@
    }

    pub fn new(message: String) -> (error: Self)
        ensures
            error.spec_message() == message@,
    {
        TuiError { message }
    }

    /// The failure on one line.
    pub fn describe(&self) -> (text: &str)
        ensures
            text@ == self.spec_message(),
    {
        self.message.as_str()
    }
}

fn say(head: &str, tail: &str) -> (text: String)
    ensures
        text@ == head@ + tail@,
{
    let mut text = head.to_owned();
    text.append(tail);
    text
}

fn join(first: &str, second: &str, third: &str, fourth: &str) -> (text: String)
    ensures
        text@ == first@ + second@ + third@ + fourth@,
{
    let mut text = first.to_owned();
    text.append(second);
    text.append(third);
    text.append(fourth);
    text
}

// ---------------------------------------------------------------------------
// Commands
// ---------------------------------------------------------------------------

/// The body of a command.
#[derive(Debug, PartialEq, Eq)]
pub enum CommandBody {
    Search { query: String },
    Song { song_id: String },
    QueueItem { queue_item_id: String },
    Volume { volume_percent: u8 },
    Empty,
}

/// The path to which a command is sent.
pub open spec fn command_path(action: CommandActionView) -> Seq<char> {
    match action {
        CommandActionView::Search(_) => "/api/v1/commands/search"@,
        CommandActionView::AddSong(_) => "/api/v1/commands/queue/add"@,
        CommandActionView::PlayPause => "/api/v1/commands/playback/play-pause"@,
        CommandActionView::Next => "/api/v1/commands/playback/next"@,
        CommandActionView::Previous => "/api/v1/commands/playback/previous"@,
        CommandActionView::SetVolume(_) => "/api/v1/commands/playback/volume"@,
        CommandActionView::RemoveQueueItem(_) => "/api/v1/commands/queue/remove"@,
    }
}

/// Whether `body` is what is sent along with a command.
pub open spec fn carries(body: CommandBody, action: CommandActionView) -> bool {
    match action {
        CommandActionView::Search(text) => body matches CommandBody::Search { query } && query@
            == text,
        CommandActionView::AddSong(id) => body matches CommandBody::Song { song_id } && song_id@
            == id,
        CommandActionView::SetVolume(percent) => body == CommandBody::Volume {
            volume_percent: percent,
        },
        CommandActionView::RemoveQueueItem(id) => body matches CommandBody::QueueItem {
            queue_item_id,
        } && queue_item_id@ == id,
        _ => body == CommandBody::Empty,
    }
}

/// The path and the body of the request that sends a command.
pub fn command_request(action: &CommandAction) -> (request: (&'static str, CommandBody))
    ensures
        request.0@ == command_path(action@),
        carries(request.1, action@),
{
    match action {
        CommandAction::Search(query) => (
            "/api/v1/commands/search",
            CommandBody::Search { query: query.clone() },
        ),
        CommandAction::AddSong(song_id) => (
            "/api/v1/commands/queue/add",
            CommandBody::Song { song_id: song_id.clone() },
        ),
        CommandAction::PlayPause => ("/api/v1/commands/playback/play-pause", CommandBody::Empty),
        CommandAction::Next => ("/api/v1/commands/playback/next", CommandBody::Empty),
        CommandAction::Previous => ("/api/v1/commands/playback/previous", CommandBody::Empty),
        CommandAction::SetVolume(volume_percent) => (
            "/api/v1/commands/playback/volume",
            CommandBody::Volume { volume_percent: *volume_percent },
        ),
        CommandAction::RemoveQueueItem(queue_item_id) => (
            "/api/v1/commands/queue/remove",
            CommandBody::QueueItem { queue_item_id: queue_item_id.clone() },
        ),
    }
}

/// What came back for a request, as far as it could be read as a `T`; the details
/// are those of the transport or of the decoder.
#[derive(Debug, PartialEq, Eq)]
#[allow(inconsistent_fields)]
pub enum HttpReply<T> {
    /// The request did not get through.
    NotSent { detail: String },
    /// It succeeded.
    Success { payload: T },
    /// It succeeded with something unreadable.
    Garbled { detail: String },
    /// It was refused.
    Refused { problem: ProblemDetails },
    /// It was refused with something unreadable.
    GarbledRefusal { detail: String },
}

/// What is said of a reply that is no success; `what` names what was asked for.
pub open spec fn reply_failure<T>(
    reply: HttpReply<T>,
    what: Seq<char>,
    path: Seq<char>,
) -> Option<Seq<char>> {
    match reply {
        HttpReply::Success { .. } => None,
        HttpReply::NotSent { detail } => Some("request to "@ + path + " failed: "@ + detail@),
        HttpReply::Garbled { detail } => Some(
            what + " response from "@ + path + " was invalid: "@ + detail@,
        ),
        HttpReply::Refused { problem } => Some(problem.detail@),
        HttpReply::GarbledRefusal { detail } => Some(
            "request to "@ + path + " failed with undecodable error: "@ + detail@,
        ),
    }
}

/// Whether `result` is the payload of a reply, or what is said of it where there
/// is none.
pub open spec fn payload_is<T>(
    reply: HttpReply<T>,
    what: Seq<char>,
    path: Seq<char>,
    result: Result<T, String>,
) -> bool {
    match reply_failure(reply, what, path) {
        Some(message) => result matches Err(text) && text@ == message,
        None => result == Ok::<T, String>(reply->payload),
    }
}

/// The payload of a reply, or what is said of it where there is none.
pub fn payload_of<T>(reply: HttpReply<T>, what: &str, path: &str) -> (result: Result<T, String>)
    ensures
        payload_is(reply, what@, path@, result),
{
    match reply {
        HttpReply::Success { payload } => Ok(payload),
        HttpReply::NotSent { detail } => Err(
            join("request to ", path, " failed: ", detail.as_str()),
        ),
        HttpReply::Garbled { detail } => {
            let mut text = what.to_owned();
            text.append(" response from ");
            text.append(path);
            text.append(" was invalid: ");
            text.append(detail.as_str());
            Err(text)
        },
        HttpReply::Refused { problem } => Err(problem.detail),
        HttpReply::GarbledRefusal { detail } => Err(
            join("request to ", path, " failed with undecodable error: ", detail.as_str()),
        ),
    }
}

/// Whether `result` is what a command comes to once it was accepted.
pub open spec fn outcome_is(
    result: Result<CommandOutcome, String>,
    action: CommandActionView,
    accepted: CommandAccepted,
) -> bool {
    match action {
        CommandActionView::Search(text) => match accepted.job_id {
            Some(id) => {
                &&& result matches Ok(CommandOutcome::SearchSubmitted { job_id, query })
                &&& job_id == id
                &&& query@ == text
            },
            None => result matches Err(message) && message@
                == "search command was accepted but no job id was returned"@,
        },
        CommandActionView::AddSong(_) => result matches Ok(CommandOutcome::SongQueued(message))
            && message@ == "Added selection to queue."@,
        CommandActionView::PlayPause => result matches Ok(CommandOutcome::StatusMessage(message))
            && message@ == "Playback toggle accepted."@,
        CommandActionView::Next => result matches Ok(CommandOutcome::StatusMessage(message))
            && message@ == "Skip to next track accepted."@,
        CommandActionView::Previous => result matches Ok(CommandOutcome::StatusMessage(message))
            && message@ == "Restart current track accepted."@,
        CommandActionView::SetVolume(percent) => result matches Ok(
            CommandOutcome::StatusMessage(message),
        ) && message@ == "Volume set to "@ + crate::text::decimal(percent as nat) + "%."@,
        CommandActionView::RemoveQueueItem(_) => result matches Ok(
            CommandOutcome::StatusMessage(message),
        ) && message@ == "Queue removal accepted."@,
    }
}

/// Whether `result` is what a command comes to, given the reply to it.
pub open spec fn comes_to(
    action: CommandActionView,
    reply: HttpReply<CommandAccepted>,
    result: Result<CommandOutcome, String>,
) -> bool {
    match reply_failure(reply, "command"@, command_path(action)) {
        Some(message) => result matches Err(text) && text@ == message,
        None => outcome_is(result, action, reply->payload),
    }
}

/// What a command comes to, given the reply to it.
pub fn command_outcome(action: CommandAction, reply: HttpReply<CommandAccepted>) -> (result: Result<
    CommandOutcome,
    String,
>)
    ensures
        comes_to(action@, reply, result),
{
    let path = command_request(&action).0;
    let accepted = match payload_of(reply, "command", path) {
        Ok(accepted) => accepted,
        Err(message) => return Err(message),
    };
    match action {
        CommandAction::Search(query) => match accepted.job_id {
            Some(job_id) => Ok(CommandOutcome::SearchSubmitted { job_id, query }),
            None => Err("search command was accepted but no job id was returned".to_owned()),
        },
        CommandAction::AddSong(_) => Ok(
            CommandOutcome::SongQueued("Added selection to queue.".to_owned()),
        ),
        CommandAction::PlayPause => Ok(
            CommandOutcome::StatusMessage("Playback toggle accepted.".to_owned()),
        ),
        CommandAction::Next => Ok(
            CommandOutcome::StatusMessage("Skip to next track accepted.".to_owned()),
        ),
        CommandAction::Previous => Ok(
            CommandOutcome::StatusMessage("Restart current track accepted.".to_owned()),
        ),
        CommandAction::SetVolume(volume_percent) => {
            let mut message = "Volume set to ".to_owned();
            let number = crate::text::format_decimal(volume_percent as u64);
            message.append(number.as_str());
            message.append("%.");
            Ok(CommandOutcome::StatusMessage(message))
        },
        CommandAction::RemoveQueueItem(_) => Ok(
            CommandOutcome::StatusMessage("Queue removal accepted.".to_owned()),
        ),
    }
}

/// The path at which the results of a search are read.
pub fn search_results_path(job_id: &str) -> (path: String)
    ensures
        path@ == "/api/v1/search/results/"@ + job_id@,
{
    let mut path = "/api/v1/search/results/".to_owned();
    path.append(job_id);
    path
}

/// Whether `outcome` is what asking for the results of a search comes to.
pub open spec fn results_come_to(
    job_id: Seq<char>,
    reply: HttpReply<SearchResultsResponse>,
    outcome: SearchResultsOutcome,
) -> bool {
    match reply_failure(reply, "search results"@, "/api/v1/search/results/"@ + job_id) {
        Some(text) => {
            &&& outcome matches SearchResultsOutcome::Failed { job_id: id, message }
            &&& id@ == job_id
            &&& message@ == text
        },
        None => outcome == (SearchResultsOutcome::Loaded {
            job: reply->payload.job,
            results: reply->payload.results,
        }),
    }
}

/// What asking for the results of a search comes to, given the reply.
pub fn search_results_outcome(job_id: &str, reply: HttpReply<SearchResultsResponse>) -> (outcome:
    SearchResultsOutcome)
    ensures
        results_come_to(job_id@, reply, outcome),
{
    let path = search_results_path(job_id);
    match payload_of(reply, "search results", path.as_str()) {
        Ok(payload) => SearchResultsOutcome::Loaded { job: payload.job, results: payload.results },
        Err(message) => SearchResultsOutcome::Failed { job_id: job_id.to_owned(), message },
    }
}

// ---------------------------------------------------------------------------
// The event stream
// ---------------------------------------------------------------------------

/// The names of the events that the client knows.
#[derive(Debug, Clone, Copy, PartialEq, Eq, Structural)]
pub enum KnownEvent {
    StateUpdated,
    PlaybackProgress,
    SearchJobStarted,
    SearchJobCompleted,
    SearchJobFailed,
    SystemError,
}

impl KnownEvent {
    /// The name of the event.
    pub open spec fn spec_name(self) -> Seq<char> {
        match self {
            KnownEvent::StateUpdated => "state.updated"@,
            KnownEvent::PlaybackProgress => "playback.progress"@,
            KnownEvent::SearchJobStarted => "search.job.started"@,
            KnownEvent::SearchJobCompleted => "search.job.completed"@,
            KnownEvent::SearchJobFailed => "search.job.failed"@,
            KnownEvent::SystemError => "system.error"@,
        }
    }

    /// Computes [`KnownEvent::spec_name`].
    pub fn name(self) -> (name: &'static str)
        ensures
            name@ == self.spec_name(),
    {
        match self {
            KnownEvent::StateUpdated => "state.updated",
            KnownEvent::PlaybackProgress => "playback.progress",
            KnownEvent::SearchJobStarted => "search.job.started",
            KnownEvent::SearchJobCompleted => "search.job.completed",
            KnownEvent::SearchJobFailed => "search.job.failed",
            KnownEvent::SystemError => "system.error",
        }
    }
}

/// The event of a given name, if the client knows one.
pub fn known_event(name: &str) -> (event: Option<KnownEvent>)
    ensures
        match event {
            Some(event) => event.spec_name() == name@,
            None => forall|event: KnownEvent| #[trigger] event.spec_name() != name@,
        },
{
    if str_eq(name, "state.updated") {
        Some(KnownEvent::StateUpdated)
    } else if str_eq(name, "playback.progress") {
        Some(KnownEvent::PlaybackProgress)
    } else if str_eq(name, "search.job.started") {
        Some(KnownEvent::SearchJobStarted)
    } else if str_eq(name, "search.job.completed") {
        Some(KnownEvent::SearchJobCompleted)
    } else if str_eq(name, "search.job.failed") {
        Some(KnownEvent::SearchJobFailed)
    } else if str_eq(name, "system.error") {
        Some(KnownEvent::SystemError)
    } else {
        None
    }
}

/// The failure to read the data of an event that is known.
pub fn event_decode_error(event: KnownEvent, detail: &str) -> (error: TuiError)
    ensures
        error.spec_message() == "failed to decode "@ + event.spec_name() + ": "@ + detail@,
{
    TuiError::new(join("failed to decode ", event.name(), ": ", detail))
}

/// What was met while the event stream was followed.
#[derive(Debug)]
#[allow(inconsistent_fields)]
pub enum StreamInput {
    /// The cursor could not be written into a header.
    BadCursor { detail: String },
    /// The request for the stream did not get through.
    NotConnected { detail: String },
    /// The stream was refused.
    Refused { status: String, problem: ProblemDetails },
    /// The stream was refused with something unreadable.
    GarbledRefusal { status: String, detail: String },
    /// The state was read anew.
    Refreshed { current_event_id: Option<String> },
    /// The state could not be read anew.
    RefreshFailed { detail: String },
    /// The stream broke off.
    Broken { detail: String },
    /// A message came that is no event.
    GarbledEvent { data: String, detail: String },
    /// An event came; `decoded` is what could be made of its data, where the
    /// event is known.
    Event { event_id: String, decoded: Option<Result<(), TuiError>> },
    /// The stream came to its end.
    Ended,
}

/// What is done next.
#[derive(Debug)]
pub enum StreamStep {
    /// Read the state anew.
    Refresh,
    /// Hand the state that was read to the user and finish with its cursor.
    HandOverSnapshot { cursor: Option<String> },
    /// Hand the event to the user and go on from it.
    HandOverEvent { cursor: Option<String> },
    /// Go on from the event.
    GoOn { cursor: Option<String> },
    /// The stream is over.
    Finish { cursor: Option<String> },
    /// The stream has failed.
    Fail { error: TuiError },
}

/// Whether `step` is a failure with a given message.
pub open spec fn stream_fails(step: StreamStep, message: Seq<char>) -> bool {
    step matches StreamStep::Fail { error } && error.spec_message() == message
}

/// Whether `step` is what follows `input`, after the stream has come to `cursor`.
pub open spec fn stream_follows(
    cursor: Option<String>,
    input: StreamInput,
    step: StreamStep,
) -> bool {
    match input {
        StreamInput::BadCursor { detail } => stream_fails(
            step,
            "invalid Last-Event-ID header value: "@ + detail@,
        ),
        StreamInput::NotConnected { detail } => stream_fails(
            step,
            "failed to connect to event stream: "@ + detail@,
        ),
        StreamInput::Refused { status, problem } => if problem.kind@
            == EVENT_CURSOR_NOT_FOUND_TYPE@ {
            step == StreamStep::Refresh
        } else {
            stream_fails(
                step,
                "event stream failed with status "@ + status@ + ": "@ + problem.detail@,
            )
        },
        StreamInput::GarbledRefusal { status, detail } => stream_fails(
            step,
            "event stream failed with status "@ + status@ + " and undecodable error: "@ + detail@,
        ),
        StreamInput::Refreshed { current_event_id } => step == (StreamStep::HandOverSnapshot {
            cursor: current_event_id,
        }),
        StreamInput::RefreshFailed { detail } => stream_fails(
            step,
            "event cursor expired and snapshot refresh failed: "@ + detail@,
        ),
        StreamInput::Broken { detail } => stream_fails(step, "event stream error: "@ + detail@),
        StreamInput::GarbledEvent { data, detail } => stream_fails(
            step,
            "failed to decode SSE payload '"@ + data@ + "': "@ + detail@,
        ),
        StreamInput::Event { event_id, decoded } => match decoded {
            None => step == (StreamStep::GoOn { cursor: Some(event_id) }),
            Some(Ok(_)) => step == (StreamStep::HandOverEvent { cursor: Some(event_id) }),
            Some(Err(error)) => step == (StreamStep::Fail { error }),
        },
        StreamInput::Ended => step == (StreamStep::Finish { cursor }),
    }
}

/// Decides what follows while the event stream is followed.
pub fn stream_step(cursor: Option<String>, input: StreamInput) -> (step: StreamStep)
    ensures
        stream_follows(cursor, input, step),
{
    match input {
        StreamInput::BadCursor { detail } => StreamStep::Fail {
            error: TuiError::new(
                say("invalid Last-Event-ID header value: ", detail.as_str()),
            ),
        },
        StreamInput::NotConnected { detail } => StreamStep::Fail {
            error: TuiError::new(
                say("failed to connect to event stream: ", detail.as_str()),
            ),
        },
        StreamInput::Refused { status, problem } => {
            if str_eq(problem.kind.as_str(), EVENT_CURSOR_NOT_FOUND_TYPE) {
                StreamStep::Refresh
            } else {
                StreamStep::Fail {
                    error: TuiError::new(
                        join(
                            "event stream failed with status ",
                            status.as_str(),
                            ": ",
                            problem.detail.as_str(),
                        ),
                    ),
                }
            }
        },
        StreamInput::GarbledRefusal { status, detail } => StreamStep::Fail {
            error: TuiError::new(
                join(
                    "event stream failed with status ",
                    status.as_str(),
                    " and undecodable error: ",
                    detail.as_str(),
                ),
            ),
        },
        StreamInput::Refreshed { current_event_id } => StreamStep::HandOverSnapshot {
            cursor: current_event_id,
        },
        StreamInput::RefreshFailed { detail } => StreamStep::Fail {
            error: TuiError::new(
                say("event cursor expired and snapshot refresh failed: ", detail.as_str()),
            ),
        },
        StreamInput::Broken { detail } => StreamStep::Fail {
            error: TuiError::new(say("event stream error: ", detail.as_str())),
        },
        StreamInput::GarbledEvent { data, detail } => StreamStep::Fail {
            error: TuiError::new(
                join("failed to decode SSE payload '", data.as_str(), "': ", detail.as_str()),
            ),
        },
        StreamInput::Event { event_id, decoded } => match decoded {
            None => StreamStep::GoOn { cursor: Some(event_id) },
            Some(Ok(_)) => StreamStep::HandOverEvent { cursor: Some(event_id) },
            Some(Err(error)) => StreamStep::Fail { error },
        },
        StreamInput::Ended => StreamStep::Finish { cursor },
    }
}

/// Whether the stream is followed next at the cursor in `next`, and the user is
/// told its text.
pub open spec fn reconnects(
    cursor: Option<String>,
    ended: Result<Option<String>, TuiError>,
    next: (Option<String>, String),
) -> bool {
    match ended {
        Ok(reached) => next.0 == reached && next.1@
            == "Event stream disconnected. Reconnecting..."@,
        Err(error) => next.0 == cursor && next.1@ == "Event stream error: "@
            + error.spec_message() + ". Reconnecting..."@,
    }
}

/// The cursor at which the stream is followed next, given the cursor from before
/// and how the stream ended, and what the user is told of it.
pub fn reconnect(cursor: Option<String>, ended: Result<Option<String>, TuiError>) -> (next: (
    Option<String>,
    String,
))
    ensures
        reconnects(cursor, ended, next),
{
    match ended {
        Ok(reached) => (reached, "Event stream disconnected. Reconnecting...".to_owned()),
        Err(error) => {
            let mut message = say("Event stream error: ", error.describe());
            message.append(". Reconnecting...");
            (cursor, message)
        },
    }
}

/// A cursor that the backend no longer knows never ends the connection for good:
/// the state is read anew, and the stream is followed from there.
pub proof fn an_expired_cursor_is_replaced(
    cursor: Option<String>,
    status: String,
    problem: ProblemDetails,
    first: StreamStep,
    current_event_id: Option<String>,
    second: StreamStep,
)
    requires
        problem.kind@ == EVENT_CURSOR_NOT_FOUND_TYPE@,
        stream_follows(cursor, StreamInput::Refused { status, problem }, first),
        stream_follows(cursor, StreamInput::Refreshed { current_event_id }, second),
    ensures
        first is Refresh,
        second == (StreamStep::HandOverSnapshot { cursor: current_event_id }),
{
}

// ---------------------------------------------------------------------------
// The backend process
// ---------------------------------------------------------------------------

/// What was seen of a starting backend.
#[derive(Debug)]
pub enum ReadyProbe {
    /// Its process could not be looked at.
    Unknown { detail: String },
    /// Its process is gone.
    Exited { status: String },
    /// It does not answer yet.
    Silent,
    /// Its answer could not be read.
    Garbled { detail: String },
    /// It has answered.
    Answered { ready: bool },
}

/// What is done about it.
#[derive(Debug)]
pub enum ReadyStep {
    Ready,
    Retry,
    Fail { error: TuiError },
}

/// Whether a step is a failure with a given message.
pub open spec fn start_fails(step: ReadyStep, message: Seq<char>) -> bool {
    step matches ReadyStep::Fail { error } && error.spec_message() == message
}

/// Whether `step` follows what was seen of a starting backend.
pub open spec fn ready_follows(attempts: u64, probe: ReadyProbe, step: ReadyStep) -> bool {
    match probe {
        ReadyProbe::Unknown { detail } => start_fails(
            step,
            "failed to inspect backend process: "@ + detail@,
        ),
        ReadyProbe::Exited { status } => start_fails(
            step,
            "backend exited before becoming ready: "@ + status@,
        ),
        ReadyProbe::Garbled { detail } => start_fails(
            step,
            "backend health response was invalid: "@ + detail@,
        ),
        ReadyProbe::Answered { ready: true } => step is Ready,
        _ => if attempts < READY_ATTEMPTS {
            step is Retry
        } else {
            start_fails(step, "backend did not become ready within 5 seconds"@)
        },
    }
}

/// Decides whether a starting backend is ready, after it was asked `attempts`
/// times, this time included.
pub fn ready_step(attempts: u64, probe: ReadyProbe) -> (step: ReadyStep)
    ensures
        ready_follows(attempts, probe, step),
{
    match probe {
        ReadyProbe::Unknown { detail } => ReadyStep::Fail {
            error: TuiError::new(
                say("failed to inspect backend process: ", detail.as_str()),
            ),
        },
        ReadyProbe::Exited { status } => ReadyStep::Fail {
            error: TuiError::new(
                say("backend exited before becoming ready: ", status.as_str()),
            ),
        },
        ReadyProbe::Garbled { detail } => ReadyStep::Fail {
            error: TuiError::new(
                say("backend health response was invalid: ", detail.as_str()),
            ),
        },
        ReadyProbe::Answered { ready: true } => ReadyStep::Ready,
        _ => {
            if attempts < READY_ATTEMPTS {
                ReadyStep::Retry
            } else {
                ReadyStep::Fail {
                    error: TuiError::new(
                        "backend did not become ready within 5 seconds".to_owned(),
                    ),
                }
            }
        },
    }
}

/// Whether a setting asks for the errors of the backend to be shown.
pub open spec fn shows_errors(setting: Seq<char>) -> bool {
    let value = crate::text::ascii_lower(crate::text::trimmed(setting));
    value == "1"@ || value == "true"@ || value == "inherit"@
}

/// Decides whether the errors of the backend are shown, by a setting that may be
/// missing.
pub fn backend_stderr_is_shown(setting: Option<&str>) -> (shown: bool)
    ensures
        shown == match setting {
            Some(value) => shows_errors(value@),
            None => false,
        },
{
    match setting {
        Some(value) => {
            let trimmed = crate::text::trim(value);
            let value = crate::text::to_ascii_lower(trimmed.as_str());
            str_eq(value.as_str(), "1") || str_eq(value.as_str(), "true") || str_eq(
                value.as_str(),
                "inherit",
            )
        },
        None => false,
    }
}

} // verus!
