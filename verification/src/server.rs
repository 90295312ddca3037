//! What the backend answers to the requests of its clients.

use vstd::prelude::*;

use crate::api::{CommandAccepted, HealthResponse, ProblemDetails, SearchResultsResponse};
use crate::mapping::{
    command_accepted_response, map_core_error, map_search_job_summary,
    map_youtube_import_request_error, search_results_not_found,
};
use crate::models::{BackendState, CommandReceipt, SystemErrorSeverity};
use crate::orchestrator::{CoreError, Orchestrator};
use crate::orchestrator_laws::Command;
use crate::ports::{ClockPort, EventPublisherPort, IdGeneratorPort, PlaybackPort, SearchPort};
use crate::workers::report_playback_command_error;
use crate::youtube::canonicalize_supported_youtube_url;

verus! {

pub const QUEUE_PATH: &'static str = "/api/v1/queue";

pub const PLAYBACK_PATH: &'static str = "/api/v1/playback";

pub const SEARCH_RESULTS_ROUTE: &'static str = "/api/v1/search/results/{job_id}";

pub const YOUTUBE_IMPORT_PATH: &'static str = "/api/v1/commands/import/youtube";

pub const PLAYBACK_VOLUME_PATH: &'static str = "/api/v1/commands/playback/volume";

// ---------------------------------------------------------------------------
// Commands
// ---------------------------------------------------------------------------

/// A command that a client has sent.
#[derive(Debug, PartialEq, Eq)]
#[allow(inconsistent_fields)]
pub enum ServerCommand {
    Search { query: String },
    QueueAdd { song_id: String },
    QueueRemove { queue_item_id: String },
    QueueMove { queue_item_id: String, to_index: u64 },
    QueueClear,
    Play,
    Pause,
    PlayPause,
    Stop,
    Next,
    Previous,
    RestartCurrent,
    Seek { position_ms: u64 },
    SetVolume { volume_percent: u8 },
}

impl ServerCommand {
    /// The path at which the command is taken.
    pub open spec fn spec_path(self) -> Seq<char> {
        match self {
            ServerCommand::Search { .. } => "/api/v1/commands/search"@,
            ServerCommand::QueueAdd { .. } => "/api/v1/commands/queue/add"@,
            ServerCommand::QueueRemove { .. } => "/api/v1/commands/queue/remove"@,
            ServerCommand::QueueMove { .. } => "/api/v1/commands/queue/move"@,
            ServerCommand::QueueClear => "/api/v1/commands/queue/clear"@,
            ServerCommand::Play => "/api/v1/commands/playback/play"@,
            ServerCommand::Pause => "/api/v1/commands/playback/pause"@,
            ServerCommand::PlayPause => "/api/v1/commands/playback/play-pause"@,
            ServerCommand::Stop => "/api/v1/commands/playback/stop"@,
            ServerCommand::Next => "/api/v1/commands/playback/next"@,
            ServerCommand::Previous => "/api/v1/commands/playback/previous"@,
            ServerCommand::RestartCurrent => "/api/v1/commands/playback/restart_current"@,
            ServerCommand::Seek { .. } => "/api/v1/commands/playback/seek"@,
            ServerCommand::SetVolume { .. } => PLAYBACK_VOLUME_PATH@,
        }
    }

    /// Computes [`ServerCommand::spec_path`].
    pub fn path(&self) -> (path: &'static str)
        ensures
            path@ == self.spec_path(),
    {
        match self {
            ServerCommand::Search { .. } => "/api/v1/commands/search",
            ServerCommand::QueueAdd { .. } => "/api/v1/commands/queue/add",
            ServerCommand::QueueRemove { .. } => "/api/v1/commands/queue/remove",
            ServerCommand::QueueMove { .. } => "/api/v1/commands/queue/move",
            ServerCommand::QueueClear => "/api/v1/commands/queue/clear",
            ServerCommand::Play => "/api/v1/commands/playback/play",
            ServerCommand::Pause => "/api/v1/commands/playback/pause",
            ServerCommand::PlayPause => "/api/v1/commands/playback/play-pause",
            ServerCommand::Stop => "/api/v1/commands/playback/stop",
            ServerCommand::Next => "/api/v1/commands/playback/next",
            ServerCommand::Previous => "/api/v1/commands/playback/previous",
            ServerCommand::RestartCurrent => "/api/v1/commands/playback/restart_current",
            ServerCommand::Seek { .. } => "/api/v1/commands/playback/seek",
            ServerCommand::SetVolume { .. } => PLAYBACK_VOLUME_PATH,
        }
    }

    /// Whether the command is one of playback, whose failures concern everybody
    /// who listens.
    pub open spec fn spec_plays(self) -> bool {
        match self {
            ServerCommand::Play => true,
            ServerCommand::Pause => true,
            ServerCommand::PlayPause => true,
            ServerCommand::Stop => true,
            ServerCommand::Next => true,
            ServerCommand::Previous => true,
            ServerCommand::RestartCurrent => true,
            ServerCommand::Seek { .. } => true,
            ServerCommand::SetVolume { .. } => true,
            _ => false,
        }
    }

    /// Computes [`ServerCommand::spec_plays`].
    pub fn plays(&self) -> (r: bool)
        ensures
            r == self.spec_plays(),
    {
        match self {
            ServerCommand::Play => true,
            ServerCommand::Pause => true,
            ServerCommand::PlayPause => true,
            ServerCommand::Stop => true,
            ServerCommand::Next => true,
            ServerCommand::Previous => true,
            ServerCommand::RestartCurrent => true,
            ServerCommand::Seek { .. } => true,
            ServerCommand::SetVolume { .. } => true,
            _ => false,
        }
    }

    /// The command of the player that is meant, in a given state of it.
    pub open spec fn meaning(self, state: crate::core_state::CoreStateView) -> Command {
        match self {
            ServerCommand::Search { query } => Command::Search { query: query@ },
            ServerCommand::QueueAdd { song_id } => Command::EnqueueFound { song_id: song_id@ },
            ServerCommand::QueueRemove { queue_item_id } => Command::Remove {
                queue_item_id: queue_item_id@,
            },
            ServerCommand::QueueMove { queue_item_id, to_index } => Command::Move {
                queue_item_id: queue_item_id@,
                to_index,
            },
            ServerCommand::QueueClear => Command::Clear,
            ServerCommand::Play => Command::Play,
            ServerCommand::Pause => Command::Pause,
            ServerCommand::PlayPause => if state.playback.state
                == crate::domain::PlaybackStatus::Playing {
                Command::Pause
            } else {
                Command::Play
            },
            ServerCommand::Stop => Command::Stop,
            ServerCommand::Next => Command::Next,
            ServerCommand::Previous => Command::Previous,
            ServerCommand::RestartCurrent => Command::Seek { position_ms: 0 },
            ServerCommand::Seek { position_ms } => Command::Seek { position_ms },
            ServerCommand::SetVolume { volume_percent } => Command::SetVolume { volume_percent },
        }
    }
}

/// The answer to a command, and what became of telling everybody else of its
/// failure, where that was due.
pub struct CommandReply {
    pub answer: Result<(u16, CommandAccepted), (u16, ProblemDetails)>,
    pub told: Option<Result<(), CoreError>>,
}

/// Whether `answer` is the answer to a command that the player took or refused.
pub open spec fn answers_command(
    answer: Result<(u16, CommandAccepted), (u16, ProblemDetails)>,
    path: Seq<char>,
    result: Result<CommandReceipt, CoreError>,
) -> bool {
    match result {
        Ok(receipt) => answer == Ok::<(u16, CommandAccepted), (u16, ProblemDetails)>(
            (
                202,
                CommandAccepted {
                    ok: true,
                    command_id: receipt.command_id,
                    accepted_at: Some(receipt.accepted_at),
                    job_id: receipt.job_id,
                    queue_item_id: receipt.queue_item_id,
                },
            ),
        ),
        Err(error) => answer matches Err(problem) && crate::mapping::is_problem(
            problem,
            crate::mapping::core_problem(error@, path),
        ),
    }
}

/// Whether a command was served: the player's first `taken` port calls carried it
/// out with `result`. The client is answered accordingly. Where a port failed
/// during a command of playback, the other calls tell all subscribers; else there
/// are none.
pub open spec fn serves(
    command: ServerCommand,
    before: crate::core_state::CoreStateView,
    steps: Seq<crate::ports::PortStep>,
    after: crate::core_state::CoreStateView,
    reply: CommandReply,
    taken: int,
    result: Result<CommandReceipt, CoreError>,
) -> bool {
    &&& 0 <= taken <= steps.len()
    &&& command.meaning(before).acts(before, steps.take(taken), after, result)
    &&& answers_command(reply.answer, command.spec_path(), result)
    &&& match result {
        Err(CoreError::Port { code, .. }) if command.spec_plays() => {
            &&& reply.told is Some
            &&& crate::orchestrator::reports(
                steps.skip(taken),
                seq![
                    crate::workers::error_event(
                        code@,
                        crate::workers::playback_failure_text(code@),
                    ),
                ],
                crate::orchestrator::failure(reply.told->0),
            )
        },
        _ => reply.told is None && taken == steps.len(),
    }
}

fn carry_out<C, I, E, P, S>(
    orchestrator: &mut Orchestrator<C, I, E, P, S>,
    command: &ServerCommand,
) -> (result: Result<CommandReceipt, CoreError>) where
    C: ClockPort,
    I: IdGeneratorPort,
    E: EventPublisherPort,
    P: PlaybackPort,
    S: SearchPort,

    ensures
        final(orchestrator).follows(old(orchestrator)),
        command.meaning(old(orchestrator).model()).acts(
            old(orchestrator).model(),
            final(orchestrator).since(old(orchestrator)),
            final(orchestrator).model(),
            result,
        ),
{
    match command {
        ServerCommand::Search { query } => orchestrator.submit_search(query.as_str()),
        ServerCommand::QueueAdd { song_id } => orchestrator.enqueue_song_by_id(song_id.as_str()),
        ServerCommand::QueueRemove { queue_item_id } => orchestrator.remove_queue_item(
            queue_item_id.as_str(),
        ),
        ServerCommand::QueueMove { queue_item_id, to_index } => orchestrator.move_queue_item(
            queue_item_id.as_str(),
            *to_index,
        ),
        ServerCommand::QueueClear => orchestrator.clear_queue(),
        ServerCommand::Play => orchestrator.play(),
        ServerCommand::Pause => orchestrator.pause(),
        ServerCommand::PlayPause => orchestrator.play_pause(),
        ServerCommand::Stop => orchestrator.stop(),
        ServerCommand::Next => orchestrator.next(),
        ServerCommand::Previous => orchestrator.previous(),
        ServerCommand::RestartCurrent => orchestrator.seek(0),
        ServerCommand::Seek { position_ms } => orchestrator.seek(*position_ms),
        ServerCommand::SetVolume { volume_percent } => orchestrator.set_volume(*volume_percent),
    }
}

/// Serves a command.
pub fn serve<C, I, E, P, S>(
    orchestrator: &mut Orchestrator<C, I, E, P, S>,
    command: &ServerCommand,
) -> (reply: CommandReply) where
    C: ClockPort,
    I: IdGeneratorPort,
    E: EventPublisherPort,
    P: PlaybackPort,
    S: SearchPort,

    ensures
        final(orchestrator).follows(old(orchestrator)),
        exists|taken: int, result: Result<CommandReceipt, CoreError>| #[trigger]
            serves(
                *command,
                old(orchestrator).model(),
                final(orchestrator).since(old(orchestrator)),
                final(orchestrator).model(),
                reply,
                taken,
                result,
            ),
{
    let ghost s0 = *orchestrator;
    let result = carry_out(orchestrator, command);
    let ghost s1 = *orchestrator;
    let ghost taken = s1.since(&s0).len() as int;
    let ghost done = result;
    proof {
        orchestrator.lemma_follows_itself();
        assert(s1.since(&s0).take(taken) =~= s1.since(&s0));
    }
    let reply = match result {
        Ok(receipt) => {
            CommandReply { answer: Ok(command_accepted_response(receipt)), told: None }
        },
        Err(error) => {
            let port_failed = match &error {
                CoreError::Port { .. } => true,
                _ => false,
            };
            let told = if command.plays() && port_failed {
                Some(report_playback_command_error(orchestrator, &error))
            } else {
                None
            };
            CommandReply { answer: Err(map_core_error(error, command.path())), told }
        },
    };
    proof {
        orchestrator.lemma_follows_on(&s1, &s0);
        let steps = orchestrator.since(&s0);
        assert(steps.take(taken) =~= s1.since(&s0));
        assert(steps.skip(taken) =~= orchestrator.since(&s1));
        assert(serves(
            *command,
            s0.model(),
            steps,
            orchestrator.model(),
            reply,
            taken,
            done,
        ));
    }
    reply
}

/// A request that the player itself refuses changes nothing, is told to nobody
/// but its sender, and is answered with a status that puts the fault on the
/// sender's side.
pub proof fn refused_requests_change_nothing(
    command: ServerCommand,
    before: crate::core_state::CoreStateView,
    steps: Seq<crate::ports::PortStep>,
    after: crate::core_state::CoreStateView,
    reply: CommandReply,
    taken: int,
    result: Result<CommandReceipt, CoreError>,
)
    requires
        serves(command, before, steps, after, reply, taken, result),
        result matches Err(error) && !(error@ is Port),
    ensures
        after == before,
        steps.len() == 0,
        reply.answer matches Err(problem) && 400 <= problem.0 < 500,
{
    crate::orchestrator_laws::a_refused_command_changes_nothing(
        command.meaning(before),
        before,
        steps.take(taken),
        after,
        result,
    );
}

/// A command is accepted exactly if the player took it.
pub proof fn accepted_is_taken(
    command: ServerCommand,
    before: crate::core_state::CoreStateView,
    steps: Seq<crate::ports::PortStep>,
    after: crate::core_state::CoreStateView,
    reply: CommandReply,
    taken: int,
    result: Result<CommandReceipt, CoreError>,
)
    requires
        serves(command, before, steps, after, reply, taken, result),
    ensures
        reply.answer is Ok <==> result is Ok,
        before.consistent() ==> after.consistent(),
{
    if before.consistent() {
        crate::orchestrator_laws::commands_keep_the_state_consistent(
            command.meaning(before),
            before,
            steps.take(taken),
            after,
            result,
        );
    }
}

// ---------------------------------------------------------------------------
// Other requests
// ---------------------------------------------------------------------------

/// What is said of the health of a backend.
pub open spec fn health_of(backend: BackendState) -> HealthResponse {
    HealthResponse {
        ok: true,
        ready: backend.ready,
        version: backend.version,
        yt_dlp_version: backend.yt_dlp_version,
    }
}

/// Whether the backend is up, and what it runs.
pub fn health_response(backend: &BackendState) -> (response: HealthResponse)
    ensures
        response == health_of(*backend),
{
    HealthResponse {
        ok: true,
        ready: backend.ready,
        version: backend.version.clone(),
        yt_dlp_version: backend.yt_dlp_version.clone(),
    }
}

/// Whether `response` answers a request for the results of a search.
pub open spec fn gives_results(
    state: crate::core_state::CoreStateView,
    job_id: Seq<char>,
    response: Result<SearchResultsResponse, (u16, ProblemDetails)>,
) -> bool {
    let index = crate::core_state::job_index(state.search_jobs, job_id);
    if index is Some && state.search_results.contains_key(job_id) {
        &&& response matches Ok(found)
        &&& found.job == crate::mapping::api_search_job(state.search_jobs[index->0])
        &&& found.results@ == state.search_results[job_id]@
    } else {
        response matches Err(problem) && crate::mapping::is_problem(
            problem,
            crate::mapping::missing_results(job_id),
        )
    }
}

/// The results of a search, or the answer that there are none.
pub fn search_results_response<C, I, E, P, S>(
    orchestrator: &Orchestrator<C, I, E, P, S>,
    job_id: &str,
) -> (response: Result<SearchResultsResponse, (u16, ProblemDetails)>) where
    C: ClockPort,
    I: IdGeneratorPort,
    E: EventPublisherPort,
    P: PlaybackPort,
    S: SearchPort,

    ensures
        gives_results(orchestrator.model(), job_id@, response),
{
    match orchestrator.search_results(job_id) {
        Some(record) => Ok(
            SearchResultsResponse {
                job: map_search_job_summary(record.job),
                results: record.results,
            },
        ),
        None => Err(search_results_not_found(job_id)),
    }
}

/// Whether `checked` is what a URL that a client wants imported comes to, where
/// `canonical` is its canonical form.
pub open spec fn checks_import(
    canonical: Result<Seq<char>, crate::youtube::FailureView>,
    checked: Result<String, (u16, ProblemDetails)>,
) -> bool {
    match canonical {
        Ok(canonical) => checked matches Ok(found) && found@ == canonical,
        Err(failure) => checked matches Err(problem) && crate::mapping::is_problem(
            problem,
            crate::mapping::import_problem(failure, YOUTUBE_IMPORT_PATH@),
        ),
    }
}

/// The canonical form of a URL that a client wants imported, or the answer why it
/// cannot be.
pub fn check_import_request(url: &str) -> (checked: Result<String, (u16, ProblemDetails)>)
    ensures
        checks_import(crate::youtube::canonical_url(url@), checked),
{
    match canonicalize_supported_youtube_url(url) {
        Ok(canonical) => Ok(canonical),
        Err(failure) => Err(map_youtube_import_request_error(failure, YOUTUBE_IMPORT_PATH)),
    }
}

/// Whether a request for an import was served: a URL that is not supported is
/// answered without a call of any port, any other is submitted in its canonical
/// form.
pub open spec fn serves_import(
    url: Seq<char>,
    before: crate::core_state::CoreStateView,
    steps: Seq<crate::ports::PortStep>,
    after: crate::core_state::CoreStateView,
    answer: Result<(u16, CommandAccepted), (u16, ProblemDetails)>,
) -> bool {
    match crate::youtube::canonical_url(url) {
        Err(failure) => {
            &&& steps.len() == 0
            &&& after == before
            &&& answer matches Err(problem)
            &&& crate::mapping::is_problem(
                problem,
                crate::mapping::import_problem(failure, YOUTUBE_IMPORT_PATH@),
            )
        },
        Ok(canonical) => exists|result: Result<CommandReceipt, CoreError>|
            {
                &&& #[trigger] crate::orchestrator::submits_import(
                    before,
                    canonical,
                    steps,
                    after,
                    result,
                )
                &&& answers_command(answer, YOUTUBE_IMPORT_PATH@, result)
            },
    }
}

/// Serves a request for an import.
pub fn serve_import<C, I, E, P, S>(
    orchestrator: &mut Orchestrator<C, I, E, P, S>,
    url: &str,
) -> (answer: Result<(u16, CommandAccepted), (u16, ProblemDetails)>) where
    C: ClockPort,
    I: IdGeneratorPort,
    E: EventPublisherPort,
    P: PlaybackPort,
    S: SearchPort,

    ensures
        final(orchestrator).follows(old(orchestrator)),
        serves_import(
            url@,
            old(orchestrator).model(),
            final(orchestrator).since(old(orchestrator)),
            final(orchestrator).model(),
            answer,
        ),
        old(orchestrator).model().consistent() ==> final(orchestrator).model().consistent(),
{
    let ghost s0 = *orchestrator;
    let canonical = match check_import_request(url) {
        Ok(canonical) => canonical,
        Err(problem) => {
            proof {
                orchestrator.lemma_follows_itself();
            }
            return Err(problem);
        },
    };
    let result = orchestrator.submit_youtube_import(canonical.as_str());
    let ghost done = result;
    assert(crate::orchestrator::submits_import(
        s0.model(),
        canonical@,
        orchestrator.since(&s0),
        orchestrator.model(),
        done,
    ));
    match result {
        Ok(receipt) => Ok(command_accepted_response(receipt)),
        Err(error) => Err(map_core_error(error, YOUTUBE_IMPORT_PATH)),
    }
}

/// What subscribers are told where a new volume could not be saved: a code, a
/// message and a severity.
pub fn volume_save_warning(detail: &str) -> (warning: (String, String, SystemErrorSeverity))
    ensures
        warning.0@ == "audio_settings_persist_failed"@,
        warning.1@ == "Volume changed for this session, but saving it failed: "@ + detail@,
        warning.2 == SystemErrorSeverity::Warning,
{
    let mut message = "Volume changed for this session, but saving it failed: ".to_owned();
    message.append(detail);
    ("audio_settings_persist_failed".to_owned(), message, SystemErrorSeverity::Warning)
}

// ---------------------------------------------------------------------------
// The event stream
// ---------------------------------------------------------------------------

/// The ids of the events that a stream has replayed and has not yet met again
/// among the live ones.
pub struct ReplayedIds {
    ids: Vec<String>,
}

/// The ids in a list of texts.
pub open spec fn text_set(ids: Seq<String>) -> Set<Seq<char>> {
    Set::new(|id: Seq<char>| exists|i: int| 0 <= i < ids.len() && (#[trigger] ids[i])@ == id)
}

impl View for ReplayedIds {
    type V = Set<Seq<char>>;

    closed spec fn view(&self) -> Set<Seq<char>> {
        text_set(self.ids@)
    }
}

impl ReplayedIds {
    /// The ids of events that were replayed.
    pub fn new(ids: Vec<String>) -> (replayed: Self)
        ensures
            replayed@ == text_set(ids@),
    {
        ReplayedIds { ids }
    }

    /// Whether a live event is new to the stream. One that was replayed is not,
    /// the first time that it is met.
    pub fn is_new(&mut self, event_id: &str) -> (new: bool)
        ensures
            new == !old(self)@.contains(event_id@),
            final(self)@ == old(self)@.remove(event_id@),
    {
        let ghost before = self.ids@;
        let mut kept: Vec<String> = Vec::new();
        let mut found = false;
        let count = self.ids.len();
        for i in 0..count
            invariant
                count == self.ids@.len(),
                self.ids@ == before,
                found == exists|j: int| 0 <= j < i && (#[trigger] before[j])@ == event_id@,
                forall|k: int|
                    0 <= k < kept@.len() ==> (#[trigger] kept@[k])@ != event_id@ && text_set(
                        before,
                    ).contains(kept@[k]@),
                forall|j: int|
                    0 <= j < i && (#[trigger] before[j])@ != event_id@ ==> text_set(
                        kept@,
                    ).contains(before[j]@),
        {
            let ghost earlier = kept@;
            let ghost seen = found;
            if crate::text::str_eq(self.ids[i].as_str(), event_id) {
                found = true;
                assert(before[i as int]@ == event_id@);
            } else {
                let id = self.ids[i].clone();
                kept.push(id);
                proof {
                    assert(kept@[kept@.len() - 1]@ == before[i as int]@);
                    assert(text_set(before).contains(before[i as int]@));
                    assert forall|j: int|
                        0 <= j < i + 1 && (#[trigger] before[j])@ != event_id@ implies text_set(
                        kept@,
                    ).contains(before[j]@) by {
                        if j < i {
                            assert(text_set(earlier).contains(before[j]@));
                            let k = choose|k: int|
                                0 <= k < earlier.len() && (#[trigger] earlier[k])@ == before[j]@;
                            assert(kept@[k]@ == before[j]@);
                        }
                    }
                    assert forall|k: int| 0 <= k < kept@.len() implies (#[trigger] kept@[k])@
                        != event_id@ && text_set(before).contains(kept@[k]@) by {
                        if k < earlier.len() {
                            assert(kept@[k] == earlier[k]);
                        }
                    }
                    if seen {
                        let j = choose|j: int|
                            0 <= j < i && (#[trigger] before[j])@ == event_id@;
                        assert(0 <= j < i + 1 && before[j]@ == event_id@);
                    }
                }
            }
        }
        proof {
            let after = kept@;
            assert forall|id: Seq<char>| text_set(after).contains(id) == text_set(before).remove(
                event_id@,
            ).contains(id) by {
                if text_set(after).contains(id) {
                    let k = choose|k: int| 0 <= k < after.len() && (#[trigger] after[k])@ == id;
                    assert(text_set(before).contains(after[k]@));
                }
                if text_set(before).contains(id) && id != event_id@ {
                    let j = choose|j: int| 0 <= j < before.len() && (#[trigger] before[j])@ == id;
                    assert(text_set(after).contains(before[j]@));
                }
            }
            assert(text_set(after) =~= text_set(before).remove(event_id@));
        }
        self.ids = kept;
        !found
    }
}

/// A live event that was not replayed always passes, and one that was replayed is
/// held back exactly once.
pub proof fn a_replayed_event_is_held_back_once(replayed: Set<Seq<char>>, id: Seq<char>)
    ensures
        !replayed.remove(id).contains(id),
        forall|other: Seq<char>|
            other != id ==> (#[trigger] replayed.remove(id).contains(other) == replayed.contains(
                other,
            )),
{
}

} // verus!
