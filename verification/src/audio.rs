//! The playback worker: what it plays, what it tells of it, and what it asks of
//! the audio device. Times are readings of a monotonic clock in milliseconds.

use vstd::prelude::*;

use crate::domain::{AudioSettings, QueueItem};
use crate::ports::{PlaybackCall, PlaybackPort, PortError};
use crate::youtube::should_simulate_source;

verus! {

/// How often the worker looks at what plays, in milliseconds.
pub const WORKER_POLL_INTERVAL: u64 = 250;

/// A command that the worker has carried out.
#[derive(Debug, PartialEq, Eq)]
pub enum PlaybackCommand {
    Start { playback_session_id: String, queue_item_id: String, position_ms: u64 },
    Pause,
    Resume,
    Stop,
    Seek { position_ms: u64 },
    SetVolume { volume_percent: u8 },
}

impl Clone for PlaybackCommand {
    fn clone(&self) -> (copy: Self)
        ensures
            copy == *self,
    {
        match self {
            PlaybackCommand::Start { playback_session_id, queue_item_id, position_ms } =>
                PlaybackCommand::Start {
                playback_session_id: playback_session_id.clone(),
                queue_item_id: queue_item_id.clone(),
                position_ms: *position_ms,
            },
            PlaybackCommand::Pause => PlaybackCommand::Pause,
            PlaybackCommand::Resume => PlaybackCommand::Resume,
            PlaybackCommand::Stop => PlaybackCommand::Stop,
            PlaybackCommand::Seek { position_ms } => PlaybackCommand::Seek {
                position_ms: *position_ms,
            },
            PlaybackCommand::SetVolume { volume_percent } => PlaybackCommand::SetVolume {
                volume_percent: *volume_percent,
            },
        }
    }
}

/// Something that the worker tells of.
#[derive(Debug, PartialEq, Eq)]
pub enum PlaybackWorkerEvent {
    Started { playback_session_id: String, queue_item_id: String, position_ms: u64 },
    Progress { playback_session_id: String, position_ms: u64, paused: bool },
    Ended { playback_session_id: String, queue_item_id: String, position_ms: u64 },
    StartFailed {
        playback_session_id: String,
        queue_item_id: String,
        code: String,
        message: String,
    },
    Interrupted {
        playback_session_id: String,
        queue_item_id: String,
        code: String,
        message: String,
    },
}

/// What the worker shows of itself.
#[derive(Debug, PartialEq, Eq)]
pub struct LocalPlaybackSnapshot {
    pub current_item: Option<QueueItem>,
    pub playback_session_id: Option<String>,
    pub position_ms: u64,
    pub paused: bool,
    pub volume_percent: u8,
    pub history: Vec<PlaybackCommand>,
}

/// The contents of a [`LocalPlaybackSnapshot`].
pub struct PlaybackSnapshotView {
    pub current_item: Option<QueueItem>,
    pub playback_session_id: Option<String>,
    pub position_ms: u64,
    pub paused: bool,
    pub volume_percent: u8,
    pub history: Seq<PlaybackCommand>,
}

impl View for LocalPlaybackSnapshot {
    type V = PlaybackSnapshotView;

    open spec fn view(&self) -> PlaybackSnapshotView {
        PlaybackSnapshotView {
            current_item: self.current_item,
            playback_session_id: self.playback_session_id,
            position_ms: self.position_ms,
            paused: self.paused,
            volume_percent: self.volume_percent,
            history: self.history@,
        }
    }
}

impl PlaybackSnapshotView {
    /// The snapshot while nothing plays.
    pub open spec fn cleared(self, position_ms: u64) -> Self {
        PlaybackSnapshotView {
            current_item: None,
            playback_session_id: None,
            position_ms,
            paused: false,
            ..self
        }
    }

    /// The snapshot with one more command in its history.
    pub open spec fn recorded(self, command: PlaybackCommand) -> Self {
        PlaybackSnapshotView { history: self.history.push(command), ..self }
    }
}

impl Default for LocalPlaybackSnapshot {
    fn default() -> (snapshot: Self)
        ensures
            snapshot@.current_item is None,
            snapshot@.playback_session_id is None,
            snapshot@.position_ms == 0,
            !snapshot@.paused,
            snapshot@.volume_percent == AudioSettings::DEFAULT_VOLUME_PERCENT,
            snapshot@.history.len() == 0,
    {
        LocalPlaybackSnapshot {
            current_item: None,
            playback_session_id: None,
            position_ms: 0,
            paused: false,
            volume_percent: AudioSettings::DEFAULT_VOLUME_PERCENT,
            history: Vec::new(),
        }
    }
}

impl Clone for LocalPlaybackSnapshot {
    fn clone(&self) -> (copy: Self)
        ensures
            copy@ == self@,
    {
        LocalPlaybackSnapshot {
            current_item: match &self.current_item {
                Some(item) => Some(item.clone()),
                None => None,
            },
            playback_session_id: self.playback_session_id.clone(),
            position_ms: self.position_ms,
            paused: self.paused,
            volume_percent: self.volume_percent,
            history: self.history.clone(),
        }
    }
}

/// The snapshot as others may read it.
#[derive(Debug)]
pub struct SharedPlaybackState {
    inner: LocalPlaybackSnapshot,
}

impl View for SharedPlaybackState {
    type V = PlaybackSnapshotView;

    closed spec fn view(&self) -> PlaybackSnapshotView {
        self.inner@
    }
}

impl Default for SharedPlaybackState {
    fn default() -> (state: Self)
        ensures
            state@.current_item is None,
            state@.playback_session_id is None,
            state@.position_ms == 0,
            !state@.paused,
            state@.volume_percent == AudioSettings::DEFAULT_VOLUME_PERCENT,
            state@.history.len() == 0,
    {
        SharedPlaybackState { inner: LocalPlaybackSnapshot::default() }
    }
}

impl SharedPlaybackState {
    /// A copy of the snapshot.
    pub fn snapshot(&self) -> (snapshot: LocalPlaybackSnapshot)
        ensures
            snapshot@ == self@,
    {
        self.inner.clone()
    }
}

// ---------------------------------------------------------------------------
// What plays
// ---------------------------------------------------------------------------

/// The state of a sound on the audio device.
#[derive(Debug, Clone, Copy, PartialEq, Eq, Structural)]
pub enum DeviceState {
    Playing,
    Pausing,
    Paused,
    WaitingToResume,
    Resuming,
    Stopping,
    Stopped,
}

/// Whether a sound counts as paused, and whether it counts as finished. Only a
/// fully stopped sound is finished, so a seek or a restart is never mistaken for
/// a natural end.
pub fn derive_playback_flags(state: DeviceState) -> (flags: (bool, bool))
    ensures
        flags.0 == (state != DeviceState::Playing && state != DeviceState::Stopped),
        flags.1 == (state == DeviceState::Stopped),
{
    match state {
        DeviceState::Playing => (false, false),
        DeviceState::Stopped => (false, true),
        _ => (true, false),
    }
}

/// What the worker plays.
#[derive(Debug, PartialEq, Eq)]
pub enum ActivePlayback {
    Simulated {
        playback_session_id: String,
        anchor_ms: u64,
        base_position_ms: u64,
        duration_ms: u64,
        paused: bool,
    },
    Device { playback_session_id: String, queue_item_id: String },
}

/// Something asked of the audio device.
#[derive(Debug, Clone, Copy, PartialEq, Eq, Structural)]
pub enum DeviceCommand {
    Pause,
    Resume,
    Stop,
    SeekTo { position_ms: u64 },
    SetVolume { volume_percent: u8 },
}

/// The position of a simulated playback that is not paused.
pub open spec fn position_at(
    anchor_ms: u64,
    base_position_ms: u64,
    duration_ms: u64,
    now_ms: u64,
) -> u64 {
    let elapsed = if now_ms >= anchor_ms {
        now_ms - anchor_ms
    } else {
        0
    };
    if base_position_ms + elapsed < duration_ms {
        (base_position_ms + elapsed) as u64
    } else {
        duration_ms
    }
}

/// Computes [`position_at`].
pub fn simulated_position_ms(
    anchor_ms: u64,
    base_position_ms: u64,
    duration_ms: u64,
    now_ms: u64,
) -> (position_ms: u64)
    ensures
        position_ms == position_at(anchor_ms, base_position_ms, duration_ms, now_ms),
{
    let elapsed = now_ms.saturating_sub(anchor_ms);
    let position = base_position_ms.saturating_add(elapsed);
    if position < duration_ms {
        position
    } else {
        duration_ms
    }
}

/// What a device reports of the sound that it plays.
#[derive(Debug, Clone, Copy, PartialEq, Eq, Structural)]
pub struct DeviceReport {
    pub state: DeviceState,
    pub position_ms: u64,
}

/// What a look at the playback tells.
#[derive(Debug, PartialEq, Eq)]
pub struct PollReport {
    pub progress: Option<PlaybackWorkerEvent>,
    pub ended: Option<PlaybackWorkerEvent>,
}

/// What follows the request to start an item: it has started, or the device has
/// to open it first.
#[derive(Debug, PartialEq, Eq)]
pub enum StartStep {
    Started { event: PlaybackWorkerEvent },
    Open { item: QueueItem, playback_session_id: String, position_ms: u64 },
}

/// A command to the worker that it answers at once.
#[derive(Debug, Clone, Copy, PartialEq, Eq, Structural)]
pub enum WorkerCommand {
    Pause,
    Resume,
    Stop,
    Seek { position_ms: u64 },
    SetVolume { volume_percent: u8 },
    Shutdown,
}

/// The worker.
pub struct PlaybackWorker {
    shared: SharedPlaybackState,
    active: Option<ActivePlayback>,
    volume_percent: u8,
}

/// The contents of a [`PlaybackWorker`].
pub struct PlaybackWorkerView {
    pub snapshot: PlaybackSnapshotView,
    pub active: Option<ActivePlayback>,
    pub volume_percent: u8,
}

impl View for PlaybackWorker {
    type V = PlaybackWorkerView;

    closed spec fn view(&self) -> PlaybackWorkerView {
        PlaybackWorkerView {
            snapshot: self.shared@,
            active: self.active,
            volume_percent: self.volume_percent,
        }
    }
}

/// What plays, once it was paused: a simulated playback keeps its position.
pub open spec fn paused_playback(active: Option<ActivePlayback>, now_ms: u64) -> Option<
    ActivePlayback,
> {
    match active {
        Some(
            ActivePlayback::Simulated {
                playback_session_id,
                anchor_ms,
                base_position_ms,
                duration_ms,
                paused,
            },
        ) => Some(
            ActivePlayback::Simulated {
                playback_session_id,
                anchor_ms,
                base_position_ms: if paused {
                    base_position_ms
                } else {
                    position_at(anchor_ms, base_position_ms, duration_ms, now_ms)
                },
                duration_ms,
                paused: true,
            },
        ),
        _ => active,
    }
}

/// What plays, once it was resumed: a simulated playback goes on from now.
pub open spec fn resumed_playback(active: Option<ActivePlayback>, now_ms: u64) -> Option<
    ActivePlayback,
> {
    match active {
        Some(
            ActivePlayback::Simulated {
                playback_session_id,
                anchor_ms,
                base_position_ms,
                duration_ms,
                paused,
            },
        ) => Some(
            ActivePlayback::Simulated {
                playback_session_id,
                anchor_ms: if paused {
                    now_ms
                } else {
                    anchor_ms
                },
                base_position_ms,
                duration_ms,
                paused: false,
            },
        ),
        _ => active,
    }
}

/// What plays, once it was sought: a simulated playback goes on from the
/// position, at most from its end.
pub open spec fn sought_playback(
    active: Option<ActivePlayback>,
    position_ms: u64,
    now_ms: u64,
) -> Option<ActivePlayback> {
    match active {
        Some(ActivePlayback::Simulated { playback_session_id, duration_ms, paused, .. }) => Some(
            ActivePlayback::Simulated {
                playback_session_id,
                anchor_ms: now_ms,
                base_position_ms: if position_ms < duration_ms {
                    position_ms
                } else {
                    duration_ms
                },
                duration_ms,
                paused,
            },
        ),
        _ => active,
    }
}

impl PlaybackWorkerView {
    /// Whether the device has a sound.
    pub open spec fn on_device(self) -> bool {
        self.active matches Some(ActivePlayback::Device { .. })
    }

    /// A command for the device, where that has a sound.
    pub open spec fn asks(self, command: DeviceCommand) -> Option<DeviceCommand> {
        if self.on_device() {
            Some(command)
        } else {
            None
        }
    }

    /// The worker, once it has let go of what played.
    pub open spec fn released(self) -> Self {
        PlaybackWorkerView { snapshot: self.snapshot.cleared(0), active: None, ..self }
    }

    /// The worker, once an item has started.
    pub open spec fn started(
        self,
        item: QueueItem,
        playback_session_id: String,
        position_ms: u64,
        active: ActivePlayback,
    ) -> Self {
        PlaybackWorkerView {
            snapshot: PlaybackSnapshotView {
                current_item: Some(item),
                playback_session_id: Some(playback_session_id),
                position_ms,
                paused: false,
                volume_percent: self.volume_percent,
                history: self.snapshot.history.push(
                    PlaybackCommand::Start {
                        playback_session_id,
                        queue_item_id: item.id,
                        position_ms,
                    },
                ),
            },
            active: Some(active),
            ..self
        }
    }

    /// The worker, once it has carried out a command.
    pub open spec fn commanded(self, command: WorkerCommand, now_ms: u64) -> Self {
        match command {
            WorkerCommand::Pause => PlaybackWorkerView {
                snapshot: (PlaybackSnapshotView { paused: true, ..self.snapshot }).recorded(
                    PlaybackCommand::Pause,
                ),
                active: paused_playback(self.active, now_ms),
                ..self
            },
            WorkerCommand::Resume => PlaybackWorkerView {
                snapshot: (PlaybackSnapshotView { paused: false, ..self.snapshot }).recorded(
                    PlaybackCommand::Resume,
                ),
                active: resumed_playback(self.active, now_ms),
                ..self
            },
            WorkerCommand::Stop => PlaybackWorkerView {
                snapshot: self.snapshot.cleared(0).recorded(PlaybackCommand::Stop),
                active: None,
                ..self
            },
            WorkerCommand::Seek { position_ms } => PlaybackWorkerView {
                snapshot: (PlaybackSnapshotView { position_ms, ..self.snapshot }).recorded(
                    PlaybackCommand::Seek { position_ms },
                ),
                active: sought_playback(self.active, position_ms, now_ms),
                ..self
            },
            WorkerCommand::SetVolume { volume_percent } => PlaybackWorkerView {
                snapshot: (PlaybackSnapshotView { volume_percent, ..self.snapshot }).recorded(
                    PlaybackCommand::SetVolume { volume_percent },
                ),
                volume_percent,
                ..self
            },
            WorkerCommand::Shutdown => self.released(),
        }
    }

    /// What a command asks of the device.
    pub open spec fn asked_by(self, command: WorkerCommand) -> Option<DeviceCommand> {
        self.asks(
            match command {
                WorkerCommand::Pause => DeviceCommand::Pause,
                WorkerCommand::Resume => DeviceCommand::Resume,
                WorkerCommand::Stop => DeviceCommand::Stop,
                WorkerCommand::Seek { position_ms } => DeviceCommand::SeekTo { position_ms },
                WorkerCommand::SetVolume { volume_percent } => DeviceCommand::SetVolume {
                    volume_percent,
                },
                WorkerCommand::Shutdown => DeviceCommand::Stop,
            },
        )
    }

    /// The position, the paused flag and the finished flag of what plays.
    pub open spec fn observed(self, now_ms: u64, report: Option<DeviceReport>) -> (u64, bool, bool) {
        match self.active {
            Some(
                ActivePlayback::Simulated { anchor_ms, base_position_ms, duration_ms, paused, .. },
            ) => {
                let position = if paused {
                    base_position_ms
                } else {
                    position_at(anchor_ms, base_position_ms, duration_ms, now_ms)
                };
                (
                    if position < duration_ms {
                        position
                    } else {
                        duration_ms
                    },
                    paused,
                    position >= duration_ms,
                )
            },
            _ => match report {
                Some(report) => (
                    report.position_ms,
                    report.state != DeviceState::Playing && report.state != DeviceState::Stopped,
                    report.state == DeviceState::Stopped,
                ),
                None => (0, false, false),
            },
        }
    }

    /// The session of what plays.
    pub open spec fn session(self) -> String {
        match self.active->0 {
            ActivePlayback::Simulated { playback_session_id, .. } => playback_session_id,
            ActivePlayback::Device { playback_session_id, .. } => playback_session_id,
        }
    }

    /// The id of the item that plays.
    pub open spec fn playing_item_id(self) -> Seq<char> {
        match self.active->0 {
            ActivePlayback::Simulated { .. } => match self.snapshot.current_item {
                Some(item) => item.id@,
                None => Seq::empty(),
            },
            ActivePlayback::Device { queue_item_id, .. } => queue_item_id@,
        }
    }

    /// Whether a start was begun: what played is let go of. An item with a real
    /// source is to be opened on the device; any other is simulated from now on.
    pub open spec fn begins_start(
        self,
        item: QueueItem,
        playback_session_id: String,
        position_ms: u64,
        now_ms: u64,
        step: (Option<DeviceCommand>, StartStep),
        after: Self,
    ) -> bool {
        &&& step.0 == self.asks(DeviceCommand::Stop)
        &&& if crate::youtube::playable_source(item.song.source_url@) {
            &&& step.1 == (StartStep::Open { item, playback_session_id, position_ms })
            &&& after == self.released()
        } else {
            &&& step.1 == (StartStep::Started {
                event: PlaybackWorkerEvent::Started {
                    playback_session_id,
                    queue_item_id: item.id,
                    position_ms,
                },
            })
            &&& after == self.released().started(
                item,
                playback_session_id,
                position_ms,
                ActivePlayback::Simulated {
                    playback_session_id,
                    anchor_ms: now_ms,
                    base_position_ms: position_ms,
                    duration_ms: item.song.duration_ms,
                    paused: false,
                },
            )
        }
    }

    /// Whether a start on the device was ended: the item plays, or the failure is
    /// told.
    pub open spec fn ends_start(
        self,
        item: QueueItem,
        playback_session_id: String,
        position_ms: u64,
        opened: Result<(), PortError>,
        event: PlaybackWorkerEvent,
        after: Self,
    ) -> bool {
        match opened {
            Ok(_) => {
                &&& event == (PlaybackWorkerEvent::Started {
                    playback_session_id,
                    queue_item_id: item.id,
                    position_ms,
                })
                &&& after == self.started(
                    item,
                    playback_session_id,
                    position_ms,
                    ActivePlayback::Device { playback_session_id, queue_item_id: item.id },
                )
            },
            Err(error) => {
                &&& event matches PlaybackWorkerEvent::StartFailed {
                    playback_session_id: session,
                    queue_item_id,
                    code,
                    message,
                }
                &&& session == playback_session_id
                &&& queue_item_id == item.id
                &&& code@ == error.spec_code()
                &&& message@ == error.spec_message()
                &&& after == self.released()
            },
        }
    }

    /// Whether `told` is what a look at what plays tells: nothing where nothing
    /// plays, else the position, and the end where it has come.
    pub open spec fn tells(
        self,
        now_ms: u64,
        report: Option<DeviceReport>,
        told: PollReport,
    ) -> bool {
        match self.active {
            None => told.progress is None && told.ended is None,
            Some(_) => {
                let (position_ms, paused, finished) = self.observed(now_ms, report);
                &&& told.progress == Some(
                    PlaybackWorkerEvent::Progress {
                        playback_session_id: self.session(),
                        position_ms,
                        paused,
                    },
                )
                &&& told.ended is Some <==> finished
                &&& finished ==> {
                    &&& told.ended matches Some(
                        PlaybackWorkerEvent::Ended {
                            playback_session_id,
                            queue_item_id,
                            position_ms: end,
                        },
                    )
                    &&& playback_session_id == self.session()
                    &&& queue_item_id@ == self.playing_item_id()
                    &&& end == position_ms
                }
            },
        }
    }

    /// The worker, once it has looked at what plays.
    pub open spec fn polled(self, now_ms: u64, report: Option<DeviceReport>) -> Self {
        let (position_ms, paused, finished) = self.observed(now_ms, report);
        if self.active is None {
            self
        } else if finished {
            PlaybackWorkerView {
                snapshot: self.snapshot.cleared(position_ms),
                active: None,
                ..self
            }
        } else {
            PlaybackWorkerView {
                snapshot: PlaybackSnapshotView { position_ms, paused, ..self.snapshot },
                ..self
            }
        }
    }
}

impl PlaybackWorker {
    /// A worker that plays nothing.
    pub fn new() -> (worker: Self)
        ensures
            worker@.active is None,
            worker@.volume_percent == AudioSettings::DEFAULT_VOLUME_PERCENT,
            worker@.snapshot.current_item is None,
            worker@.snapshot.playback_session_id is None,
            worker@.snapshot.position_ms == 0,
            !worker@.snapshot.paused,
            worker@.snapshot.volume_percent == AudioSettings::DEFAULT_VOLUME_PERCENT,
            worker@.snapshot.history.len() == 0,
    {
        PlaybackWorker {
            shared: SharedPlaybackState::default(),
            active: None,
            volume_percent: AudioSettings::DEFAULT_VOLUME_PERCENT,
        }
    }

    /// What the worker shows of itself.
    pub fn shared(&self) -> (shared: &SharedPlaybackState)
        ensures
            shared@ == self@.snapshot,
    {
        &self.shared
    }

    /// Whether the device has a sound.
    pub fn on_device(&self) -> (r: bool)
        ensures
            r == self@.on_device(),
    {
        match &self.active {
            Some(ActivePlayback::Device { .. }) => true,
            _ => false,
        }
    }

    /// The volume at which the next item starts.
    pub fn volume_percent(&self) -> (volume_percent: u8)
        ensures
            volume_percent == self@.volume_percent,
    {
        self.volume_percent
    }

    fn clear_snapshot(&mut self, position_ms: u64)
        ensures
            final(self)@ == (PlaybackWorkerView {
                snapshot: old(self)@.snapshot.cleared(position_ms),
                ..old(self)@
            }),
    {
        self.shared.inner.current_item = None;
        self.shared.inner.playback_session_id = None;
        self.shared.inner.position_ms = position_ms;
        self.shared.inner.paused = false;
    }

    fn device_command(&self, command: DeviceCommand) -> (asked: Option<DeviceCommand>)
        ensures
            asked == self@.asks(command),
    {
        if self.on_device() {
            Some(command)
        } else {
            None
        }
    }

    /// Lets go of what plays; a stop that was asked for goes into the history.
    pub fn clear_active_playback(&mut self, record_stop: bool) -> (asked: Option<DeviceCommand>)
        ensures
            asked == old(self)@.asks(DeviceCommand::Stop),
            final(self)@ == if record_stop {
                old(self)@.commanded(WorkerCommand::Stop, 0)
            } else {
                old(self)@.released()
            },
    {
        let asked = self.device_command(DeviceCommand::Stop);
        self.active = None;
        self.clear_snapshot(0);
        if record_stop {
            self.shared.inner.history.push(PlaybackCommand::Stop);
        }
        asked
    }

    fn note_start(
        &mut self,
        item: QueueItem,
        playback_session_id: String,
        position_ms: u64,
        active: ActivePlayback,
    ) -> (event: PlaybackWorkerEvent)
        ensures
            final(self)@ == old(self)@.started(item, playback_session_id, position_ms, active),
            event == (PlaybackWorkerEvent::Started {
                playback_session_id,
                queue_item_id: item.id,
                position_ms,
            }),
    {
        let queue_item_id = item.id.clone();
        self.active = Some(active);
        self.shared.inner.current_item = Some(item);
        self.shared.inner.playback_session_id = Some(playback_session_id.clone());
        self.shared.inner.position_ms = position_ms;
        self.shared.inner.paused = false;
        self.shared.inner.volume_percent = self.volume_percent;
        self.shared.inner.history.push(
            PlaybackCommand::Start {
                playback_session_id: playback_session_id.clone(),
                queue_item_id: queue_item_id.clone(),
                position_ms,
            },
        );
        PlaybackWorkerEvent::Started { playback_session_id, queue_item_id, position_ms }
    }

    /// Lets go of what plays and starts an item. One with a real source has to be
    /// opened on the device, and [`PlaybackWorker::finish_start`] goes on from
    /// there; any other is simulated and has started.
    pub fn handle_start(
        &mut self,
        item: QueueItem,
        playback_session_id: String,
        position_ms: u64,
        now_ms: u64,
    ) -> (step: (Option<DeviceCommand>, StartStep))
        ensures
            old(self)@.begins_start(
                item,
                playback_session_id,
                position_ms,
                now_ms,
                step,
                final(self)@,
            ),
    {
        let asked = self.clear_active_playback(false);
        if should_simulate_source(item.song.source_url.as_str()) {
            let active = ActivePlayback::Simulated {
                playback_session_id: playback_session_id.clone(),
                anchor_ms: now_ms,
                base_position_ms: position_ms,
                duration_ms: item.song.duration_ms,
                paused: false,
            };
            let event = self.note_start(item, playback_session_id, position_ms, active);
            (asked, StartStep::Started { event })
        } else {
            (asked, StartStep::Open { item, playback_session_id, position_ms })
        }
    }

    /// Finishes the start of an item that the device was to open: `opened` tells
    /// whether it could.
    pub fn finish_start(
        &mut self,
        item: QueueItem,
        playback_session_id: String,
        position_ms: u64,
        opened: Result<(), PortError>,
    ) -> (event: PlaybackWorkerEvent)
        requires
            old(self)@.active is None,
        ensures
            old(self)@.ends_start(
                item,
                playback_session_id,
                position_ms,
                opened,
                event,
                final(self)@,
            ),
    {
        match opened {
            Ok(_) => {
                let active = ActivePlayback::Device {
                    playback_session_id: playback_session_id.clone(),
                    queue_item_id: item.id.clone(),
                };
                self.note_start(item, playback_session_id, position_ms, active)
            },
            Err(error) => {
                self.clear_snapshot(0);
                PlaybackWorkerEvent::StartFailed {
                    playback_session_id,
                    queue_item_id: item.id,
                    code: error.code().to_owned(),
                    message: error.message().to_owned(),
                }
            },
        }
    }

    /// Pauses what plays.
    pub fn handle_pause(&mut self, now_ms: u64) -> (asked: Option<DeviceCommand>)
        ensures
            asked == old(self)@.asked_by(WorkerCommand::Pause),
            final(self)@ == old(self)@.commanded(WorkerCommand::Pause, now_ms),
    {
        let asked = self.device_command(DeviceCommand::Pause);
        match self.active.take() {
            Some(
                ActivePlayback::Simulated {
                    playback_session_id,
                    anchor_ms,
                    base_position_ms,
                    duration_ms,
                    paused,
                },
            ) => {
                let base_position_ms = if paused {
                    base_position_ms
                } else {
                    simulated_position_ms(anchor_ms, base_position_ms, duration_ms, now_ms)
                };
                self.active = Some(
                    ActivePlayback::Simulated {
                        playback_session_id,
                        anchor_ms,
                        base_position_ms,
                        duration_ms,
                        paused: true,
                    },
                );
            },
            other => {
                self.active = other;
            },
        }
        self.shared.inner.paused = true;
        self.shared.inner.history.push(PlaybackCommand::Pause);
        asked
    }

    /// Plays on.
    pub fn handle_resume(&mut self, now_ms: u64) -> (asked: Option<DeviceCommand>)
        ensures
            asked == old(self)@.asked_by(WorkerCommand::Resume),
            final(self)@ == old(self)@.commanded(WorkerCommand::Resume, now_ms),
    {
        let asked = self.device_command(DeviceCommand::Resume);
        match self.active.take() {
            Some(
                ActivePlayback::Simulated {
                    playback_session_id,
                    anchor_ms,
                    base_position_ms,
                    duration_ms,
                    paused,
                },
            ) => {
                let anchor_ms = if paused {
                    now_ms
                } else {
                    anchor_ms
                };
                self.active = Some(
                    ActivePlayback::Simulated {
                        playback_session_id,
                        anchor_ms,
                        base_position_ms,
                        duration_ms,
                        paused: false,
                    },
                );
            },
            other => {
                self.active = other;
            },
        }
        self.shared.inner.paused = false;
        self.shared.inner.history.push(PlaybackCommand::Resume);
        asked
    }

    /// Stops what plays.
    pub fn handle_stop(&mut self) -> (asked: Option<DeviceCommand>)
        ensures
            asked == old(self)@.asked_by(WorkerCommand::Stop),
            final(self)@ == old(self)@.commanded(WorkerCommand::Stop, 0),
    {
        self.clear_active_playback(true)
    }

    /// Seeks in what plays.
    pub fn handle_seek(&mut self, position_ms: u64, now_ms: u64) -> (asked: Option<DeviceCommand>)
        ensures
            asked == old(self)@.asked_by(WorkerCommand::Seek { position_ms }),
            final(self)@ == old(self)@.commanded(WorkerCommand::Seek { position_ms }, now_ms),
    {
        let asked = self.device_command(DeviceCommand::SeekTo { position_ms });
        match self.active.take() {
            Some(
                ActivePlayback::Simulated {
                    playback_session_id,
                    anchor_ms: _,
                    base_position_ms: _,
                    duration_ms,
                    paused,
                },
            ) => {
                let base_position_ms = if position_ms < duration_ms {
                    position_ms
                } else {
                    duration_ms
                };
                self.active = Some(
                    ActivePlayback::Simulated {
                        playback_session_id,
                        anchor_ms: now_ms,
                        base_position_ms,
                        duration_ms,
                        paused,
                    },
                );
            },
            other => {
                self.active = other;
            },
        }
        self.shared.inner.position_ms = position_ms;
        self.shared.inner.history.push(PlaybackCommand::Seek { position_ms });
        asked
    }

    /// Sets the volume of what plays and of what will play.
    pub fn handle_set_volume(&mut self, volume_percent: u8) -> (asked: Option<DeviceCommand>)
        ensures
            asked == old(self)@.asked_by(WorkerCommand::SetVolume { volume_percent }),
            final(self)@ == old(self)@.commanded(WorkerCommand::SetVolume { volume_percent }, 0),
    {
        let asked = self.device_command(DeviceCommand::SetVolume { volume_percent });
        self.volume_percent = volume_percent;
        self.shared.inner.volume_percent = volume_percent;
        self.shared.inner.history.push(PlaybackCommand::SetVolume { volume_percent });
        asked
    }

    /// Carries out a command: what it asks of the device, and whether the worker
    /// goes on.
    pub fn handle(&mut self, command: WorkerCommand, now_ms: u64) -> (outcome: (
        Option<DeviceCommand>,
        bool,
    ))
        ensures
            outcome.0 == old(self)@.asked_by(command),
            outcome.1 == (command != WorkerCommand::Shutdown),
            final(self)@ == old(self)@.commanded(command, now_ms),
    {
        match command {
            WorkerCommand::Pause => (self.handle_pause(now_ms), true),
            WorkerCommand::Resume => (self.handle_resume(now_ms), true),
            WorkerCommand::Stop => (self.handle_stop(), true),
            WorkerCommand::Seek { position_ms } => (self.handle_seek(position_ms, now_ms), true),
            WorkerCommand::SetVolume { volume_percent } => (
                self.handle_set_volume(volume_percent),
                true,
            ),
            WorkerCommand::Shutdown => (self.clear_active_playback(false), false),
        }
    }

    /// Looks at what plays: notes and tells its position, and where it has come
    /// to its end tells that too and lets go of it. For a sound on the device its
    /// report is needed.
    pub fn poll_active_playback(&mut self, now_ms: u64, report: Option<DeviceReport>) -> (told:
        PollReport)
        requires
            old(self)@.on_device() ==> report is Some,
        ensures
            final(self)@ == old(self)@.polled(now_ms, report),
            old(self)@.tells(now_ms, report, told),
    {
        let (session, item_id, position_ms, paused, finished) = match &self.active {
            None => return PollReport { progress: None, ended: None },
            Some(
                ActivePlayback::Simulated {
                    playback_session_id,
                    anchor_ms,
                    base_position_ms,
                    duration_ms,
                    paused,
                },
            ) => {
                let position = if *paused {
                    *base_position_ms
                } else {
                    simulated_position_ms(*anchor_ms, *base_position_ms, *duration_ms, now_ms)
                };
                let item_id = match &self.shared.inner.current_item {
                    Some(item) => item.id.clone(),
                    None => String::new(),
                };
                let shown = if position < *duration_ms {
                    position
                } else {
                    *duration_ms
                };
                (playback_session_id.clone(), item_id, shown, *paused, position >= *duration_ms)
            },
            Some(ActivePlayback::Device { playback_session_id, queue_item_id }) => {
                let (paused, finished, position_ms) = match report {
                    Some(report) => {
                        let (paused, finished) = derive_playback_flags(report.state);
                        (paused, finished, report.position_ms)
                    },
                    None => (false, false, 0),
                };
                (playback_session_id.clone(), queue_item_id.clone(), position_ms, paused, finished)
            },
        };
        self.shared.inner.position_ms = position_ms;
        self.shared.inner.paused = paused;
        let progress = PlaybackWorkerEvent::Progress {
            playback_session_id: session.clone(),
            position_ms,
            paused,
        };
        if finished {
            self.clear_snapshot(position_ms);
            self.active = None;
            PollReport {
                progress: Some(progress),
                ended: Some(
                    PlaybackWorkerEvent::Ended {
                        playback_session_id: session,
                        queue_item_id: item_id,
                        position_ms,
                    },
                ),
            }
        } else {
            PollReport { progress: Some(progress), ended: None }
        }
    }
}

// ---------------------------------------------------------------------------
// The player's side
// ---------------------------------------------------------------------------

/// Something for the worker to do.
#[derive(Debug, PartialEq, Eq)]
pub enum WorkerRequest {
    Start { item: QueueItem, playback_session_id: String, position_ms: u64 },
    Command(WorkerCommand),
}

/// A player that hands every call on to a worker.
#[derive(Debug)]
pub struct LocalPlaybackAdapter {
    requests: Vec<WorkerRequest>,
    worker_gone: bool,
}

/// The contents of a [`LocalPlaybackAdapter`].
pub struct PlaybackAdapterView {
    pub requests: Seq<WorkerRequest>,
    pub worker_gone: bool,
}

impl View for LocalPlaybackAdapter {
    type V = PlaybackAdapterView;

    closed spec fn view(&self) -> PlaybackAdapterView {
        PlaybackAdapterView {
            requests: self.requests@,
            worker_gone: self.worker_gone,
        }
    }
}

impl PlaybackAdapterView {
    /// The adapter with one more command for the worker.
    pub open spec fn sent(self, command: WorkerCommand) -> Self {
        PlaybackAdapterView {
            requests: self.requests.push(WorkerRequest::Command(command)),
            ..self
        }
    }

    /// Whether `after` is the adapter once it has passed a start on.
    pub open spec fn begins(
        self,
        item: QueueItem,
        playback_session_id: Seq<char>,
        position_ms: u64,
        after: Self,
    ) -> bool {
        &&& after.worker_gone == self.worker_gone
        &&& after.requests.len() == self.requests.len() + 1
        &&& after.requests.drop_last() == self.requests
        &&& after.requests.last() matches WorkerRequest::Start {
            item: started,
            playback_session_id: session,
            position_ms: position,
        }
        &&& started == item
        &&& session@ == playback_session_id
        &&& position == position_ms
    }

    /// Whether `after` and `reply` are what the adapter makes of a call. Without
    /// its worker every call fails and leaves the adapter as it was.
    pub open spec fn takes(
        self,
        call: PlaybackCall,
        after: Self,
        reply: Result<(), PortError>,
    ) -> bool {
        if self.worker_gone {
            &&& after == self
            &&& reply matches Err(error)
            &&& error.spec_code() == "playback_worker_unavailable"@
            &&& error.spec_message() == "playback worker is no longer available"@
        } else {
            &&& reply is Ok
            &&& match call {
                PlaybackCall::Start { item, playback_session_id, position_ms } => self.begins(
                    item,
                    playback_session_id,
                    position_ms,
                    after,
                ),
                PlaybackCall::SetVolume { volume_percent } => after == self.sent(
                    WorkerCommand::SetVolume { volume_percent },
                ),
                PlaybackCall::Pause => after == self.sent(WorkerCommand::Pause),
                PlaybackCall::Resume => after == self.sent(WorkerCommand::Resume),
                PlaybackCall::Stop => after == self.sent(WorkerCommand::Stop),
                PlaybackCall::Seek { position_ms } => after == self.sent(
                    WorkerCommand::Seek { position_ms },
                ),
            }
        }
    }
}

impl LocalPlaybackAdapter {
    /// A player whose worker is up and has nothing to do.
    pub fn new() -> (adapter: Self)
        ensures
            adapter@.requests.len() == 0,
            !adapter@.worker_gone,
    {
        LocalPlaybackAdapter { requests: Vec::new(), worker_gone: false }
    }

    /// Takes out what the worker has to do, in the order of the calls.
    pub fn take_requests(&mut self) -> (requests: Vec<WorkerRequest>)
        ensures
            requests@ == old(self)@.requests,
            final(self)@ == (PlaybackAdapterView { requests: Seq::empty(), ..old(self)@ }),
    {
        let mut requests: Vec<WorkerRequest> = Vec::new();
        std::mem::swap(&mut requests, &mut self.requests);
        requests
    }

    /// Notes that the worker is gone for good.
    pub fn lose_worker(&mut self)
        ensures
            final(self)@ == (PlaybackAdapterView { worker_gone: true, ..old(self)@ }),
    {
        self.worker_gone = true;
    }

    fn unavailable() -> (error: PortError)
        ensures
            error.spec_code() == "playback_worker_unavailable"@,
            error.spec_message() == "playback worker is no longer available"@,
    {
        PortError::new("playback_worker_unavailable", "playback worker is no longer available")
    }

    fn send(&mut self, command: WorkerCommand) -> (reply: Result<(), PortError>)
        ensures
            old(self)@.worker_gone ==> reply is Err && final(self)@ == old(self)@,
            !old(self)@.worker_gone ==> reply is Ok && final(self)@ == old(self)@.sent(command),
            reply matches Err(error) ==> error.spec_code() == "playback_worker_unavailable"@
                && error.spec_message() == "playback worker is no longer available"@,
    {
        if self.worker_gone {
            return Err(Self::unavailable());
        }
        self.requests.push(WorkerRequest::Command(command));
        Ok(())
    }
}

impl PlaybackPort for LocalPlaybackAdapter {
    open spec fn performs(
        before: Self,
        call: PlaybackCall,
        after: Self,
        reply: Result<(), PortError>,
    ) -> bool {
        before@.takes(call, after@, reply)
    }

    fn start(&mut self, item: &QueueItem, playback_session_id: &str, position_ms: u64) -> (reply:
        Result<(), PortError>) {
        if self.worker_gone {
            return Err(Self::unavailable());
        }
        let ghost before = self.requests@;
        self.requests.push(
            WorkerRequest::Start {
                item: item.clone(),
                playback_session_id: playback_session_id.to_owned(),
                position_ms,
            },
        );
        assert(self.requests@.drop_last() =~= before);
        Ok(())
    }

    fn set_volume(&mut self, volume_percent: u8) -> (reply: Result<(), PortError>) {
        self.send(WorkerCommand::SetVolume { volume_percent })
    }

    fn pause(&mut self) -> (reply: Result<(), PortError>) {
        self.send(WorkerCommand::Pause)
    }

    fn resume(&mut self) -> (reply: Result<(), PortError>) {
        self.send(WorkerCommand::Resume)
    }

    fn stop(&mut self) -> (reply: Result<(), PortError>) {
        self.send(WorkerCommand::Stop)
    }

    fn seek(&mut self, position_ms: u64) -> (reply: Result<(), PortError>) {
        self.send(WorkerCommand::Seek { position_ms })
    }
}

// ---------------------------------------------------------------------------
// Laws of the worker
// ---------------------------------------------------------------------------

/// A simulated playback never goes back and never goes past its end.
pub proof fn simulated_playback_advances(
    anchor_ms: u64,
    base_position_ms: u64,
    duration_ms: u64,
    earlier_ms: u64,
    later_ms: u64,
)
    requires
        earlier_ms <= later_ms,
    ensures
        position_at(anchor_ms, base_position_ms, duration_ms, earlier_ms) <= position_at(
            anchor_ms,
            base_position_ms,
            duration_ms,
            later_ms,
        ) <= duration_ms,
{
}

/// While it is paused a simulated playback stays where it is, and it goes on from
/// there: whatever time passes between a pause and the resumption, the position
/// is that of the pause.
pub proof fn a_pause_keeps_the_position(
    worker: PlaybackWorkerView,
    paused_ms: u64,
    resumed_ms: u64,
)
    requires
        worker.active matches Some(ActivePlayback::Simulated { .. }),
    ensures
        ({
            let paused = worker.commanded(WorkerCommand::Pause, paused_ms);
            let resumed = paused.commanded(WorkerCommand::Resume, resumed_ms);
            &&& paused.observed(resumed_ms, None).0 == worker.observed(paused_ms, None).0
            &&& paused.observed(resumed_ms, None).1
            &&& resumed.observed(resumed_ms, None).0 == worker.observed(paused_ms, None).0
            &&& !resumed.observed(resumed_ms, None).1
        }),
{
}

/// A simulated playback that was sought is where the seek put it, at most at its
/// end, and stays paused if it was.
pub proof fn a_seek_sets_the_position(worker: PlaybackWorkerView, position_ms: u64, now_ms: u64)
    requires
        worker.active matches Some(ActivePlayback::Simulated { .. }),
    ensures
        ({
            let sought = worker.commanded(WorkerCommand::Seek { position_ms }, now_ms);
            let duration_ms = worker.active->0->duration_ms;
            &&& sought.snapshot.position_ms == position_ms
            &&& sought.observed(now_ms, None).0 == if position_ms < duration_ms {
                position_ms
            } else {
                duration_ms
            }
            &&& sought.observed(now_ms, None).1 == worker.observed(now_ms, None).1
        }),
{
}

/// A simulated playback that was sought never stands behind its end, and it moves
/// on from where it was put; to resume one that is not paused changes nothing of
/// where it is.
pub proof fn a_simulated_position_keeps_its_bounds(
    worker: PlaybackWorkerView,
    position_ms: u64,
    now_ms: u64,
    later_ms: u64,
)
    requires
        worker.active matches Some(ActivePlayback::Simulated { .. }),
    ensures
        ({
            let sought = worker.commanded(WorkerCommand::Seek { position_ms }, now_ms);
            &&& sought.active matches Some(
                ActivePlayback::Simulated { base_position_ms, duration_ms, .. },
            )
            &&& base_position_ms <= duration_ms
            &&& duration_ms == worker.active->0->duration_ms
        }),
        !worker.active->0->paused ==> worker.commanded(WorkerCommand::Resume, now_ms).observed(
            later_ms,
            None,
        ) == worker.observed(later_ms, None),
{
}

/// Every command but a shutdown leaves one entry behind what was recorded
/// before, a shutdown and a look at the playback leave none.
pub proof fn commands_are_recorded(
    worker: PlaybackWorkerView,
    command: WorkerCommand,
    now_ms: u64,
    report: Option<DeviceReport>,
)
    ensures
        ({
            let before = worker.snapshot.history;
            let after = worker.commanded(command, now_ms).snapshot.history;
            if command == WorkerCommand::Shutdown {
                after == before
            } else {
                after.len() == before.len() + 1 && after.drop_last() == before
            }
        }),
        worker.polled(now_ms, report).snapshot.history == worker.snapshot.history,
{
    let before = worker.snapshot.history;
    let after = worker.commanded(command, now_ms).snapshot.history;
    if command != WorkerCommand::Shutdown {
        assert(after.drop_last() =~= before);
    }
}

/// What has come to its end is let go of, and is looked at no more.
pub proof fn a_finished_playback_is_gone(
    worker: PlaybackWorkerView,
    now_ms: u64,
    later_ms: u64,
    report: Option<DeviceReport>,
)
    requires
        worker.active is Some,
        worker.observed(now_ms, report).2,
    ensures
        ({
            let after = worker.polled(now_ms, report);
            &&& after.active is None
            &&& after.snapshot.current_item is None
            &&& after.snapshot.playback_session_id is None
            &&& after.snapshot.position_ms == worker.observed(now_ms, report).0
            &&& !after.snapshot.paused
            &&& after.polled(later_ms, None) == after
        }),
{
}

/// A simulated playback is started at the position that was asked for, in its
/// session, and from then on moves with the time up to the length of its song;
/// what played before is let go of, and a sound on the device is stopped.
pub proof fn a_simulated_start_moves_with_the_time(
    worker: PlaybackWorkerView,
    item: QueueItem,
    playback_session_id: String,
    position_ms: u64,
    now_ms: u64,
    elapsed_ms: u64,
    step: (Option<DeviceCommand>, StartStep),
    after: PlaybackWorkerView,
)
    requires
        !crate::youtube::playable_source(item.song.source_url@),
        now_ms + elapsed_ms <= u64::MAX,
        worker.begins_start(item, playback_session_id, position_ms, now_ms, step, after),
    ensures
        step.1 matches StartStep::Started {
            event: PlaybackWorkerEvent::Started {
                playback_session_id: session,
                queue_item_id,
                position_ms: begun,
            },
        } && session == playback_session_id && queue_item_id == item.id && begun == position_ms,
        worker.active matches Some(ActivePlayback::Device { .. }) ==> step.0 == Some(
            DeviceCommand::Stop,
        ),
        !(worker.active matches Some(ActivePlayback::Device { .. })) ==> step.0 is None,
        after.snapshot.current_item == Some(item),
        after.snapshot.playback_session_id == Some(playback_session_id),
        after.snapshot.position_ms == position_ms,
        !after.snapshot.paused,
        after.snapshot.volume_percent == worker.volume_percent,
        ({
            let seen = after.observed((now_ms + elapsed_ms) as u64, None);
            &&& position_ms + elapsed_ms < item.song.duration_ms ==> seen.0 == position_ms
                + elapsed_ms && !seen.2
            &&& position_ms + elapsed_ms >= item.song.duration_ms ==> seen.0
                == item.song.duration_ms && seen.2
            &&& !seen.1
        }),
{
}

/// An item with a real source is opened on the device at the position that was
/// asked for; nothing plays until it is.
pub proof fn a_real_source_is_opened(
    worker: PlaybackWorkerView,
    item: QueueItem,
    playback_session_id: String,
    position_ms: u64,
    now_ms: u64,
    step: (Option<DeviceCommand>, StartStep),
    after: PlaybackWorkerView,
)
    requires
        crate::youtube::playable_source(item.song.source_url@),
        worker.begins_start(item, playback_session_id, position_ms, now_ms, step, after),
    ensures
        step.1 matches StartStep::Open {
            item: wanted,
            playback_session_id: session,
            position_ms: at,
        } && wanted == item && session == playback_session_id && at == position_ms,
        worker.active matches Some(ActivePlayback::Device { .. }) ==> step.0 == Some(
            DeviceCommand::Stop,
        ),
        after.active is None,
        after.snapshot.current_item is None,
        after.volume_percent == worker.volume_percent,
        after.snapshot.history == worker.snapshot.history,
{
}

/// What was opened plays as the device reports it; what could not be opened is
/// told with its code and message, and nothing plays.
pub proof fn an_opened_sound_is_followed(
    worker: PlaybackWorkerView,
    item: QueueItem,
    playback_session_id: String,
    position_ms: u64,
    opened: Result<(), PortError>,
    event: PlaybackWorkerEvent,
    after: PlaybackWorkerView,
    now_ms: u64,
    report: DeviceReport,
)
    requires
        worker.ends_start(item, playback_session_id, position_ms, opened, event, after),
    ensures
        opened is Ok ==> {
            let seen = after.observed(now_ms, Some(report));
            &&& event == (PlaybackWorkerEvent::Started {
                playback_session_id,
                queue_item_id: item.id,
                position_ms,
            })
            &&& after.snapshot.current_item == Some(item)
            &&& after.snapshot.position_ms == position_ms
            &&& after.session() == playback_session_id
            &&& after.playing_item_id() == item.id@
            &&& seen.0 == report.position_ms
            &&& report.state == DeviceState::Stopped ==> seen.2 && !seen.1
            &&& report.state == DeviceState::Playing ==> !seen.2 && !seen.1
            &&& report.state == DeviceState::Paused || report.state == DeviceState::Pausing
                ==> seen.1 && !seen.2
        },
        opened is Err ==> {
            &&& event matches PlaybackWorkerEvent::StartFailed {
                playback_session_id: session,
                queue_item_id,
                code,
                message,
            }
            &&& session == playback_session_id
            &&& queue_item_id == item.id
            &&& code@ == opened->Err_0.spec_code()
            &&& message@ == opened->Err_0.spec_message()
            &&& after.active is None
            &&& after.snapshot.current_item is None
            &&& after.snapshot.playback_session_id is None
        },
{
}

/// A sound on the device gets exactly the command that the worker got; where there
/// is none, the device gets none. The volume is kept for what comes next.
pub proof fn commands_reach_the_device(
    worker: PlaybackWorkerView,
    position_ms: u64,
    volume_percent: u8,
    now_ms: u64,
)
    ensures
        worker.active matches Some(ActivePlayback::Device { .. }) ==> {
            &&& worker.asked_by(WorkerCommand::Pause) == Some(DeviceCommand::Pause)
            &&& worker.asked_by(WorkerCommand::Resume) == Some(DeviceCommand::Resume)
            &&& worker.asked_by(WorkerCommand::Stop) == Some(DeviceCommand::Stop)
            &&& worker.asked_by(WorkerCommand::Shutdown) == Some(DeviceCommand::Stop)
            &&& worker.asked_by(WorkerCommand::Seek { position_ms }) == Some(
                DeviceCommand::SeekTo { position_ms },
            )
            &&& worker.asked_by(WorkerCommand::SetVolume { volume_percent }) == Some(
                DeviceCommand::SetVolume { volume_percent },
            )
        },
        !(worker.active matches Some(ActivePlayback::Device { .. })) ==> {
            &&& worker.asked_by(WorkerCommand::Pause) is None
            &&& worker.asked_by(WorkerCommand::Stop) is None
            &&& worker.asked_by(WorkerCommand::Seek { position_ms }) is None
        },
        ({
            let set = worker.commanded(WorkerCommand::SetVolume { volume_percent }, now_ms);
            &&& set.volume_percent == volume_percent
            &&& set.snapshot.volume_percent == volume_percent
            &&& set.active == worker.active
            &&& set.snapshot.position_ms == worker.snapshot.position_ms
        }),
        ({
            let stopped = worker.commanded(WorkerCommand::Stop, now_ms);
            &&& stopped.active is None
            &&& stopped.snapshot.current_item is None
            &&& stopped.snapshot.playback_session_id is None
            &&& stopped.snapshot.position_ms == 0
            &&& !stopped.snapshot.paused
            &&& stopped.volume_percent == worker.volume_percent
        }),
        worker.commanded(WorkerCommand::Pause, now_ms).snapshot.paused,
        !worker.commanded(WorkerCommand::Resume, now_ms).snapshot.paused,
        worker.commanded(WorkerCommand::Shutdown, now_ms).active is None,
{
}

/// What is recorded of a command is that command.
pub proof fn the_record_names_the_command(
    worker: PlaybackWorkerView,
    position_ms: u64,
    volume_percent: u8,
    now_ms: u64,
)
    ensures
        worker.commanded(WorkerCommand::Pause, now_ms).snapshot.history.last()
            == PlaybackCommand::Pause,
        worker.commanded(WorkerCommand::Resume, now_ms).snapshot.history.last()
            == PlaybackCommand::Resume,
        worker.commanded(WorkerCommand::Stop, now_ms).snapshot.history.last()
            == PlaybackCommand::Stop,
        worker.commanded(WorkerCommand::Seek { position_ms }, now_ms).snapshot.history.last() == (
        PlaybackCommand::Seek { position_ms }),
        worker.commanded(
            WorkerCommand::SetVolume { volume_percent },
            now_ms,
        ).snapshot.history.last() == (PlaybackCommand::SetVolume { volume_percent }),
{
}

/// A look at what plays tells the position of its session, and its end exactly
/// when it has come; where nothing plays there is nothing to tell.
pub proof fn a_look_tells_how_far_it_is(
    worker: PlaybackWorkerView,
    now_ms: u64,
    report: Option<DeviceReport>,
    told: PollReport,
)
    requires
        worker.tells(now_ms, report, told),
    ensures
        worker.active is None ==> told.progress is None && told.ended is None,
        worker.active is Some ==> {
            let after = worker.polled(now_ms, report);
            &&& told.progress matches Some(
                PlaybackWorkerEvent::Progress { playback_session_id, position_ms, paused },
            )
            &&& playback_session_id == worker.session()
            &&& position_ms == after.snapshot.position_ms
            &&& told.ended is None ==> {
                &&& after.active == worker.active
                &&& paused == after.snapshot.paused
                &&& after.snapshot.current_item == worker.snapshot.current_item
            }
            &&& told.ended is Some ==> {
                &&& after.active is None
                &&& told.ended matches Some(
                    PlaybackWorkerEvent::Ended {
                        playback_session_id: session,
                        queue_item_id,
                        position_ms: end,
                    },
                )
                &&& session == worker.session()
                &&& end == position_ms
                &&& queue_item_id@ == worker.playing_item_id()
            }
        },
        worker.active matches Some(
            ActivePlayback::Simulated { playback_session_id, .. },
        ) ==> worker.session() == playback_session_id && (worker.snapshot.current_item matches Some(
            item,
        ) ==> worker.playing_item_id() == item.id@),
        worker.active matches Some(
            ActivePlayback::Device { playback_session_id, queue_item_id },
        ) ==> worker.session() == playback_session_id && worker.playing_item_id() == queue_item_id@,
{
}

/// The adapter passes every call on as it is and in order; without its worker it
/// passes none on and says so.
pub proof fn calls_are_passed_on_in_order(
    before: PlaybackAdapterView,
    call: PlaybackCall,
    after: PlaybackAdapterView,
    reply: Result<(), PortError>,
)
    requires
        before.takes(call, after, reply),
    ensures
        before.worker_gone ==> {
            &&& reply matches Err(error)
            &&& error.spec_code() == "playback_worker_unavailable"@
            &&& after == before
        },
        !before.worker_gone ==> {
            &&& reply is Ok
            &&& after.requests.len() == before.requests.len() + 1
            &&& forall|i: int| 0 <= i < before.requests.len() ==> #[trigger] after.requests[i]
                == before.requests[i]
            &&& match call {
                PlaybackCall::Start { item, playback_session_id, position_ms } => {
                    &&& after.requests.last() matches WorkerRequest::Start {
                        item: started,
                        playback_session_id: session,
                        position_ms: at,
                    }
                    &&& started == item
                    &&& session@ == playback_session_id
                    &&& at == position_ms
                },
                PlaybackCall::Pause => after.requests.last() == WorkerRequest::Command(
                    WorkerCommand::Pause,
                ),
                PlaybackCall::Resume => after.requests.last() == WorkerRequest::Command(
                    WorkerCommand::Resume,
                ),
                PlaybackCall::Stop => after.requests.last() == WorkerRequest::Command(
                    WorkerCommand::Stop,
                ),
                PlaybackCall::Seek { position_ms } => after.requests.last()
                    == WorkerRequest::Command(WorkerCommand::Seek { position_ms }),
                PlaybackCall::SetVolume { volume_percent } => after.requests.last()
                    == WorkerRequest::Command(WorkerCommand::SetVolume { volume_percent }),
            }
        },
{
    if !before.worker_gone {
        assert forall|i: int| 0 <= i < before.requests.len() implies #[trigger] after.requests[i]
            == before.requests[i] by {
            if call is Start {
                assert(after.requests.drop_last()[i] == after.requests[i]);
            }
        }
    }
}

} // verus!
