//! Domain models shared by every surface of the player.

use vstd::prelude::*;

verus! {

/// Output settings of the player.
#[derive(Debug, Clone, Copy, PartialEq, Eq, Structural)]
pub struct AudioSettings {
    pub volume_percent: u8,
}

impl AudioSettings {
    pub const DEFAULT_VOLUME_PERCENT: u8 = 50;

    /// Settings with the given volume, taken as it is.
    pub fn new(volume_percent: u8) -> (settings: Self)
        ensures
            settings.volume_percent == volume_percent,
    {
        Self { volume_percent }
    }

    /// The same settings with a volume of at most one hundred percent.
    pub open spec fn spec_clamped(self) -> Self {
        AudioSettings {
            volume_percent: if self.volume_percent > 100 {
                100
            } else {
                self.volume_percent
            },
        }
    }

    /// Computes [`AudioSettings::spec_clamped`].
    pub fn clamped(self) -> (settings: Self)
        ensures
            settings == self.spec_clamped(),
    {
        Self {
            volume_percent: if self.volume_percent > 100 {
                100
            } else {
                self.volume_percent
            },
        }
    }
}

impl Default for AudioSettings {
    fn default() -> (settings: Self)
        ensures
            settings.volume_percent == AudioSettings::DEFAULT_VOLUME_PERCENT,
    {
        Self::new(Self::DEFAULT_VOLUME_PERCENT)
    }
}

/// Clamped settings are in range, and clamping them again changes nothing.
pub proof fn clamping_is_idempotent(settings: AudioSettings)
    ensures
        settings.spec_clamped().volume_percent <= 100,
        settings.spec_clamped().spec_clamped() == settings.spec_clamped(),
        settings.volume_percent <= 100 ==> settings.spec_clamped() == settings,
{
}

/// A playable song.
#[derive(Debug, PartialEq, Eq)]
pub struct Song {
    pub id: String,
    pub title: String,
    pub channel_name: String,
    pub duration_ms: u64,
    pub source_url: String,
}

/// The contents of a [`Song`].
pub struct SongView {
    pub id: Seq<char>,
    pub title: Seq<char>,
    pub channel_name: Seq<char>,
    pub duration_ms: u64,
    pub source_url: Seq<char>,
}

impl View for Song {
    type V = SongView;

    open spec fn view(&self) -> SongView {
        SongView {
            id: self.id@,
            title: self.title@,
            channel_name: self.channel_name@,
            duration_ms: self.duration_ms,
            source_url: self.source_url@,
        }
    }
}

impl Clone for Song {
    fn clone(&self) -> (copy: Self)
        ensures
            copy == *self,
    {
        Song {
            id: self.id.clone(),
            title: self.title.clone(),
            channel_name: self.channel_name.clone(),
            duration_ms: self.duration_ms,
            source_url: self.source_url.clone(),
        }
    }
}

/// Where a queue item stands in its life.
#[derive(Debug, Clone, Copy, PartialEq, Eq, Structural)]
pub enum QueueItemStatus {
    Queued,
    Loading,
    Playing,
    Finished,
    Failed,
}

/// A song in the queue.
#[derive(Debug, PartialEq, Eq)]
pub struct QueueItem {
    pub id: String,
    pub song: Song,
    pub added_at: String,
    pub status: QueueItemStatus,
}

impl Clone for QueueItem {
    fn clone(&self) -> (copy: Self)
        ensures
            copy == *self,
    {
        QueueItem {
            id: self.id.clone(),
            song: self.song.clone(),
            added_at: self.added_at.clone(),
            status: self.status,
        }
    }
}

impl QueueItem {
    /// The same item with another status.
    pub open spec fn with_status(self, status: QueueItemStatus) -> Self {
        QueueItem { id: self.id, song: self.song, added_at: self.added_at, status }
    }
}

/// What the player is doing.
#[derive(Debug, Clone, Copy, PartialEq, Eq, Structural)]
pub enum PlaybackStatus {
    Stopped,
    Loading,
    Playing,
    Paused,
}

/// The playback part of the player's state.
#[derive(Debug, PartialEq, Eq)]
pub struct PlaybackState {
    pub state: PlaybackStatus,
    pub position_ms: u64,
    pub current_queue_item_id: Option<String>,
    pub playback_session_id: Option<String>,
}

impl Clone for PlaybackState {
    fn clone(&self) -> (copy: Self)
        ensures
            copy == *self,
    {
        PlaybackState {
            state: self.state,
            position_ms: self.position_ms,
            current_queue_item_id: self.current_queue_item_id.clone(),
            playback_session_id: self.playback_session_id.clone(),
        }
    }
}

/// A copy of a list of queue items.
pub fn clone_items(items: &Vec<QueueItem>) -> (copy: Vec<QueueItem>)
    ensures
        copy@ == items@,
{
    items.clone()
}

/// A copy of a list of songs.
pub fn clone_songs(songs: &Vec<Song>) -> (copy: Vec<Song>)
    ensures
        copy@ == songs@,
{
    songs.clone()
}

/// A copy of an optional song.
pub fn clone_opt_song(song: &Option<Song>) -> (copy: Option<Song>)
    ensures
        copy == *song,
{
    match song {
        Some(song) => Some(song.clone()),
        None => None,
    }
}

} // verus!
