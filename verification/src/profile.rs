//! What the player is built as: the profile of its core and of its
//! infrastructure.

use vstd::prelude::*;

use crate::domain::{PlaybackState, PlaybackStatus};

verus! {

/// The headless core.
#[derive(Debug, Clone, Copy, PartialEq, Eq, Structural)]
pub struct NocturneCore {}

impl Default for NocturneCore {
    fn default() -> (core: Self) {
        NocturneCore::new()
    }
}

impl NocturneCore {
    pub fn new() -> (core: Self) {
        NocturneCore {  }
    }

    /// The way in which the workspace is split up.
    pub fn workspace_profile(self) -> (profile: &'static str)
        ensures
            profile@ == "client-server-v1"@,
    {
        "client-server-v1"
    }

    /// The playback of a player that has just come up.
    pub fn initial_playback_state(self) -> (playback: PlaybackState)
        ensures
            playback == (PlaybackState {
                state: PlaybackStatus::Stopped,
                position_ms: 0,
                current_queue_item_id: None,
                playback_session_id: None,
            }),
    {
        PlaybackState {
            state: PlaybackStatus::Stopped,
            position_ms: 0,
            current_queue_item_id: None,
            playback_session_id: None,
        }
    }
}

/// The kind of adapters that the backend runs with.
#[derive(Debug, Clone, Copy, PartialEq, Eq, Structural)]
pub enum InfrastructureProfile {
    Local,
}

impl InfrastructureProfile {
    /// The profile as it is written.
    pub fn name(self) -> (name: &'static str)
        ensures
            name@ == "local-subprocess-adapters"@,
    {
        match self {
            InfrastructureProfile::Local => "local-subprocess-adapters",
        }
    }
}

} // verus!
