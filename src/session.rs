//! The data that one room's playback session is made of.

use std::collections::VecDeque;
use vstd::prelude::*;

verus! {

/// What a track carries for display: who made it and what it is called.
#[derive(Clone, Debug, PartialEq, Eq)]
pub struct TrackMetadata {
    pub artist: Option<String>,
    pub title: Option<String>,
}

/// A playable item found by the search backend: where its audio stream
/// lives, how large the stream is, and what to show for it.
#[derive(Clone, Debug, PartialEq, Eq)]
pub struct Track {
    pub url: String,
    pub size: u64,
    pub metadata: Option<TrackMetadata>,
}

/// Identifies the track that the audio engine currently has loaded for a
/// room. The engine hands out one per started track.
#[derive(Clone, Copy, Debug, PartialEq, Eq, Structural)]
pub struct PlaybackHandle {
    pub id: u64,
}

/// How a room repeats what it plays.
#[derive(Clone, Copy, Debug, PartialEq, Eq, Structural)]
pub enum RepeatMode {
    Single,
    No,
}

/// The live playback state of one room: the tracks waiting, in the order
/// they will play, the handle of the track now loaded, and the repeat mode.
#[derive(Debug)]
pub struct GuildData {
    pub queue: VecDeque<Track>,
    pub handle: PlaybackHandle,
    pub repeat: RepeatMode,
}

/// The mathematical model of a session: the waiting tracks as a sequence,
/// front first.
pub struct SessionView {
    pub queue: Seq<Track>,
    pub handle: PlaybackHandle,
    pub repeat: RepeatMode,
}

/// The repeat mode that a new session starts with.
pub open spec fn default_repeat() -> RepeatMode {
    RepeatMode::No
}

/// The session that starts when the first track of a room is loaded.
pub open spec fn fresh_session(handle: PlaybackHandle) -> SessionView {
    SessionView { queue: Seq::empty(), handle: handle, repeat: default_repeat() }
}

impl View for GuildData {
    type V = SessionView;

    open spec fn view(&self) -> SessionView {
        SessionView { queue: self.queue@, handle: self.handle, repeat: self.repeat }
    }
}

impl GuildData {
    /// A session with nothing queued behind the given handle.
    pub fn new(handle: PlaybackHandle) -> (r: GuildData)
        ensures
            r@ == fresh_session(handle),
    {
        GuildData { queue: VecDeque::new(), handle, repeat: RepeatMode::No }
    }
}

} // verus!
