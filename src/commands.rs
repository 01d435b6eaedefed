//! The decisions of the user commands that read or change a session.

use crate::session::RepeatMode;
use vstd::prelude::*;

verus! {

/// The repeat modes that a user can pick.
#[derive(Clone, Copy, Debug, PartialEq, Eq, Structural)]
pub enum ModeOption {
    Single,
    No,
}

/// The repeat mode that an option stands for.
pub open spec fn mode_of(option: ModeOption) -> RepeatMode {
    match option {
        ModeOption::Single => RepeatMode::Single,
        ModeOption::No => RepeatMode::No,
    }
}

impl ModeOption {
    /// The repeat mode that this option stands for.
    pub fn get_mode(&self) -> (r: RepeatMode)
        ensures
            r == mode_of(*self),
    {
        match self {
            ModeOption::Single => RepeatMode::Single,
            ModeOption::No => RepeatMode::No,
        }
    }
}

/// The state of a loaded track as the audio engine reports it.
#[derive(Clone, Copy, Debug, PartialEq, Eq, Structural)]
pub enum PlayMode {
    Play,
    Pause,
    Stop,
    End,
    Errored,
}

/// What a pause or resume request does, given the track's state.
#[derive(Clone, Copy, Debug, PartialEq, Eq, Structural)]
pub enum Toggle {
    /// The track is paused: resume it.
    Resume,
    /// The track is playing: pause it.
    Pause,
    /// The track has ended: report it, change nothing.
    AlreadyEnded,
    /// The track was stopped: report it, change nothing.
    Stopped,
    /// The track failed: report it, change nothing.
    Failed,
}

/// A paused track resumes and a playing one pauses; a track that is done is
/// reported as it is.
pub open spec fn toggle_of(mode: PlayMode) -> Toggle {
    match mode {
        PlayMode::Play => Toggle::Pause,
        PlayMode::Pause => Toggle::Resume,
        PlayMode::Stop => Toggle::Stopped,
        PlayMode::End => Toggle::AlreadyEnded,
        PlayMode::Errored => Toggle::Failed,
    }
}

/// What a pause or resume request does with a track in this state.
pub fn toggle_playback(mode: PlayMode) -> (r: Toggle)
    ensures
        r == toggle_of(mode),
{
    match mode {
        PlayMode::Play => Toggle::Pause,
        PlayMode::Pause => Toggle::Resume,
        PlayMode::Stop => Toggle::Stopped,
        PlayMode::End => Toggle::AlreadyEnded,
        PlayMode::Errored => Toggle::Failed,
    }
}

} // verus!
