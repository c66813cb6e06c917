//! Decisions about the audio output.
use vstd::prelude::*;

verus! {

/// What to tell the audio output.
#[derive(PartialEq, Eq, Structural, Clone, Copy, Debug)]
pub enum Transport {
    Play,
    Pause,
}

/// Toggling playback: a paused output resumes, a playing one pauses.
pub fn toggle_transport(paused: bool) -> (t: Transport)
    ensures
        t == (if paused { Transport::Play } else { Transport::Pause }),
{
    if paused { Transport::Play } else { Transport::Pause }
}

} // verus!
