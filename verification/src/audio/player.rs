use vstd::prelude::*;

verus! {

/// A command for the audio output.
#[derive(Debug, Clone, Copy, PartialEq, Eq, Structural)]
pub enum Transport {
    Play,
    Pause,
}

/// The command that toggles an output in the given pause state: a paused
/// output plays, a playing one pauses.
pub fn toggle_command(is_paused: bool) -> (cmd: Transport)
    ensures
        cmd == (if is_paused {
            Transport::Play
        } else {
            Transport::Pause
        }),
{
    if is_paused {
        Transport::Play
    } else {
        Transport::Pause
    }
}

} // verus!
