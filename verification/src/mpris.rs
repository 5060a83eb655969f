use vstd::prelude::*;

use crate::scanner::scanner::TrackAudio;

verus! {

/// A command that the desktop's media controls send to the player.
#[derive(Debug, Clone, Copy, PartialEq, Eq, Structural)]
pub enum MprisCommand {
    Next,
    Previous,
    PlayPause,
    Play,
    Pause,
}

/// The playback status that the player reports to the desktop.
#[derive(Debug, Clone, Copy, PartialEq, Eq, Structural)]
pub enum PlaybackStatus {
    Playing,
    Paused,
}

/// A message for the media-controls service.
pub enum MprisMsg {
    /// The song now loaded, with its length in seconds.
    UpdateSong { title: String, artist: String, duration: u64 },
    PlaybackStatus(PlaybackStatus),
}

/// The status that a player in the given pause state reports.
pub fn playback_status(is_paused: bool) -> (status: PlaybackStatus)
    ensures
        status == (if is_paused {
            PlaybackStatus::Paused
        } else {
            PlaybackStatus::Playing
        }),
{
    if is_paused {
        PlaybackStatus::Paused
    } else {
        PlaybackStatus::Playing
    }
}

/// The message that announces the playback status of a player in the given
/// pause state.
pub fn playback_status_msg(is_paused: bool) -> (msg: MprisMsg)
    ensures
        msg == MprisMsg::PlaybackStatus(
            if is_paused {
                PlaybackStatus::Paused
            } else {
                PlaybackStatus::Playing
            },
        ),
{
    MprisMsg::PlaybackStatus(playback_status(is_paused))
}

/// The message that announces `song` as the song now loaded: its title,
/// artist and length.
pub fn update_song_msg(song: &TrackAudio) -> (msg: MprisMsg)
    ensures
        msg matches MprisMsg::UpdateSong { title, artist, duration } && title@ == song.track_title@
            && artist@ == song.track_artist@ && duration == song.track_duration,
{
    MprisMsg::UpdateSong {
        title: song.track_title.clone(),
        artist: song.track_artist.clone(),
        duration: song.track_duration,
    }
}

} // verus!
