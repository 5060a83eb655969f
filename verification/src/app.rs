use vstd::prelude::*;

use crate::mpris::MprisCommand;
use crate::scanner::scanner::TrackAudio;

verus! {

/// Work that a decision of the player hands to the outside world, to be done
/// in the order given.
#[derive(Debug, Clone, Copy, PartialEq, Eq, Structural)]
pub enum Effect {
    /// Move the audio output to this position, in seconds.
    Seek(u64),
    /// Pause the audio output where it plays, resume it where it is paused.
    TogglePlayback,
    /// Report the audio output's pause state to the media controls.
    PublishPlaybackStatus,
    /// Rescan the music directory, then play the current song and announce it.
    PlayCurrentSong,
    /// Set the playing position to 0.
    ResetPosition,
    /// Leave the player.
    Quit,
}

/// Why a music path was refused.
#[derive(Debug, Clone, Copy, PartialEq, Eq, Structural)]
pub enum PathError {
    /// Nothing exists at the path.
    NotFound,
    /// The path names something other than a directory.
    NotADirectory,
}

/// The effects of pausing or resuming: toggle the output, then report its
/// new state.
pub open spec fn toggle_effects() -> Seq<Effect> {
    seq![Effect::TogglePlayback, Effect::PublishPlaybackStatus]
}

/// The song after `current` in a list of `len` songs: the first one after
/// the last.
pub open spec fn next_index(current: int, len: int) -> int {
    if current == len - 1 {
        0
    } else {
        current + 1
    }
}

/// The song before `current`; the first song has none, and stays.
pub open spec fn prev_index(current: int) -> int {
    if current == 0 {
        0
    } else {
        current - 1
    }
}

/// The song reached from `current` by going to the next song `k` times.
pub open spec fn next_index_iter(current: int, len: int, k: nat) -> int
    decreases k,
{
    if k == 0 {
        current
    } else {
        next_index_iter(next_index(current, len), len, (k - 1) as nat)
    }
}

proof fn lemma_next_index_iter_add(current: int, len: int, a: nat, b: nat)
    ensures
        next_index_iter(current, len, a + b) == next_index_iter(
            next_index_iter(current, len, a),
            len,
            b,
        ),
    decreases a,
{
    if a > 0 {
        lemma_next_index_iter_add(next_index(current, len), len, (a - 1) as nat, b);
        assert((a + b - 1) as nat == (a - 1) as nat + b);
    }
}

proof fn lemma_next_index_iter_climbs(current: int, len: int, k: nat)
    requires
        0 <= current,
        current + k < len,
    ensures
        next_index_iter(current, len, k) == current + k,
    decreases k,
{
    if k > 0 {
        lemma_next_index_iter_climbs(current + 1, len, (k - 1) as nat);
    }
}

/// Going to the next song as many times as there are songs comes back to the
/// song one started from.
pub proof fn lemma_next_song_cycles(current: int, len: int)
    requires
        0 <= current < len,
    ensures
        next_index_iter(current, len, len as nat) == current,
{
    let a = (len - 1 - current) as nat;
    let b = (current + 1) as nat;
    assert(len as nat == a + b);
    lemma_next_index_iter_add(current, len, a, b);
    lemma_next_index_iter_climbs(current, len, a);
    assert(next_index(len - 1, len) == 0);
    lemma_next_index_iter_climbs(0, len, current as nat);
}

/// Going back a song undoes going to the next one, wherever that did not
/// wrap around from the last song to the first.
pub proof fn lemma_prev_undoes_next(current: int, len: int)
    requires
        0 <= current,
        current + 1 < len,
    ensures
        prev_index(next_index(current, len)) == current,
{
}

/// Going to the next song undoes going back one, wherever that did not stay
/// on the first song.
pub proof fn lemma_next_undoes_prev(current: int, len: int)
    requires
        0 < current < len,
    ensures
        next_index(prev_index(current), len) == current,
{
}

/// Checks the music path, given whether something exists there and whether
/// it is a directory.
pub fn validate_path(exists: bool, is_dir: bool) -> (r: Result<(), PathError>)
    ensures
        r == (if !exists {
            Err(PathError::NotFound)
        } else if !is_dir {
            Err(PathError::NotADirectory)
        } else {
            Ok(())
        }),
{
    if !exists {
        return Err(PathError::NotFound);
    }
    if !is_dir {
        return Err(PathError::NotADirectory);
    }
    Ok(())
}

/// The player's library: the music directory, the songs found there, and
/// the position of the current song among them.
pub struct App {
    pub music_path: String,
    pub songs: Vec<TrackAudio>,
    /// Always a position; it may lie past the end of a list that a rescan
    /// shortened.
    pub current_song: Option<usize>,
}

impl App {
    /// The music directory.
    pub open spec fn path(self) -> Seq<char> {
        self.music_path@
    }

    /// The position of the current song.
    pub open spec fn current(self) -> Option<usize> {
        self.current_song
    }

    /// A song is always selected (its position may lie past the end of a
    /// list that a rescan shortened).
    pub open spec fn wf(self) -> bool {
        self.current() is Some
    }

    /// The position of the current song, as an integer.
    pub open spec fn current_index(self) -> int {
        self.current().unwrap() as int
    }

    /// The number of songs.
    pub open spec fn len(self) -> int {
        self.songs@.len() as int
    }

    /// The length in seconds of the current song, or 0 where its position
    /// names no song.
    pub open spec fn current_duration(self) -> u64 {
        match self.current() {
            Some(i) => if i < self.songs@.len() {
                self.songs@[i as int].track_duration
            } else {
                0
            },
            None => 0,
        }
    }

    /// `post` is `pre` with the song after the current one selected.
    pub open spec fn next_song_step(pre: App, post: App) -> bool {
        &&& post.current() == Some(next_index(pre.current_index(), pre.len()) as usize)
        &&& post.songs == pre.songs
        &&& post.path() == pre.path()
    }

    /// What going to the previous song does to the library: on the first
    /// song nothing changes and the output is moved back to the start;
    /// elsewhere the song before is selected and played.
    pub open spec fn prev_song_step(pre: App, post: App, effects: Seq<Effect>) -> bool {
        if pre.current_index() == 0 {
            &&& post == pre
            &&& effects == seq![Effect::Seek(0)]
        } else {
            &&& post.current() == Some(prev_index(pre.current_index()) as usize)
            &&& post.songs == pre.songs
            &&& post.path() == pre.path()
            &&& effects == seq![Effect::PlayCurrentSong]
        }
    }

    /// The playing position after going to the previous song: back to 0 on
    /// the first song, kept elsewhere (the song that starts brings its own).
    pub open spec fn prev_song_progress(pre: App, progress: u64) -> u64 {
        if pre.current_index() == 0 {
            0
        } else {
            progress
        }
    }

    /// Whether going to the next song is defined: there are songs, and the
    /// position can grow.
    pub open spec fn can_advance(self) -> bool {
        &&& self.wf()
        &&& self.songs@.len() > 0
        &&& self.current_index() < usize::MAX
    }

    /// A library for the music directory `music_path`, with no songs yet and
    /// the first position selected.
    pub fn new(music_path: String) -> (app: App)
        ensures
            app.wf(),
            app.path() == music_path@,
            app.songs@.len() == 0,
            app.current() == Some(0usize),
    {
        App { music_path, songs: Vec::new(), current_song: Some(0) }
    }

    /// The current song, where its position names one.
    pub fn get_current_song(&self) -> (song: Option<&TrackAudio>)
        ensures
            song == (match self.current() {
                Some(i) => if i < self.songs@.len() {
                    Some(&self.songs@[i as int])
                } else {
                    None
                },
                None => None,
            }),
    {
        match self.current_song {
            Some(i) => if i < self.songs.len() {
                Some(&self.songs[i])
            } else {
                None
            },
            None => None,
        }
    }

    /// The title of the current song, or the empty text where its position
    /// names no song.
    pub fn current_title(&self) -> (title: &str)
        ensures
            title@ == (match self.current() {
                Some(i) => if i < self.songs@.len() {
                    self.songs@[i as int].track_title@
                } else {
                    Seq::<char>::empty()
                },
                None => Seq::<char>::empty(),
            }),
    {
        match self.get_current_song() {
            Some(song) => song.track_title.as_str(),
            None => {
                proof {
                    reveal_strlit("");
                }
                ""
            },
        }
    }

    fn select_song(&mut self, id: usize)
        ensures
            final(self).current() == Some(id),
            final(self).songs == old(self).songs,
            final(self).path() == old(self).path(),
    {
        self.current_song = Some(id)
    }

    /// Selects the song after the current one, the first after the last, and
    /// asks for it to be played.
    pub fn next_song(&mut self) -> (effects: Vec<Effect>)
        requires
            old(self).can_advance(),
        ensures
            final(self).wf(),
            App::next_song_step(*old(self), *final(self)),
            effects@ == seq![Effect::PlayCurrentSong],
    {
        let current = self.current_song.unwrap();
        if current == self.songs.len() - 1 {
            self.select_song(0)
        } else {
            self.select_song(current + 1)
        }
        vec![Effect::PlayCurrentSong]
    }

    /// Goes to the previous song and plays it; on the first song, starts it
    /// over instead.
    pub fn prev_song(&mut self, progress: &mut u64) -> (effects: Vec<Effect>)
        requires
            old(self).wf(),
        ensures
            final(self).wf(),
            App::prev_song_step(*old(self), *final(self), effects@),
            *final(progress) == App::prev_song_progress(*old(self), *old(progress)),
    {
        let current = self.current_song.unwrap();
        if current == 0 {
            *progress = 0;
            let effects = vec![Effect::Seek(0)];
            assert(effects@ =~= seq![Effect::Seek(0)]);
            return effects;
        }
        self.select_song(current - 1);
        let effects = vec![Effect::PlayCurrentSong];
        assert(effects@ =~= seq![Effect::PlayCurrentSong]);
        effects
    }

    /// Pauses playback where it plays and resumes it where it is paused, and
    /// reports the new state.
    pub fn toggle_pause(&self) -> (effects: Vec<Effect>)
        ensures
            effects@ == toggle_effects(),
    {
        vec![Effect::TogglePlayback, Effect::PublishPlaybackStatus]
    }

    /// What one command of the media controls does, given whether the audio
    /// output is paused. Next and previous go through the songs, and the
    /// song they start plays from 0 (on the first song, previous starts it
    /// over); play-pause toggles; play resumes only a paused output, pause
    /// pauses only a playing one. The playing position is changed only
    /// through the effects.
    pub open spec fn mpris_step(
        pre: App,
        post: App,
        cmd: MprisCommand,
        is_paused: bool,
        effects: Seq<Effect>,
    ) -> bool {
        match cmd {
            MprisCommand::Next => {
                &&& App::next_song_step(pre, post)
                &&& effects == seq![Effect::PlayCurrentSong, Effect::ResetPosition]
            },
            MprisCommand::Previous => if pre.current_index() == 0 {
                &&& post == pre
                &&& effects == seq![Effect::ResetPosition, Effect::Seek(0)]
            } else {
                &&& post.current() == Some(prev_index(pre.current_index()) as usize)
                &&& post.songs == pre.songs
                &&& post.path() == pre.path()
                &&& effects == seq![Effect::PlayCurrentSong, Effect::ResetPosition]
            },
            MprisCommand::PlayPause => {
                &&& post == pre
                &&& effects == toggle_effects()
            },
            MprisCommand::Play => {
                &&& post == pre
                &&& effects == (if is_paused {
                    toggle_effects()
                } else {
                    Seq::empty()
                })
            },
            MprisCommand::Pause => {
                &&& post == pre
                &&& effects == (if !is_paused {
                    toggle_effects()
                } else {
                    Seq::empty()
                })
            },
        }
    }

    /// Answers one command of the media controls, given whether the audio
    /// output is paused (see `mpris_step`).
    pub fn handle_mpris_command(&mut self, cmd: MprisCommand, is_paused: bool) -> (effects: Vec<
        Effect,
    >)
        requires
            old(self).wf(),
            cmd == MprisCommand::Next ==> old(self).can_advance(),
        ensures
            final(self).wf(),
            App::mpris_step(*old(self), *final(self), cmd, is_paused, effects@),
    {
        match cmd {
            MprisCommand::Next => {
                let mut effects = self.next_song();
                effects.push(Effect::ResetPosition);
                assert(effects@ =~= seq![Effect::PlayCurrentSong, Effect::ResetPosition]);
                effects
            },
            MprisCommand::Previous => {
                let current = self.current_song.unwrap();
                if current == 0 {
                    let effects = vec![Effect::ResetPosition, Effect::Seek(0)];
                    assert(effects@ =~= seq![Effect::ResetPosition, Effect::Seek(0)]);
                    effects
                } else {
                    self.select_song(current - 1);
                    let effects = vec![Effect::PlayCurrentSong, Effect::ResetPosition];
                    assert(effects@ =~= seq![Effect::PlayCurrentSong, Effect::ResetPosition]);
                    effects
                }
            },
            MprisCommand::PlayPause => self.toggle_pause(),
            MprisCommand::Play => {
                if is_paused {
                    self.toggle_pause()
                } else {
                    Vec::new()
                }
            },
            MprisCommand::Pause => {
                if !is_paused {
                    self.toggle_pause()
                } else {
                    Vec::new()
                }
            },
        }
    }
}

/// The track length that ticks and seeks go by is the current song's own
/// length, and 0 where the position names no song.
pub proof fn lemma_current_duration_is_current_songs(app: App)
    ensures
        forall|i: usize|
            app.current_song == Some(i) && i < app.songs@.len() ==> app.current_duration()
                == #[trigger] app.songs@[i as int].track_duration,
        (app.current_song is None || app.current_song.unwrap() >= app.songs@.len())
            ==> app.current_duration() == 0,
{
}

/// Going back from any song but the first selects the song just before it,
/// keeps the list, and plays it; going back from the first keeps the first.
pub proof fn lemma_prev_song_goes_back_one(pre: App, post: App, effects: Seq<Effect>)
    requires
        pre.wf(),
        App::prev_song_step(pre, post, effects),
    ensures
        pre.current_song.unwrap() > 0 ==> {
            &&& post.current_song == Some((pre.current_song.unwrap() - 1) as usize)
            &&& post.songs == pre.songs
            &&& effects == seq![Effect::PlayCurrentSong]
        },
        pre.current_song.unwrap() == 0 ==> post.current_song == pre.current_song,
{
}

/// Going to the next song selects the song just after the current one, or
/// the first after the last, and keeps the list.
pub proof fn lemma_next_song_goes_forward_one(pre: App, post: App)
    requires
        pre.wf(),
        App::next_song_step(pre, post),
    ensures
        pre.current_song.unwrap() + 1 < pre.songs@.len() ==> post.current_song == Some(
            (pre.current_song.unwrap() + 1) as usize,
        ),
        pre.current_song.unwrap() + 1 == pre.songs@.len() ==> post.current_song == Some(0usize),
        post.songs == pre.songs,
{
}

/// The media controls move through the songs one at a time: previous
/// selects the song just before (the first stays), next the song just after
/// (the first after the last); the other commands leave the library alone.
pub proof fn lemma_mpris_moves_one_song(
    pre: App,
    post: App,
    cmd: MprisCommand,
    is_paused: bool,
    effects: Seq<Effect>,
)
    requires
        pre.wf(),
        App::mpris_step(pre, post, cmd, is_paused, effects),
    ensures
        cmd == MprisCommand::Previous && pre.current_song.unwrap() > 0 ==> post.current_song
            == Some((pre.current_song.unwrap() - 1) as usize),
        cmd == MprisCommand::Previous && pre.current_song.unwrap() == 0 ==> post == pre,
        cmd == MprisCommand::Next && pre.current_song.unwrap() + 1 < pre.songs@.len()
            ==> post.current_song == Some((pre.current_song.unwrap() + 1) as usize),
        cmd == MprisCommand::Next && pre.current_song.unwrap() + 1 == pre.songs@.len()
            ==> post.current_song == Some(0usize),
        post.songs == pre.songs,
        cmd != MprisCommand::Next && cmd != MprisCommand::Previous ==> post == pre,
{
}

} // verus!
