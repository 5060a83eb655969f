use vstd::prelude::*;

use crate::app::{toggle_effects, App, Effect};
use crate::mpris::MprisCommand;

verus! {

/// How long after a seek another seek is ignored, in milliseconds.
pub const SEEK_GUARD_MS: u64 = 300;

/// How often the playing position advances, in milliseconds.
pub const TICK_RATE_MS: u64 = 1000;

/// How far one seek key moves the playing position, in seconds.
pub const SEEK_STEP_SECS: u64 = 10;

/// A key pressed in the terminal.
#[derive(Debug, Clone, Copy, PartialEq, Eq, Structural)]
pub enum Key {
    Char(char),
    /// The keyboard's pause key.
    Pause,
    /// Any other key.
    Other,
}

/// The milliseconds from `since` to `now`; none where `now` is earlier.
pub open spec fn elapsed_ms(since: u64, now: u64) -> int {
    if now >= since {
        now - since
    } else {
        0
    }
}

/// Whether a seek at `now` is carried out: none is, within the guard time of
/// the last one.
pub open spec fn seek_allowed(last_seek: Option<u64>, now: u64) -> bool {
    match last_seek {
        Some(t) => elapsed_ms(t, now) >= SEEK_GUARD_MS,
        None => true,
    }
}

/// The row highlighted after moving down: the first after the last, and the
/// first where none was.
pub open spec fn next_row_index(selected: Option<usize>, len: int) -> int {
    match selected {
        Some(i) => if i >= len - 1 {
            0
        } else {
            i + 1
        },
        None => 0,
    }
}

/// The row highlighted after moving up: the first stays, and the first where
/// none was.
pub open spec fn prev_row_index(selected: Option<usize>) -> int {
    match selected {
        Some(i) => if i == 0 {
            0
        } else {
            i - 1
        },
        None => 0,
    }
}

/// The playing position after seeking `sec` seconds forward, held at the
/// end of the track.
pub open spec fn forward_position(progress: u64, sec: u64, max: u64) -> int {
    if progress + sec < max {
        progress + sec
    } else {
        max as int
    }
}

/// The playing position after seeking `sec` seconds back, held at 0.
pub open spec fn backward_position(progress: u64, sec: u64) -> int {
    if progress >= sec {
        progress - sec
    } else {
        0
    }
}

/// A seek never carries the playing position past the end of the track.
pub proof fn lemma_seek_forward_within_track(progress: u64, sec: u64, max: u64)
    ensures
        forward_position(progress, sec, max) <= max,
{
}

/// Seeking back undoes seeking forward by the same amount, where the forward
/// seek was not held at the end of the track.
pub proof fn lemma_seek_back_undoes_forward(progress: u64, sec: u64, max: u64)
    requires
        progress + sec < max,
    ensures
        forward_position(progress, sec, max) <= u64::MAX,
        backward_position(forward_position(progress, sec, max) as u64, sec) == progress,
{
}

/// After a seek at `t`, seeks are held back until the guard time has passed,
/// and carried out from then on.
pub proof fn lemma_seek_guard(t: u64, now: u64)
    ensures
        (t <= now && now < t + SEEK_GUARD_MS) ==> !seek_allowed(Some(t), now),
        now >= t + SEEK_GUARD_MS ==> seek_allowed(Some(t), now),
{
}

/// How long to wait for a key before the next tick, given the milliseconds
/// since the last tick.
pub open spec fn tick_wait(elapsed: u64) -> int {
    if elapsed < TICK_RATE_MS {
        TICK_RATE_MS - elapsed
    } else {
        0
    }
}

/// How long to wait for a key before the next tick is due.
pub fn tick_timeout(elapsed_since_tick_ms: u64) -> (wait_ms: u64)
    ensures
        wait_ms == tick_wait(elapsed_since_tick_ms),
{
    TICK_RATE_MS.saturating_sub(elapsed_since_tick_ms)
}

/// The state of the terminal interface: the highlighted row of the song
/// table, the library, the playing position in seconds, and the time of the
/// last seek, in milliseconds on the interface's clock.
pub struct TUI {
    pub selected: Option<usize>,
    pub app: App,
    pub progress: u64,
    pub last_seek: Option<u64>,
}

impl TUI {
    /// What moving down a row does: the next row is highlighted, the next
    /// song is selected and played from its start.
    pub open spec fn next_row_step(pre: TUI, post: TUI, effects: Seq<Effect>) -> bool {
        &&& post.selected == Some(next_row_index(pre.selected, pre.app.len()) as usize)
        &&& App::next_song_step(pre.app, post.app)
        &&& post.progress == 0
        &&& post.last_seek == pre.last_seek
        &&& effects == seq![Effect::PlayCurrentSong]
    }

    /// What moving up a row does: the row above is highlighted, and the
    /// library goes to the previous song; the position starts over.
    pub open spec fn prev_row_step(pre: TUI, post: TUI, effects: Seq<Effect>) -> bool {
        &&& post.selected == Some(prev_row_index(pre.selected) as usize)
        &&& App::prev_song_step(pre.app, post.app, effects)
        &&& post.progress == 0
        &&& post.last_seek == pre.last_seek
    }

    /// What a seek to `position` at `now` does, where seeks are not held
    /// back: the position is set, the output moved there, the time kept.
    pub open spec fn seek_step(
        pre: TUI,
        post: TUI,
        now: u64,
        position: int,
        effects: Seq<Effect>,
    ) -> bool {
        if seek_allowed(pre.last_seek, now) {
            &&& post.progress == position
            &&& post.last_seek == Some(now)
            &&& post.selected == pre.selected
            &&& post.app == pre.app
            &&& effects == seq![Effect::Seek(post.progress)]
        } else {
            &&& post == pre
            &&& effects == Seq::<Effect>::empty()
        }
    }

    /// What one tick does: a playing track advances by a second; a track at
    /// or past its end (or no track) gives way to the next row.
    pub open spec fn tick_step(pre: TUI, post: TUI, is_paused: bool, effects: Seq<Effect>) -> bool {
        let p = if is_paused {
            pre.progress as int
        } else {
            pre.progress + 1
        };
        if p >= pre.app.current_duration() {
            TUI::next_row_step(pre, post, effects)
        } else {
            &&& post.progress == p
            &&& post.selected == pre.selected
            &&& post.app == pre.app
            &&& post.last_seek == pre.last_seek
            &&& effects == Seq::<Effect>::empty()
        }
    }

    /// What a command of the media controls does to the interface: the
    /// library answers it (see `App::mpris_step`), and the highlighted row
    /// moves with next and previous as it does with the keys.
    pub open spec fn media_step(
        pre: TUI,
        post: TUI,
        cmd: MprisCommand,
        is_paused: bool,
        effects: Seq<Effect>,
    ) -> bool {
        &&& App::mpris_step(pre.app, post.app, cmd, is_paused, effects)
        &&& post.selected == (match cmd {
            MprisCommand::Next => Some(next_row_index(pre.selected, pre.app.len()) as usize),
            MprisCommand::Previous => Some(prev_row_index(pre.selected) as usize),
            _ => pre.selected,
        })
        &&& post.progress == pre.progress
        &&& post.last_seek == pre.last_seek
    }

    /// Whether a tick is defined: the position can grow, and where the track
    /// ends there is a next song to go to.
    pub open spec fn can_tick(self, is_paused: bool) -> bool {
        let p = if is_paused {
            self.progress as int
        } else {
            self.progress + 1
        };
        &&& self.app.wf()
        &&& !is_paused ==> self.progress < u64::MAX
        &&& p >= self.app.current_duration() ==> self.app.can_advance()
    }

    /// What a key does: `q` quits, `l` and `h` seek ten seconds forward and
    /// back, space and the pause key pause or resume (and report the new state
    /// to the media controls), `L` and `H` go to the
    /// next and previous song; other keys do nothing.
    pub open spec fn key_step(pre: TUI, post: TUI, key: Key, now: u64, effects: Seq<Effect>) -> bool {
        let unchanged = post == pre;
        match key {
            Key::Char(c) => if c == 'q' {
                unchanged && effects == seq![Effect::Quit]
            } else if c == 'l' {
                TUI::seek_step(
                    pre,
                    post,
                    now,
                    forward_position(pre.progress, SEEK_STEP_SECS, pre.app.current_duration()),
                    effects,
                )
            } else if c == 'h' {
                TUI::seek_step(pre, post, now, backward_position(pre.progress, SEEK_STEP_SECS), effects)
            } else if c == ' ' {
                unchanged && effects == toggle_effects()
            } else if c == 'L' {
                TUI::next_row_step(pre, post, effects)
            } else if c == 'H' {
                TUI::prev_row_step(pre, post, effects)
            } else {
                unchanged && effects == Seq::<Effect>::empty()
            },
            Key::Pause => unchanged && effects == toggle_effects(),
            Key::Other => unchanged && effects == Seq::<Effect>::empty(),
        }
    }

    /// Whether a key is defined: moving down needs a next song, and a seek
    /// forward must not overflow the position.
    pub open spec fn can_take_key(self, key: Key, now: u64) -> bool {
        &&& self.app.wf()
        &&& key == Key::Char('L') ==> self.app.can_advance()
        &&& (key == Key::Char('l') && seek_allowed(self.last_seek, now)) ==> self.progress
            + SEEK_STEP_SECS <= u64::MAX
    }

    /// The interface over `app`, with the first row highlighted, the position
    /// at 0, and `now` counting as the last seek.
    pub fn new(app: App, now_ms: u64) -> (tui: TUI)
        ensures
            tui.selected == Some(0usize),
            tui.app == app,
            tui.progress == 0,
            tui.last_seek == Some(now_ms),
    {
        TUI { selected: Some(0), app, progress: 0, last_seek: Some(now_ms) }
    }

    /// The length of the current song in seconds, 0 where there is none.
    pub fn max_duration(&self) -> (max: u64)
        ensures
            max == self.app.current_duration(),
    {
        match self.app.get_current_song() {
            Some(song) => song.track_duration,
            None => 0,
        }
    }

    /// Highlights the next row and plays the next song from its start.
    pub fn next_row(&mut self) -> (effects: Vec<Effect>)
        requires
            old(self).app.can_advance(),
        ensures
            final(self).app.wf(),
            TUI::next_row_step(*old(self), *final(self), effects@),
    {
        let len = self.app.songs.len();
        let i = match self.selected {
            Some(i) => if i >= len - 1 {
                0
            } else {
                i + 1
            },
            None => 0,
        };
        self.selected = Some(i);
        let effects = self.app.next_song();
        self.progress = 0;
        effects
    }

    /// Highlights the row above and goes to the previous song.
    pub fn prev_row(&mut self) -> (effects: Vec<Effect>)
        requires
            old(self).app.wf(),
        ensures
            final(self).app.wf(),
            TUI::prev_row_step(*old(self), *final(self), effects@),
    {
        let i = match self.selected {
            Some(i) => if i == 0 {
                i
            } else {
                i - 1
            },
            None => 0,
        };
        self.selected = Some(i);
        let effects = self.app.prev_song(&mut self.progress);
        self.progress = 0;
        effects
    }

    /// Whether a seek at `now_ms` is held back, coming too soon after the
    /// last one.
    pub fn seek_held(&self, now_ms: u64) -> (held: bool)
        ensures
            held == !seek_allowed(self.last_seek, now_ms),
    {
        match self.last_seek {
            Some(last) => now_ms.saturating_sub(last) < SEEK_GUARD_MS,
            None => false,
        }
    }

    /// Moves the playing position `sec` seconds forward, no further than the
    /// end of the track, unless the last seek was too recent.
    pub fn seek_forward(&mut self, sec: u64, now_ms: u64) -> (effects: Vec<Effect>)
        requires
            seek_allowed(old(self).last_seek, now_ms) ==> old(self).progress + sec <= u64::MAX,
        ensures
            TUI::seek_step(
                *old(self),
                *final(self),
                now_ms,
                forward_position(old(self).progress, sec, old(self).app.current_duration()),
                effects@,
            ),
    {
        if self.seek_held(now_ms) {
            return Vec::new();
        }
        let max = self.max_duration();
        let target = self.progress + sec;
        self.progress = if target < max {
            target
        } else {
            max
        };
        self.last_seek = Some(now_ms);
        let effects = vec![Effect::Seek(self.progress)];
        assert(effects@ =~= seq![Effect::Seek(self.progress)]);
        effects
    }

    /// Moves the playing position `sec` seconds back, no further than the
    /// start, unless the last seek was too recent.
    pub fn seek_backward(&mut self, sec: u64, now_ms: u64) -> (effects: Vec<Effect>)
        ensures
            TUI::seek_step(
                *old(self),
                *final(self),
                now_ms,
                backward_position(old(self).progress, sec),
                effects@,
            ),
    {
        if self.seek_held(now_ms) {
            return Vec::new();
        }
        self.progress = self.progress.saturating_sub(sec);
        self.last_seek = Some(now_ms);
        let effects = vec![Effect::Seek(self.progress)];
        assert(effects@ =~= seq![Effect::Seek(self.progress)]);
        effects
    }

    /// Advances the playing position by a second where the output plays, and
    /// goes to the next row once the track has run out.
    pub fn on_tick(&mut self, is_paused: bool) -> (effects: Vec<Effect>)
        requires
            old(self).can_tick(is_paused),
        ensures
            final(self).app.wf(),
            TUI::tick_step(*old(self), *final(self), is_paused, effects@),
    {
        if !is_paused {
            self.progress = self.progress + 1;
        }
        if self.progress >= self.max_duration() {
            self.next_row()
        } else {
            Vec::new()
        }
    }

    /// Answers a command of the media controls, given whether the audio
    /// output is paused.
    pub fn handle_mpris_command(&mut self, cmd: MprisCommand, is_paused: bool) -> (effects: Vec<
        Effect,
    >)
        requires
            old(self).app.wf(),
            cmd == MprisCommand::Next ==> old(self).app.can_advance(),
        ensures
            final(self).app.wf(),
            TUI::media_step(*old(self), *final(self), cmd, is_paused, effects@),
    {
        let len = self.app.songs.len();
        match cmd {
            MprisCommand::Next => {
                self.selected = Some(
                    match self.selected {
                        Some(i) => if i >= len - 1 {
                            0
                        } else {
                            i + 1
                        },
                        None => 0,
                    },
                );
            },
            MprisCommand::Previous => {
                self.selected = Some(
                    match self.selected {
                        Some(i) => if i == 0 {
                            i
                        } else {
                            i - 1
                        },
                        None => 0,
                    },
                );
            },
            _ => {},
        }
        self.app.handle_mpris_command(cmd, is_paused)
    }

    /// Answers a key pressed at `now_ms`.
    pub fn handle_key(&mut self, key: Key, now_ms: u64) -> (effects: Vec<Effect>)
        requires
            old(self).can_take_key(key, now_ms),
        ensures
            final(self).app.wf(),
            TUI::key_step(*old(self), *final(self), key, now_ms, effects@),
    {
        match key {
            Key::Char('q') => {
                let effects = vec![Effect::Quit];
                assert(effects@ =~= seq![Effect::Quit]);
                effects
            },
            Key::Char('l') => self.seek_forward(SEEK_STEP_SECS, now_ms),
            Key::Char('h') => self.seek_backward(SEEK_STEP_SECS, now_ms),
            Key::Char(' ') | Key::Pause => {
                self.app.toggle_pause()
            },
            Key::Char('L') => self.next_row(),
            Key::Char('H') => self.prev_row(),
            _ => Vec::new(),
        }
    }
}

/// The highlighted row follows the current song: where it is on the current
/// song's position, within the list, it still is after moving a row down or
/// up.
pub proof fn lemma_row_follows_song(pre: TUI, post: TUI, effects: Seq<Effect>)
    requires
        pre.app.wf(),
        pre.selected == pre.app.current(),
        pre.app.current_index() < pre.app.len(),
        TUI::next_row_step(pre, post, effects) || TUI::prev_row_step(pre, post, effects),
    ensures
        post.selected == post.app.current(),
{
}

/// The highlighted row follows the current song through the media controls
/// too: where it is on the current song's position, within the list, it
/// still is after any command.
pub proof fn lemma_row_follows_media_song(
    pre: TUI,
    post: TUI,
    cmd: MprisCommand,
    is_paused: bool,
    effects: Seq<Effect>,
)
    requires
        pre.app.wf(),
        pre.selected == pre.app.current(),
        pre.app.current_index() < pre.app.len(),
        TUI::media_step(pre, post, cmd, is_paused, effects),
    ensures
        post.selected == post.app.current(),
{
}

/// A tick never leaves the playing position at or past the end of the track
/// it started on: at the end it starts the next song from 0.
pub proof fn lemma_tick_stays_within_track(
    pre: TUI,
    post: TUI,
    is_paused: bool,
    effects: Seq<Effect>,
)
    requires
        TUI::tick_step(pre, post, is_paused, effects),
    ensures
        post.progress < pre.app.current_duration() || (post.progress == 0 && effects == seq![
            Effect::PlayCurrentSong,
        ]),
{
}

/// Moving a row goes one row at a time: up from any row but the first
/// highlights the row just above (the first stays), down highlights the row
/// just below (the first after the last).
pub proof fn lemma_rows_move_one(pre: TUI, post: TUI, effects: Seq<Effect>)
    ensures
        TUI::prev_row_step(pre, post, effects) ==> match pre.selected {
            Some(i) => post.selected == Some(if i > 0 {
                (i - 1) as usize
            } else {
                0usize
            }),
            None => post.selected == Some(0usize),
        },
        TUI::next_row_step(pre, post, effects) ==> match pre.selected {
            Some(i) => post.selected == Some(if i + 1 < pre.app.songs@.len() {
                (i + 1) as usize
            } else {
                0usize
            }),
            None => post.selected == Some(0usize),
        },
{
}

/// The media controls move the highlighted row one at a time too: previous
/// highlights the row just above (the first stays), next the row just below
/// (the first after the last); the other commands leave it.
pub proof fn lemma_media_rows_move_one(
    pre: TUI,
    post: TUI,
    cmd: MprisCommand,
    is_paused: bool,
    effects: Seq<Effect>,
)
    requires
        TUI::media_step(pre, post, cmd, is_paused, effects),
    ensures
        cmd == MprisCommand::Previous ==> match pre.selected {
            Some(i) => post.selected == Some(if i > 0 {
                (i - 1) as usize
            } else {
                0usize
            }),
            None => post.selected == Some(0usize),
        },
        cmd == MprisCommand::Next ==> match pre.selected {
            Some(i) => post.selected == Some(if i + 1 < pre.app.songs@.len() {
                (i + 1) as usize
            } else {
                0usize
            }),
            None => post.selected == Some(0usize),
        },
        cmd != MprisCommand::Next && cmd != MprisCommand::Previous ==> post.selected
            == pre.selected,
{
}

/// A tick goes by the current song's own length: while playing, a position
/// one second short of it or more moves on a second within the same song;
/// reaching it starts the next song from 0.
pub proof fn lemma_tick_uses_current_song_length(
    pre: TUI,
    post: TUI,
    effects: Seq<Effect>,
    i: usize,
)
    requires
        TUI::tick_step(pre, post, false, effects),
        pre.app.current_song == Some(i),
        i < pre.app.songs@.len(),
    ensures
        pre.progress + 1 < pre.app.songs@[i as int].track_duration ==> {
            &&& post.progress == pre.progress + 1
            &&& post.app == pre.app
            &&& post.selected == pre.selected
            &&& effects.len() == 0
        },
        pre.progress + 1 >= pre.app.songs@[i as int].track_duration ==> {
            &&& post.progress == 0
            &&& effects == seq![Effect::PlayCurrentSong]
        },
{
}

/// A seek forward is held at the current song's own length.
pub proof fn lemma_seek_forward_held_at_current_song_end(
    pre: TUI,
    post: TUI,
    sec: u64,
    now: u64,
    effects: Seq<Effect>,
    i: usize,
)
    requires
        TUI::seek_step(
            pre,
            post,
            now,
            forward_position(pre.progress, sec, pre.app.current_duration()),
            effects,
        ),
        seek_allowed(pre.last_seek, now),
        pre.app.current_song == Some(i),
        i < pre.app.songs@.len(),
    ensures
        post.progress == (if pre.progress + sec < pre.app.songs@[i as int].track_duration {
            pre.progress + sec
        } else {
            pre.app.songs@[i as int].track_duration as int
        }),
{
}

/// The wait for a key and the time since the last tick add up to one tick
/// period, and the wait is 0 once a tick is overdue.
pub proof fn lemma_tick_wait_completes_the_period(elapsed: u64)
    ensures
        elapsed < TICK_RATE_MS ==> tick_wait(elapsed) + elapsed == TICK_RATE_MS,
        elapsed >= TICK_RATE_MS ==> tick_wait(elapsed) == 0,
        0 <= tick_wait(elapsed) <= TICK_RATE_MS,
{
}

} // verus!
