use rplayer::app::{validate_path, App, Effect, PathError};
use rplayer::mpris::MprisCommand;
use rplayer::scanner::scanner::TrackAudio;
use rplayer::tui::app::{tick_timeout, Key, TUI};

fn song(name: &str, duration: u64) -> TrackAudio {
    TrackAudio {
        path: format!("music/{name}.mp3"),
        track_title: name.to_string(),
        track_artist: "Artist".to_string(),
        track_duration: duration,
    }
}

fn library(durations: &[u64]) -> App {
    let mut app = App::new("music".to_string());
    for (i, d) in durations.iter().enumerate() {
        app.songs.push(song(&format!("t{i}"), *d));
    }
    app
}

#[test]
fn a_new_library_starts_on_the_first_position() {
    let app = App::new("/home/me/Music".to_string());
    assert_eq!(app.current_song, Some(0));
    assert!(app.songs.is_empty());
    assert_eq!(app.music_path, "/home/me/Music");
    assert!(app.get_current_song().is_none());
}

#[test]
fn current_song_is_the_selected_one() {
    let mut app = library(&[100, 200, 300]);
    assert_eq!(app.get_current_song().unwrap().track_title, "t0");
    app.current_song = Some(2);
    assert_eq!(app.get_current_song().unwrap().track_title, "t2");
    app.current_song = Some(3);
    assert!(app.get_current_song().is_none());
}

#[test]
fn current_title_falls_back_to_empty() {
    let mut app = library(&[100, 200]);
    assert_eq!(app.current_title(), "t0");
    app.current_song = Some(1);
    assert_eq!(app.current_title(), "t1");
    app.current_song = Some(2);
    assert_eq!(app.current_title(), "");
}

#[test]
fn seek_held_within_the_guard_time() {
    let tui = TUI::new(library(&[100]), 1000);
    assert!(tui.seek_held(1000));
    assert!(tui.seek_held(1299));
    assert!(!tui.seek_held(1300));
    assert!(tui.seek_held(10));
}

#[test]
fn validate_path_reports_each_error() {
    assert_eq!(validate_path(false, false), Err(PathError::NotFound));
    assert_eq!(validate_path(true, false), Err(PathError::NotADirectory));
    assert_eq!(validate_path(true, true), Ok(()));
}

#[test]
fn next_song_wraps_to_the_first() {
    let mut app = library(&[100, 200, 300]);
    assert_eq!(app.next_song(), vec![Effect::PlayCurrentSong]);
    assert_eq!(app.current_song, Some(1));
    app.next_song();
    assert_eq!(app.current_song, Some(2));
    app.next_song();
    assert_eq!(app.current_song, Some(0));
}

#[test]
fn next_song_as_often_as_there_are_songs_comes_back() {
    let mut app = library(&[1, 2, 3, 4, 5]);
    app.current_song = Some(3);
    for _ in 0..5 {
        app.next_song();
    }
    assert_eq!(app.current_song, Some(3));
}

#[test]
fn previous_song_undoes_next_song() {
    let mut app = library(&[1, 2, 3]);
    let mut progress = 7;
    app.next_song();
    assert_eq!(app.prev_song(&mut progress), vec![Effect::PlayCurrentSong]);
    assert_eq!(app.current_song, Some(0));
    assert_eq!(progress, 7);
}

#[test]
fn previous_song_on_the_first_restarts_it() {
    let mut app = library(&[1, 2, 3]);
    let mut progress = 42;
    assert_eq!(app.prev_song(&mut progress), vec![Effect::Seek(0)]);
    assert_eq!(app.current_song, Some(0));
    assert_eq!(progress, 0);
}

#[test]
fn toggle_pause_toggles_and_reports() {
    let app = library(&[1]);
    assert_eq!(app.toggle_pause(), vec![Effect::TogglePlayback, Effect::PublishPlaybackStatus]);
}

#[test]
fn media_controls_next_and_previous() {
    let mut app = library(&[10, 20]);
    assert_eq!(
        app.handle_mpris_command(MprisCommand::Next, false),
        vec![Effect::PlayCurrentSong, Effect::ResetPosition]
    );
    assert_eq!(app.current_song, Some(1));
    assert_eq!(
        app.handle_mpris_command(MprisCommand::Previous, false),
        vec![Effect::PlayCurrentSong, Effect::ResetPosition]
    );
    assert_eq!(app.current_song, Some(0));
    assert_eq!(
        app.handle_mpris_command(MprisCommand::Previous, false),
        vec![Effect::ResetPosition, Effect::Seek(0)]
    );
    assert_eq!(app.current_song, Some(0));
}

#[test]
fn media_controls_play_and_pause_only_change_what_differs() {
    let mut app = library(&[10]);
    let toggle = vec![Effect::TogglePlayback, Effect::PublishPlaybackStatus];
    assert_eq!(app.handle_mpris_command(MprisCommand::PlayPause, false), toggle);
    assert_eq!(app.handle_mpris_command(MprisCommand::PlayPause, true), toggle);
    assert_eq!(app.handle_mpris_command(MprisCommand::Play, true), toggle);
    assert!(app.handle_mpris_command(MprisCommand::Play, false).is_empty());
    assert_eq!(app.handle_mpris_command(MprisCommand::Pause, false), toggle);
    assert!(app.handle_mpris_command(MprisCommand::Pause, true).is_empty());
    assert_eq!(app.current_song, Some(0));
}

#[test]
fn media_controls_move_the_highlighted_row_too() {
    let mut tui = TUI::new(library(&[10, 20, 30]), 0);
    tui.progress = 7;
    assert_eq!(
        tui.handle_mpris_command(MprisCommand::Next, false),
        vec![Effect::PlayCurrentSong, Effect::ResetPosition]
    );
    assert_eq!(tui.selected, Some(1));
    assert_eq!(tui.app.current_song, Some(1));
    assert_eq!(tui.progress, 7);
    tui.handle_mpris_command(MprisCommand::Previous, false);
    assert_eq!(tui.selected, Some(0));
    assert_eq!(tui.app.current_song, Some(0));
    tui.handle_mpris_command(MprisCommand::PlayPause, true);
    assert_eq!(tui.selected, Some(0));
}

#[test]
fn interface_starts_on_the_first_row() {
    let tui = TUI::new(library(&[10]), 1234);
    assert_eq!(tui.selected, Some(0));
    assert_eq!(tui.progress, 0);
    assert_eq!(tui.last_seek, Some(1234));
    assert_eq!(tui.max_duration(), 10);
}

#[test]
fn max_duration_is_zero_without_a_song() {
    let tui = TUI::new(library(&[]), 0);
    assert_eq!(tui.max_duration(), 0);
}

#[test]
fn keys_quit_and_pause() {
    let mut tui = TUI::new(library(&[100]), 0);
    assert_eq!(tui.handle_key(Key::Char('q'), 5000), vec![Effect::Quit]);
    let toggle = vec![Effect::TogglePlayback, Effect::PublishPlaybackStatus];
    assert_eq!(tui.handle_key(Key::Char(' '), 5000), toggle);
    assert_eq!(tui.handle_key(Key::Pause, 5000), toggle);
    assert!(tui.handle_key(Key::Char('x'), 5000).is_empty());
    assert!(tui.handle_key(Key::Other, 5000).is_empty());
    assert_eq!(tui.progress, 0);
    assert_eq!(tui.selected, Some(0));
}

#[test]
fn keys_seek_ten_seconds() {
    let mut tui = TUI::new(library(&[100]), 0);
    assert_eq!(tui.handle_key(Key::Char('l'), 1000), vec![Effect::Seek(10)]);
    assert_eq!(tui.handle_key(Key::Char('l'), 2000), vec![Effect::Seek(20)]);
    assert_eq!(tui.handle_key(Key::Char('h'), 3000), vec![Effect::Seek(10)]);
    assert_eq!(tui.progress, 10);
    assert_eq!(tui.last_seek, Some(3000));
}

#[test]
fn keys_change_tracks() {
    let mut tui = TUI::new(library(&[100, 200]), 0);
    tui.progress = 50;
    assert_eq!(tui.handle_key(Key::Char('L'), 0), vec![Effect::PlayCurrentSong]);
    assert_eq!(tui.selected, Some(1));
    assert_eq!(tui.app.current_song, Some(1));
    assert_eq!(tui.progress, 0);
    tui.progress = 30;
    assert_eq!(tui.handle_key(Key::Char('H'), 0), vec![Effect::PlayCurrentSong]);
    assert_eq!(tui.selected, Some(0));
    assert_eq!(tui.app.current_song, Some(0));
    assert_eq!(tui.progress, 0);
}

#[test]
fn seeks_within_the_guard_time_are_ignored() {
    let mut tui = TUI::new(library(&[100]), 0);
    assert!(tui.seek_forward(10, 299).is_empty());
    assert_eq!(tui.seek_forward(10, 300), vec![Effect::Seek(10)]);
    assert!(tui.seek_forward(10, 599).is_empty());
    assert!(tui.seek_backward(10, 450).is_empty());
    assert_eq!(tui.progress, 10);
    assert_eq!(tui.seek_backward(10, 600), vec![Effect::Seek(0)]);
    // A clock that went back counts as no time passed.
    assert!(tui.seek_forward(10, 100).is_empty());
}

#[test]
fn seek_forward_stops_at_the_end_and_back_at_the_start() {
    let mut tui = TUI::new(library(&[25]), 0);
    tui.progress = 20;
    assert_eq!(tui.seek_forward(10, 1000), vec![Effect::Seek(25)]);
    tui.progress = 4;
    assert_eq!(tui.seek_backward(10, 2000), vec![Effect::Seek(0)]);
}

#[test]
fn seek_back_undoes_seek_forward() {
    let mut tui = TUI::new(library(&[100]), 0);
    tui.progress = 42;
    tui.seek_forward(10, 1000);
    tui.seek_backward(10, 2000);
    assert_eq!(tui.progress, 42);
}

#[test]
fn ticks_advance_only_while_playing() {
    let mut tui = TUI::new(library(&[3, 5]), 0);
    assert!(tui.on_tick(false).is_empty());
    assert_eq!(tui.progress, 1);
    assert!(tui.on_tick(true).is_empty());
    assert_eq!(tui.progress, 1);
}

#[test]
fn a_finished_track_gives_way_to_the_next() {
    let mut tui = TUI::new(library(&[3, 5]), 0);
    tui.progress = 2;
    assert_eq!(tui.on_tick(false), vec![Effect::PlayCurrentSong]);
    assert_eq!(tui.app.current_song, Some(1));
    assert_eq!(tui.selected, Some(1));
    assert_eq!(tui.progress, 0);
}

#[test]
fn highlighted_row_follows_the_song() {
    let mut tui = TUI::new(library(&[1, 2, 3]), 0);
    for _ in 0..4 {
        tui.next_row();
        assert_eq!(tui.selected, tui.app.current_song);
    }
    for _ in 0..4 {
        tui.prev_row();
        assert_eq!(tui.selected, tui.app.current_song);
    }
    assert_eq!(tui.selected, Some(0));
}

#[test]
fn tick_timeout_counts_down_a_second() {
    assert_eq!(tick_timeout(0), 1000);
    assert_eq!(tick_timeout(250), 750);
    assert_eq!(tick_timeout(1000), 0);
    assert_eq!(tick_timeout(5000), 0);
}
