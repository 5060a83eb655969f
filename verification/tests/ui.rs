use rplayer::audio::player::{toggle_command, Transport};
use rplayer::mpris::{playback_status, playback_status_msg, update_song_msg, MprisMsg, PlaybackStatus};
use rplayer::scanner::scanner::TrackAudio;
use rplayer::tui::theme::ThemeColor;
use rplayer::tui::ui::{controls_icon, format_time, progress_label, song_row};
use rplayer::tui::Colors;

#[test]
fn format_time_pads_minutes_and_seconds() {
    assert_eq!(format_time(0), "00:00");
    assert_eq!(format_time(5), "00:05");
    assert_eq!(format_time(59), "00:59");
    assert_eq!(format_time(60), "01:00");
    assert_eq!(format_time(125), "02:05");
    assert_eq!(format_time(3599), "59:59");
}

#[test]
fn format_time_grows_past_99_minutes() {
    assert_eq!(format_time(6000), "100:00");
    assert_eq!(format_time(u64::MAX), "307445734561825860:15");
}

#[test]
fn progress_label_joins_two_times() {
    assert_eq!(progress_label(75, 200), "01:15 / 03:20");
    assert_eq!(progress_label(0, 0), "00:00 / 00:00");
}

#[test]
fn controls_icon_shows_what_a_press_would_do() {
    assert_eq!(controls_icon(true), "\u{f04ae} \u{f040a} \u{f04ad}");
    assert_eq!(controls_icon(false), "\u{f04ae} \u{f03e4} \u{f04ad}");
}

#[test]
fn colors_of_the_theme() {
    assert_eq!(Colors::border(), ThemeColor::Rgb(125, 122, 129));
    assert_eq!(Colors::bg_hover(), ThemeColor::Rgb(182, 215, 221));
    assert_eq!(Colors::text(), ThemeColor::Rgb(170, 165, 179));
    assert_eq!(Colors::text_hover(), ThemeColor::Black);
}

#[test]
fn playback_status_follows_pause_state() {
    assert_eq!(playback_status(true), PlaybackStatus::Paused);
    assert_eq!(playback_status(false), PlaybackStatus::Playing);
    assert!(matches!(playback_status_msg(true), MprisMsg::PlaybackStatus(PlaybackStatus::Paused)));
    assert!(matches!(playback_status_msg(false), MprisMsg::PlaybackStatus(PlaybackStatus::Playing)));
}

#[test]
fn song_update_carries_title_artist_and_length() {
    let song = TrackAudio {
        path: "m/a.mp3".to_string(),
        track_title: "Track One".to_string(),
        track_artist: "RADWIMPS".to_string(),
        track_duration: 192,
    };
    match update_song_msg(&song) {
        MprisMsg::UpdateSong { title, artist, duration } => {
            assert_eq!(title, "Track One");
            assert_eq!(artist, "RADWIMPS");
            assert_eq!(duration, 192);
        }
        MprisMsg::PlaybackStatus(_) => panic!("expected a song update"),
    }
}

#[test]
fn toggling_plays_a_paused_output_and_pauses_a_playing_one() {
    assert_eq!(toggle_command(true), Transport::Play);
    assert_eq!(toggle_command(false), Transport::Pause);
}

#[test]
fn song_row_shows_artist_title_and_length() {
    let song = TrackAudio {
        path: "m/a.mp3".to_string(),
        track_title: "Track Two".to_string(),
        track_artist: "Awairo".to_string(),
        track_duration: 245,
    };
    assert_eq!(song_row(&song), ("Awairo".to_string(), "Track Two".to_string(), "04:05".to_string()));
}
