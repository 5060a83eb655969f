use rplayer::scanner::scanner::{is_hidden, is_music, music_files, title_from_path, WalkedEntry};

#[test]
fn music_extensions_are_recognised() {
    assert!(is_music("/home/me/Music/song.mp3"));
    assert!(is_music("a/b.wav"));
    assert!(is_music("a/b.flac"));
    assert!(is_music("a/b.ogg"));
    assert!(is_music("a/b.m4a"));
}

#[test]
fn music_extensions_ignore_case() {
    assert!(is_music("Track.MP3"));
    assert!(is_music("Track.Flac"));
    assert!(is_music("Track.M4A"));
}

#[test]
fn other_files_are_not_music() {
    assert!(!is_music("cover.jpg"));
    assert!(!is_music("notes.txt"));
    assert!(!is_music("song.mp3.bak"));
    assert!(!is_music("mp3"));
    assert!(!is_music("song."));
    assert!(!is_music(""));
    assert!(!is_music("song.mp4"));
}

#[test]
fn extension_comes_from_the_file_name() {
    // A leading dot starts a hidden name, not an extension.
    assert!(!is_music(".mp3"));
    assert!(!is_music("music/.mp3"));
    assert!(is_music("music/.hidden.mp3"));
    // A dot in a directory name does not count.
    assert!(!is_music("album.mp3/cover"));
    // Trailing separators and `.` components are passed over.
    assert!(is_music("music/song.ogg/"));
    assert!(is_music("music/song.ogg/."));
    // A path ending in `..` has no file name.
    assert!(!is_music("music/song.ogg/.."));
    assert!(!is_music("/"));
}

#[test]
fn hidden_entries_start_with_a_dot() {
    assert!(is_hidden(Some(".git")));
    assert!(is_hidden(Some(".")));
    assert!(!is_hidden(Some("Music")));
    assert!(!is_hidden(Some("a.b")));
    assert!(!is_hidden(Some("")));
    assert!(!is_hidden(None));
}

#[test]
fn music_files_keep_walk_order_and_skip_the_rest() {
    let entries = vec![
        WalkedEntry { path: "m".to_string(), is_file: false },
        WalkedEntry { path: "m/b.flac".to_string(), is_file: true },
        WalkedEntry { path: "m/cover.png".to_string(), is_file: true },
        WalkedEntry { path: "m/a.mp3".to_string(), is_file: true },
        WalkedEntry { path: "m/dir.ogg".to_string(), is_file: false },
        WalkedEntry { path: "m/c.OGG".to_string(), is_file: true },
    ];
    let found = music_files(&entries);
    assert_eq!(found, vec!["m/b.flac".to_string(), "m/a.mp3".to_string(), "m/c.OGG".to_string()]);
}

#[test]
fn music_files_of_nothing_is_nothing() {
    assert!(music_files(&Vec::new()).is_empty());
}

#[test]
fn title_is_the_file_stem() {
    assert_eq!(title_from_path("music/Track One.mp3"), "Track One");
    assert_eq!(title_from_path("music/a.b.flac"), "a.b");
    assert_eq!(title_from_path("music/.hidden"), ".hidden");
    assert_eq!(title_from_path("music/.hidden.ogg"), ".hidden");
    assert_eq!(title_from_path("music/noext"), "noext");
    assert_eq!(title_from_path("music/song.ogg/"), "song");
    assert_eq!(title_from_path("music/.."), "");
    assert_eq!(title_from_path(""), "");
}
