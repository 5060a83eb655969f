//! A small keyboard-driven music player: the rules that decide what the
//! player does next (track selection, seeking, ticking, media-key commands,
//! key bindings), the music-file scanner's filters, and the text the
//! terminal interface shows.

pub mod app;
pub mod audio;
pub mod mpris;
pub mod scanner;
pub mod tui;
