# rplayer

A minimal, keyboard-driven terminal player for local music.

- `src/` is the verified library: what the player decides. Selecting the
  next and previous song, seeking (held within the track, and ignored for
  300 ms after the last seek), the once-a-second tick that moves the playing
  position and starts the next song at the end of a track, the key bindings,
  the media-control commands, which files of the music directory are music
  and which entries are hidden, and the text shown (`MM:SS` times). Each
  decision returns the work it asks for as a list of `Effect`s.
- `app/` is the program around it: argument parsing, walking the music
  directory, audio output, the media-controls service, the terminal loop and
  drawing. It performs the effects the library returns.

Keys: space plays or pauses, `h`/`l` seek 10 s back/forward, `H`/`L` go to the
previous/next track, `q` quits.
