# TermTunes

A terminal music player for Plex Media Server, with its decision logic
verified by Verus.

- `src/` is the verified library: the player's state machine (views,
  navigation, sequential and shuffled order, repeat modes, volume budget,
  ambient channel, favorites, session restore), the Plex connection choice
  and URLs, the sign-in decisions, WSL2 audio setup decisions, playback
  position arithmetic, and the texts and layout of the screen. Each public
  function states its result in its contract; `src/laws.rs` holds the
  properties that span several operations.
- `app/` is the program around it: terminal and key events, HTTP requests,
  the audio device, files on disk, and the spectrum visualizer.
- `tests/` runs the library on concrete values.
