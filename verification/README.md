# musictui

A terminal front end for Apple Music on macOS: browse playlists, artists and
the library, search them with fuzzy matching, control playback, volume,
shuffle, repeat and AirPlay, and watch the queue — all driven by AppleScript.

The crate is in two parts.

- `src/` is the library, verified with Verus. It holds the AppleScript the
  program sends (`script`), the parsing of what the scripts answer (`reply`),
  the fuzzy matcher and the ranking of matches (`fuzzy`, `rank`), themes and
  their configuration file (`theme`), the player state (`player`), the
  browsing state and what every key does to it (`model`, `keys`, `events`),
  the shared state the background refresh fills (`state`), and the texts the
  screen shows (`display`, `panels`). `laws` states properties that span
  several keys or functions.
- `app/` is the program around it: the terminal (crossterm), drawing
  (ratatui), running `osascript`, the two-second refresh (tokio), threads
  for slow commands, and the configuration file on disk. Floating-point
  playing positions stay there too.

Keys: Space play/pause, n/p next/previous, s stop, + and - volume, m mute,
←/→ seek 10 s, l love, x shuffle, v repeat, / search, F1 library search,
F3 artists, h recently played, o add to playlist, a AirPlay, t theme,
r refresh, F2 mini player, ? help, q quit.
