# quickbridge

`quickbridge` plays remote media in QuickTime Player while playback is driven
from the terminal: it relays the source through `ffmpeg`, serves a local HLS
stream, and jumps to other timestamps without restarting the player.

This crate holds that program's logic as a library verified with Verus, and a
thin program around it.

## Layout

- `src/` — the verified library. Every function has a `requires`/`ensures`
  contract over spec functions and views, and the laws that span several
  functions are public proof functions (`lemma_*`):
  - `timecode`, `command`: timestamps and prompt commands, with the law that a
    formatted timestamp parses back and that relative jumps keep their sign;
  - `media`, `probe`, `ffmpeg`, `player`, `source`, `prepare`: reading ffprobe
    output, choosing tracks, Apple packaging, the ffmpeg and AppleScript
    commands, and how a source is checked;
  - `session`, `playback`, `serving`, `server`, `paths`, `telemetry`: the
    playback state machine with its rollback laws, the HLS playlist and
    segment bookkeeping, served paths that stay inside the session
    directory, and the relay rates;
  - `ui`, `interaction`, `labels`, `editor`, `terminal`, `text`, `scripted`:
    the interactive and scripted front-ends' state, key handling, caret
    editing and every text they show.
- `tests/` — tests of the library on concrete values.
- `app/` — the program: arguments, processes, files, the HTTP server, the
  terminal UI drawing and the event loops, which hand plain values to the
  library and act on what it decides.
- `extras/sample-session.m3u8` — the shape of a session playlist as ffmpeg
  writes it and the server module reads it: segment names
  `segment_{session:04}_{index:05}.m4s`, each after its `#EXTINF` duration.
