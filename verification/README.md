# pushmute

A push-to-mute virtual microphone for PipeWire: hold a key (or chord) and every
app reading the default source goes silent, while a comms app pinned to the
physical mic keeps hearing you.

The crate is a verified library plus a thin program around it.

- `src/` — the library, verified with Verus: the daemon's state and mute
  decisions (`daemon`), the run from start to teardown as a state machine
  (`startup`), the control protocol (`ipc`), the hotkey chord and chord-capture
  machines (`input`), the parsers over `pw-dump` JSON and `wpctl inspect` text
  and the tools' argument lists (`pipewire`, on top of `json`), the environment
  checks (`doctor`), the tray's labels and choices (`tray`), notifications,
  autostart and the configuration's values (`config`). `text` holds the
  character-level helpers they share.
- `app/` — the `pushmute` binary: CLI, config file I/O, running the PipeWire
  tools, evdev, the Unix socket, the StatusNotifierItem tray and systemd.
- `tests/` — scenario tests of the library.
