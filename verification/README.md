# winflow

Share one mouse and one clipboard between two Windows machines.

`src/` is the verified library: the decisions of the tool, each with a
contract proved by Verus.

- `hotkey` — which virtual keys a hotkey description such as
  `Ctrl+Alt+Right` names, and whether it is held.
- `cursor_switch` — lock, safe and edge points, and one tick of the loop that
  hands the cursor to the peer and takes it back.
- `input_capture`, `mouse_hook` — forwarding local mouse activity while the
  peer has control (polling loop and low-level hook).
- `input_inject` — the synthetic input records and cursor positions that
  replay the peer's activity.
- `clipboard`, `digest` — which clipboard text is shared, and its SHA-256 hash.
- `file_drop` — base64 pieces of dropped files.
- `control` — how the link flags react to incoming messages.
- `timer` — the clock of the polling loops: the switch cooldown and the
  motion throttle are decided in `src/` from elapsed nanoseconds, and their
  spacing over a run of ticks is proved.
- `protocol`, `config`, `actions`, `text` — the data these work on.

The decision functions return `Action`s; `app/` carries them out with the
Win32 API, runs the threads and the network, and reads and writes the
configuration file.
