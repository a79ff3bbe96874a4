# snaptask

The verified core of SnapTask, a desktop assistant that turns screenshots into tasks:
a screenshot is sent to a vision model, the tasks it finds are confirmed by the user,
stored in SQLite, synchronised between devices (last writer wins) and reminded of.

- `src/` is the library, verified with Verus: task, client and project rules, the list
  query, status changes, reading the model's answer, prompts and requests, the settings
  groups and what an update writes, the sync decisions and state, reminder notices, and
  which command takes a screenshot and how its output and reply are formed. Calls into
  `serde_json`, `uuid` and `base64` stand behind small trusted wrappers in `src/json.rs`
  and `src/outside.rs`.
- `tests/` runs the library on concrete values.
- `app/` is the desktop application around it: Tauri commands, windows, tray and
  hotkeys, the database, HTTP calls, running the capture commands and image scaling.
