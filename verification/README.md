# cinema_engine

The engine of a mobile-first video editing studio, with its rules proved by
Verus: the project state and its validation, undo/redo, the assistant's
suggestions and actions, device-adaptive quality, playback, the render
scheduler, export records and segments, recovery of a damaged project,
subscriptions to engine events, and the account, billing and beta rules.

Layout:

- `src/`: the verified library. Every function carries a contract; the
  calls into `uuid`, `chrono`, `sha2` and a few std functions go through
  small trusted wrappers (`ids.rs`, `paths.rs`, `text.rs`,
  `persistence/checksum.rs`, `project_state/naming.rs`).
- `tests/`: tests of the library on concrete values.
- `app/`: the host around it: project folders, SQLite, JSON, the export
  worker and FFmpeg, device detection, the native bridge and event
  subscribers.
