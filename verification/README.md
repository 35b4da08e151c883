# ratatui_showcase

A terminal dashboard with five tabs: projects and their todos, a table of
crates, animated gauges, a live chart and an about page. Projects are kept in
SQLite.

- `src/` is the library, verified with Verus. `state.rs` models the whole
  application state as plain values (`AppModel`) and defines, as spec
  functions, what every operation and every key press does (`step`).
  `dashboard.rs` holds the executable `App`, whose methods are proved to do
  exactly that. `laws.rs` proves properties of the model: consistency is
  kept by every key, navigation round trips, nothing is deleted without
  confirmation, and others. `badge.rs`, `clock.rs`, `defaults.rs`,
  `layout.rs` and `storage.rs` hold the smaller computations.
- The tab key always switches tabs, also while a name is typed, the help
  is open or a delete awaits confirmation: Tab moves right and Shift+Tab
  left. Like every key but `y` and Enter, it cancels a pending delete.
- `app/` is the program: terminal setup, the event loop, drawing with
  ratatui, the floating-point gauges and the SQLite storage.
- `tests/` runs the library on concrete inputs.
