# Dayroll

A terminal task manager with a day-first workflow: tasks are assigned to days,
listed on a board with Backlog, Doing, Blocked and Done lanes, searched with a
fuzzy ranking, and edited through small dialogs. Moves, status changes and
deletions can be undone; saving the task form starts a fresh undo history.

The library (`src/`) is written in Verus: each public function carries a
`requires`/`ensures` contract over mathematical models (sequences, views of
the task list, date values), and Verus proves the code against it.

## Layout

- `src/date.rs` — calendar dates and clock times with their invariants, and
  the calls into chrono (day arithmetic, weekdays, parsing, printing).
- `src/text.rs` — character-level helpers: trimming, words, joining, decimal
  numerals, byte order, and the character classes of the standard library.
- `src/model.rs` — the task record, its enumerations and its value.
- `src/app/` — the application state and its operations (add, edit, move,
  toggle, status, delete, undo), month arithmetic and the month grid, quick-add
  parsing, fuzzy search and the board lanes, and the bounded undo history.
- `src/event_handler.rs` — what a key does to the search line and to the open
  dialog (task form, notes editor, date picker), including submission.
- `src/main_view.rs` — the rows of the board and what a key does on the main
  view; one call per key press.
- `src/markdown.rs` — notes laid out as styled lines from pulldown-cmark's
  events.
- `src/screen.rs` — the text and numbers the screens show (labels, previews,
  calendar cells, dialog placement).
- `src/theme.rs`, `src/storage.rs`, `src/ui_state.rs` — themes, the store
  trait (what a store holds, and what loading and saving do to it) with the
  library's store, which also hands out the tasks to write after a save, and
  the dialog state.
- `app/` — the terminal program: the event loop, drawing with ratatui, the
  JSON task file, written with what the store hands out after each key, and
  the TOML settings file.
- `tests/` — tests on concrete values.

Laws that relate several operations are public proof functions whose names
start with `law_`, such as `law_undo_delete_restores` or
`law_search_mode_protects_tasks`.
