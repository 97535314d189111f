# dbc_viewer

A terminal viewer for CAN databases (DBC files), with its logic verified by Verus.

- `src/` is the verified library: the keymap (`keybinding`), the listing order of
  keys (`keybinding::key`), the application state and its messages (`app`), the
  tree state's operations (`tree`, contracts over `tui_tree_widget::TreeState`),
  selection resolution (`selection`), identifier fields (`detail`), text helpers
  (`text`), and properties that span functions (`laws`).
- `app/` is the terminal program: reading the file, the event loop, and drawing
  with `ratatui`.
- `tests/` runs the library on concrete values.
