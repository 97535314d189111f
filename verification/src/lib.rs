//! The logic of a terminal viewer for CAN databases (DBC files): the
//! keymap and the order in which it lists keys, the key handling and state
//! changes of the application, and the resolution of the tree's selection
//! to a message or signal.
pub mod app;
pub mod app_laws;
pub mod detail;
pub mod keybinding;
pub mod keymap_laws;
pub mod laws;
pub mod selection;
pub mod text;
pub mod tree;
