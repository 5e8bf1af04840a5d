//! The state and rules of a terminal file browser: listings and their order,
//! the multi-selection, per-directory cursor memory, the modal input flows for
//! creating, deleting and renaming entries, and the binding of a directory
//! watch to the working directory.
pub mod archive;
pub mod cursor;
pub mod file;
pub mod input_action;
pub mod keys;
pub mod navigation;
pub mod path;
pub mod state;
pub mod text;
pub mod watch;
pub mod widget;
