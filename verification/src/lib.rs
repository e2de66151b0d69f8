//! The core of a keyboard-driven file browser: which key means what in which
//! mode, how the highlight moves through a listing, how the path prompt edits
//! text that is not ASCII, and in which order queued paths are deleted.
//!
//! The library reads no key, draws nothing and touches no file. Keys come in
//! as [`event::Key`], listings as [`fs::DirectoryEntry`]; what has to happen on
//! the file system goes out as [`app::Effect`], and its outcome comes back
//! through [`event::handler::resume`].

pub mod app;
pub mod event;
pub mod fs;
pub mod navigation;
pub mod order;
pub mod queue;
pub mod selection;
pub mod text;
pub mod ui;
