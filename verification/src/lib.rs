//! The persistence core of a small note-taking application: memo records,
//! the directory they are stored in, the debounced scratch backup of the
//! editor and the decisions of the window that owns them.

pub mod app;
pub mod components;
pub mod models;
pub mod state;
pub mod storage;
pub mod text;
