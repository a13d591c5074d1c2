//! Session manager logic for a Zellij plugin: switching, creating,
//! renaming, deleting and resurrecting sessions.

pub mod config;
pub mod handlers;
pub mod host;
pub mod text;
pub mod plugin;
pub mod render;
pub mod session_store;
pub mod types;
