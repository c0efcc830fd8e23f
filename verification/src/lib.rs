//! Core logic of the `zar` two-pane file manager: remote path arithmetic,
//! source references, key bindings, secrets and history stores, dialog
//! state machines and command parsing.

mod text;
pub mod order;
pub mod remote_path;
pub mod source;
pub mod config;
pub mod profiles;
pub mod input;
pub mod state;
pub mod secrets;
pub mod history;
pub mod editing;
pub mod locations;
pub mod targets;
pub mod app;
pub mod commands;
pub mod ui;
pub mod vfs;
pub mod cli;

pub use remote_path::{normalize_remote, remote_join, remote_parent};
