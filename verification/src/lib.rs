//! The core of a language server for Nix: the state of the server and the decisions it takes.
//!
//! The functions of this crate take what a client, the analysis or the file system has to say as
//! plain values, and answer what is to be done. Doing it (network, files, tasks) is up to the
//! program around them.

pub mod config;
pub mod diagnostics;
pub mod edits;
pub mod error;
pub mod external;
pub mod flake_info;
pub mod flake_laws;
pub mod flake_workspace;
pub mod laws;
pub mod protocol;
pub mod server;
pub mod state;
pub mod string_map;

pub use config::{Config, FsPath};
pub use diagnostics::{
    DiagnosticsAction, DiagnosticsTask, Event, FileChange, FileData, PublishDiagnostics,
    StateSnapshot,
};
pub use server::{ConfigReaction, Edited, OpenDecision, Server};
pub use state::EditOutcome;
