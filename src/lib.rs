//! Decision logic of a desktop shell that launches a project's development
//! server: which package manager to run, what state the tracked server process
//! is in, and what each command reports back to the web view.
//!
//! The process spawning, the lockfile existence checks and the native dialog
//! are done by the host application; this library receives their outcomes as
//! plain values.

pub mod manager;
pub mod server;
pub mod dialog;
