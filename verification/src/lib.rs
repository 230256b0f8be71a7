//! Supervision of one long-running server process below a desktop shell:
//! finding its executable, starting, stopping and restarting it, ending it
//! together with its descendants, and waiting until it answers.
//!
//! The library decides and states what it decides; it performs no input or
//! output. The caller probes the file system, reads the environment and the
//! clock, spawns and signals processes and sends requests, and reports to the
//! library what came of it.

pub mod clock;
pub mod config;
pub mod lifecycle;
pub mod platform;
pub mod prefs;
pub mod process;
pub mod readiness;
pub mod resolver;
pub mod shell;
pub mod spawn;
pub mod termination;
pub mod text;
