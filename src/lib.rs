//! Supervision core of a desktop shell that keeps one companion server
//! process alive behind a tray icon.
//!
//! The library holds the decisions: where the companion is launched from and
//! with which command, whether a start spawns anything, what a stop hands back
//! for termination, how probe answers are read, and which actions each
//! application event triggers. The host runs the processes, the network
//! requests and the windows.
use vstd::prelude::*;

pub mod dir_path;
pub mod supervisor;
pub mod probe;
pub mod lifecycle;
