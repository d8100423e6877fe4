//! A small process supervisor: a fixed set of named tasks, each run by a
//! supervisor state machine, an event router that turns input into task
//! commands, and a binary notification format for exits across a VM boundary.

pub mod cli;
pub mod com;
pub mod config;
pub mod router;
pub mod task;
pub mod wire;
