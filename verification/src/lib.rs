//! A catalog of system-maintenance commands, a selector that maps a user's
//! choice of indices onto the catalog, an executor that dispatches each
//! command by kind, and a runner that drives a batch of commands in order,
//! stopping at the first failure.
//!
//! Everything that decides or computes lives here with a contract; spawning
//! processes, prompting, and terminal output live in the surrounding binary.

pub mod builtin;
pub mod catalog;
pub mod config;
pub mod executor;
pub mod runner;
pub mod selector;
pub mod site;
pub mod text;
