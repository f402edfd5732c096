//! A configuration-driven command launcher: named targets describe a program
//! to execute together with guard conditions, pre/post hooks, environment
//! sources and watch paths. This crate holds the verified core: configuration
//! resolution, the guard-condition evaluator, hook gating, process-outcome
//! classification and the watch/cancel/restart supervision state machine.
//! Process spawning, file watching and argument parsing live in the
//! surrounding binary, which drives these state machines.

pub mod args;
pub mod checks;
pub mod config;
pub mod envvars;
pub mod errors;
pub mod hooks;
pub mod paths;
pub mod resolver;
pub mod runner;
pub mod supervisor;
