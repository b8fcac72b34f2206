//! The command execution core of a small interactive shell: alias
//! resolution, line tokenizing, the decisions of the chain and pipeline
//! executors, and the table of background jobs.
//!
//! The library never touches the operating system. Every executor is a
//! state machine: it hands out the next process to launch or await, and
//! takes back what became of it.

pub mod alias;
pub mod builtins;
pub mod chain;
pub mod command;
pub mod env;
pub mod error;
pub mod job_control;
pub mod number;
pub mod pipeline;
pub mod scripting;
pub mod shell;
pub mod text;
pub mod theme;
