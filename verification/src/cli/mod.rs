//! The command line: its arguments as values, and what its commands decide.

pub mod args;
pub mod commands;

pub use args::{log_level_from_name, Cli, Commands, List, Play};
pub use commands::{ListCommand, PlayCommand};
