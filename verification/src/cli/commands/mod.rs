//! The commands of the command line.

pub mod list;
pub mod play;

pub use list::ListCommand;
pub use play::PlayCommand;
