//! The terminal dashboard: its state, what its keys do, and what it shows.

pub mod app;
pub mod events;
pub mod view;

pub use app::AppState;
pub use events::{handle_key_event, request_done, Request};
