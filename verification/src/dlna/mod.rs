//! The control protocol: payloads, metadata, and the course of one
//! playback session.

pub mod actions;
pub mod metadata;
pub mod playback;

pub use actions::{
    build_pause_payload, build_play_payload, pause_request, resume_request, toggle_action,
    toggle_request, ActionRequest, TransportAction,
};
pub use playback::{Command, Event, Phase, PlaybackSession};
pub use metadata::{build_metadata, build_setavtransporturi_payload};
