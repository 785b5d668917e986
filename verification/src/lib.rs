//! Control point for networked media renderers: device discovery and
//! selection, the control actions and their payloads, the streaming session,
//! subtitle lookup, playlists, and the course of one playback session.
//!
//! The library decides and computes. What touches the network, the disk,
//! the clipboard or the terminal is left to its caller, who hands in what
//! was found there as plain values.

pub mod cli;
pub mod config;
pub mod devices;
pub mod digits;
pub mod dlna;
pub mod error;
pub mod keyboard;
pub mod media;
pub mod text;
pub mod tui;
pub mod types;
pub mod utils;

pub use config::{Config, LevelFilter};
pub use devices::{
    ActionResponse, DeviceDescription, Discovery, DiscoveryEvent, PositionInfo, Render, RenderSpec,
    ServiceDescription, TransportInfo,
};
pub use dlna::{
    build_metadata, build_pause_payload, build_play_payload, build_setavtransporturi_payload,
    toggle_action, ActionRequest, Command, Event, Phase, PlaybackSession, TransportAction,
};
pub use error::Error;
pub use media::{
    clean_subtitle_text, get_mime_type_from_path, MediaFile, MediaStreamingServer, Playlist, Route,
    SubtitleEntry, SubtitleSyncer, STREAMING_PORT_DEFAULT,
};
pub use types::SubtitleType;
pub use utils::path::PathInfo;
pub use utils::{
    detect_subtitle_type, format_device_description, format_device_with_service_description,
    infer_subtitle_from_video, is_supported_audio_file, is_supported_media_file,
    is_supported_video_file, sanitize_filename_for_url, time_str_to_milliseconds,
};
