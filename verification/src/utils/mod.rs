//! Helpers: time strings, media file names, retries, display strings.

pub mod address;
pub mod formatting;
pub mod media;
pub mod network;
pub mod path;
pub mod time;

pub use formatting::{format_device_description, format_device_with_service_description};
pub use media::{
    detect_subtitle_type, infer_subtitle_from_video, is_supported_audio_file,
    is_supported_media_file, is_supported_video_file, sanitize_filename_for_url,
    subtitle_candidates,
};
pub use network::{after_attempt, RetryDecision};
pub use time::time_str_to_milliseconds;
