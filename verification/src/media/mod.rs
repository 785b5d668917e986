//! Media handling: playlists, the streaming session, subtitle lookup.

pub mod playlist;
pub mod streaming;
pub mod subtitle_parse;
pub mod subtitle_sync;
pub mod subtitle_text;

pub use playlist::Playlist;
pub use subtitle_parse::{
    entries_from_events, parse_subtitle_file, parse_subtitle_text, SubtitleEntry, SubtitleFormat,
    TimedEvent,
};
pub use subtitle_sync::{lookup, on_tick, SubtitleSyncer};
pub use subtitle_text::clean_subtitle_text;
pub use streaming::{
    get_mime_type_from_path, MediaFile, MediaStreamingServer, Route, STREAMING_PORT_DEFAULT,
};
