//! Configuration constants, default values and the configuration type.

pub mod constants;
pub mod types;

pub use constants::{
    AV_TRANSPORT_URN, DEFAULT_DISCOVERY_TIMEOUT, DEFAULT_DLNA_VIDEO_TITLE,
    DEFAULT_STREAMING_PORT, DEFAULT_SUBTITLE_FILENAME, DEFAULT_SUBTITLE_SYNC_INTERVAL_MS,
    DLNA_ACTION_GET_POSITION_INFO, DLNA_ACTION_GET_TRANSPORT_INFO, DLNA_ACTION_PAUSE,
    DLNA_ACTION_PLAY, DLNA_ACTION_SET_AV_TRANSPORT_URI, DLNA_DEFAULT_SPEED, DLNA_INSTANCE_ID,
    DLNA_POSITION_INFO_PAYLOAD, DLNA_TRANSPORT_INFO_PAYLOAD, INVALID_SOCKET_ADDRESS_MSG,
    LOG_LEVEL_ENV_VAR, LOG_MSG_LIST_DEVICES, LOG_MSG_NO_SUBTITLE_FILE, LOG_MSG_PLAYING_VIDEO,
    LOG_MSG_SETTING_VIDEO_URI, MAX_NETWORK_RETRIES, MEDIA_PLAYBACK_FAILED_MSG,
    NO_DEVICES_DISCOVERED_MSG, RENDER_NOT_FOUND_MSG, RETRY_BASE_DELAY_MS, SSDP_SEARCH_ATTEMPTS,
    SSDP_TTL, USER_AGENT,
};
pub use types::{default_config, Config, LevelFilter};
