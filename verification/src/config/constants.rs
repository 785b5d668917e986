//! Constants used throughout the crate.

use vstd::prelude::*;

verus! {

/// Default port for the media streaming server
pub const DEFAULT_STREAMING_PORT: u32 = 9000;

/// Default timeout for device discovery in seconds
pub const DEFAULT_DISCOVERY_TIMEOUT: u64 = 5;

/// Maximum number of attempts for a network operation
pub const MAX_NETWORK_RETRIES: u32 = 3;

/// Delay before the second attempt of a network operation, in milliseconds
pub const RETRY_BASE_DELAY_MS: u64 = 100;

/// Hop limit for SSDP multicast packets
pub const SSDP_TTL: u32 = 3;

/// Number of SSDP search attempts
pub const SSDP_SEARCH_ATTEMPTS: usize = 3;

/// Instance ID used in every control payload
pub const DLNA_INSTANCE_ID: u32 = 0;

/// Default playback speed
pub const DLNA_DEFAULT_SPEED: u32 = 1;

/// Default interval for subtitle synchronization checks in milliseconds
pub const DEFAULT_SUBTITLE_SYNC_INTERVAL_MS: u64 = 500;

/// User agent string for HTTP responses
pub const USER_AGENT: &'static str = "crab-dlna";

/// Payload of the position info action
pub const DLNA_POSITION_INFO_PAYLOAD: &'static str = "<InstanceID>0</InstanceID>";

/// Payload of the transport info action
pub const DLNA_TRANSPORT_INFO_PAYLOAD: &'static str = "<InstanceID>0</InstanceID>";

/// Environment variable name for a custom log level
pub const LOG_LEVEL_ENV_VAR: &'static str = "CRABDLNA_LOG";

/// Path served in place of a subtitle when a session has none
pub const DEFAULT_SUBTITLE_FILENAME: &'static str = "dummy.srt";

/// Message when no devices are discovered
pub const NO_DEVICES_DISCOVERED_MSG: &'static str = "No devices discovered in the network";

/// Message when no render was specified
pub const RENDER_NOT_FOUND_MSG: &'static str = "No render specified, selecting first one";

/// Message for an invalid socket address
pub const INVALID_SOCKET_ADDRESS_MSG: &'static str = "Invalid socket address format";

/// Message for failed media playback
pub const MEDIA_PLAYBACK_FAILED_MSG: &'static str = "Failed to start media playback on render device";

/// Action name for setting the transport URI
pub const DLNA_ACTION_SET_AV_TRANSPORT_URI: &'static str = "SetAVTransportURI";

/// Action name for play
pub const DLNA_ACTION_PLAY: &'static str = "Play";

/// Action name for pause
pub const DLNA_ACTION_PAUSE: &'static str = "Pause";

/// Action name for getting position info
pub const DLNA_ACTION_GET_POSITION_INFO: &'static str = "GetPositionInfo";

/// Action name for getting transport info
pub const DLNA_ACTION_GET_TRANSPORT_INFO: &'static str = "GetTransportInfo";

/// Log message for setting the video URI
pub const LOG_MSG_SETTING_VIDEO_URI: &'static str = "Setting Video URI";

/// Log message for playing a video
pub const LOG_MSG_PLAYING_VIDEO: &'static str = "Playing video";

/// Log message for a session without subtitle
pub const LOG_MSG_NO_SUBTITLE_FILE: &'static str = "No subtitle file";

/// Log message for the list command
pub const LOG_MSG_LIST_DEVICES: &'static str = "List devices";

/// Title given to every item in the metadata
pub const DEFAULT_DLNA_VIDEO_TITLE: &'static str = "crab-dlna Video";

/// Service type searched for during discovery
pub const AV_TRANSPORT_URN: &'static str = "urn:schemas-upnp-org:service:AVTransport:1";

} // verus!
