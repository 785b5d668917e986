//! Errors of the crate.
//!
//! Each error carries what is needed to repeat the failing call: the URL,
//! path or action concerned. Where the failure came from a collaborator, the
//! error holds what that collaborator said of it, as text.

use crate::devices::types::RenderSpec;
use crate::digits::{decimal_text, push_decimal};
use crate::text::{push_str, string_of};
use vstd::prelude::*;
use vstd::string::*;

verus! {

/// Errors that can happen inside crab-dlna
#[derive(Debug, Clone)]
pub enum Error {
    /// Failed to discover DLNA devices on the network
    DeviceDiscoveryFailed {
        /// What the underlying failure said
        source: String,
        /// Additional context
        context: String,
    },
    /// Failed to parse a device URL
    DeviceUrlParseError {
        /// The URL concerned
        url: String,
        /// Why parsing failed
        reason: String,
    },
    /// Failed to create a device from URL
    DeviceCreationError {
        /// The URL concerned
        url: String,
        /// What the underlying failure said
        source: String,
    },
    /// The specified render device was not found
    RenderNotFound {
        /// The render specification that was searched for
        spec: RenderSpec,
        /// Additional context
        context: String,
    },
    /// Failed to parse host or IP address
    NetworkAddressParseError {
        /// The address that failed to parse
        address: String,
        /// Why parsing failed
        reason: String,
    },
    /// Media file does not exist, is not accessible or is not supported
    MediaFileNotFound {
        /// Path to the file
        path: String,
        /// Additional context
        context: String,
    },
    /// Failed to connect to remote render device
    RenderConnectionFailed {
        /// The host that failed to connect
        host: String,
        /// What the underlying failure said
        source: String,
    },
    /// Failed to identify local IP address
    LocalAddressResolutionFailed {
        /// What the underlying failure said
        source: String,
        /// Additional context
        context: String,
    },
    /// Failed to set AV transport URI on the render
    DlnaSetTransportUriFailed {
        /// What the underlying failure said
        source: String,
        /// The URI that failed to be set
        uri: String,
    },
    /// Failed to start playback on the render
    DlnaPlaybackFailed {
        /// What the underlying failure said
        source: String,
        /// Additional context
        context: String,
    },
    /// Failed to execute a DLNA action
    DlnaActionFailed {
        /// The action concerned
        action: String,
        /// What the underlying failure said
        source: String,
    },
    /// Failed to parse response from DLNA device
    DlnaResponseParseError {
        /// The action concerned
        action: String,
        /// The parsing error message
        error: String,
    },
    /// Media streaming server encountered an error
    StreamingServerError {
        /// What the underlying failure said
        source: String,
        /// Additional context
        context: String,
    },
    /// Subtitle synchronization encountered an error
    SubtitleSyncError {
        /// The error message
        message: String,
        /// Additional context
        context: String,
    },
    /// Keyboard input handling encountered an error
    KeyboardError {
        /// The error message
        message: String,
    },
}

impl Error {
    /// The error written out for a reader.
    pub open spec fn message(self) -> Seq<char> {
        match self {
            Error::DeviceDiscoveryFailed { source, context } => "Failed to discover devices: "@ + source@ + " ("@ + context@ + ")"@,
            Error::DeviceUrlParseError { url, reason } => "Failed to parse URL '"@ + url@ + "': "@ + reason@,
            Error::DeviceCreationError { url, source } => "Failed to create device from '"@ + url@ + "': "@ + source@,
            Error::RenderNotFound { spec, context } => match spec {
                RenderSpec::Location(device_url) => "No render found at '"@ + device_url@ + "': "@
                    + context@,
                RenderSpec::Query(timeout, device_query) => "No render found within "@
                    + decimal_text(timeout as nat) + " seconds with query '"@ + device_query@
                    + "': "@ + context@,
                RenderSpec::First(timeout) => "No render found within "@ + decimal_text(
                    timeout as nat,
                ) + " seconds: "@ + context@,
            },
            Error::NetworkAddressParseError { address, reason } => "Failed to parse network address '"@ + address@ + "': "@ + reason@,
            Error::MediaFileNotFound { path, context } => "Media file '"@ + path@ + "' not found: "@ + context@,
            Error::RenderConnectionFailed { host, source } => "Failed to connect to render '"@ + host@ + "': "@ + source@,
            Error::LocalAddressResolutionFailed { source, context } => "Failed to resolve local address: "@ + source@ + " ("@ + context@ + ")"@,
            Error::DlnaSetTransportUriFailed { source, uri } => "Failed to set transport URI '"@ + uri@ + "': "@ + source@,
            Error::DlnaPlaybackFailed { source, context } => "Failed to start playback: "@ + source@ + " ("@ + context@ + ")"@,
            Error::DlnaActionFailed { action, source } => "Failed to execute DLNA action '"@ + action@ + "': "@ + source@,
            Error::DlnaResponseParseError { action, error } => "Failed to parse response from action '"@ + action@ + "': "@ + error@,
            Error::StreamingServerError { source, context } => "Streaming server error: "@ + source@ + " ("@ + context@ + ")"@,
            Error::SubtitleSyncError { message, context } => "Subtitle synchronization error: "@ + message@ + " ("@ + context@ + ")"@,
            Error::KeyboardError { message } => "Keyboard input error: "@ + message@,
        }
    }

    /// What the underlying failure said, for the errors that wrap one.
    pub open spec fn source_text(self) -> Option<Seq<char>> {
        match self {
            Error::DeviceDiscoveryFailed { source, .. } => Some(source@),
            Error::DeviceCreationError { source, .. } => Some(source@),
            Error::RenderConnectionFailed { source, .. } => Some(source@),
            Error::LocalAddressResolutionFailed { source, .. } => Some(source@),
            Error::DlnaSetTransportUriFailed { source, .. } => Some(source@),
            Error::DlnaPlaybackFailed { source, .. } => Some(source@),
            Error::DlnaActionFailed { source, .. } => Some(source@),
            Error::StreamingServerError { source, .. } => Some(source@),
            _ => None,
        }
    }

    /// Writes the error out for a reader.
    pub fn to_string(&self) -> (s: String)
        ensures
            s@ == self.message(),
    {
        let mut out: Vec<char> = Vec::new();
        match self {
            Error::DeviceDiscoveryFailed { source, context } => {
                push_str(&mut out, "Failed to discover devices: ");
                push_str(&mut out, source.as_str());
                push_str(&mut out, " (");
                push_str(&mut out, context.as_str());
                push_str(&mut out, ")");
            },
            Error::DeviceUrlParseError { url, reason } => {
                push_str(&mut out, "Failed to parse URL '");
                push_str(&mut out, url.as_str());
                push_str(&mut out, "': ");
                push_str(&mut out, reason.as_str());
            },
            Error::DeviceCreationError { url, source } => {
                push_str(&mut out, "Failed to create device from '");
                push_str(&mut out, url.as_str());
                push_str(&mut out, "': ");
                push_str(&mut out, source.as_str());
            },
            Error::RenderNotFound { spec, context } => match spec {
                RenderSpec::Location(device_url) => {
                    push_str(&mut out, "No render found at '");
                    push_str(&mut out, device_url.as_str());
                    push_str(&mut out, "': ");
                    push_str(&mut out, context.as_str());
                },
                RenderSpec::Query(timeout, device_query) => {
                    push_str(&mut out, "No render found within ");
                    push_decimal(&mut out, *timeout);
                    push_str(&mut out, " seconds with query '");
                    push_str(&mut out, device_query.as_str());
                    push_str(&mut out, "': ");
                    push_str(&mut out, context.as_str());
                },
                RenderSpec::First(timeout) => {
                    push_str(&mut out, "No render found within ");
                    push_decimal(&mut out, *timeout);
                    push_str(&mut out, " seconds: ");
                    push_str(&mut out, context.as_str());
                },
            },
            Error::NetworkAddressParseError { address, reason } => {
                push_str(&mut out, "Failed to parse network address '");
                push_str(&mut out, address.as_str());
                push_str(&mut out, "': ");
                push_str(&mut out, reason.as_str());
            },
            Error::MediaFileNotFound { path, context } => {
                push_str(&mut out, "Media file '");
                push_str(&mut out, path.as_str());
                push_str(&mut out, "' not found: ");
                push_str(&mut out, context.as_str());
            },
            Error::RenderConnectionFailed { host, source } => {
                push_str(&mut out, "Failed to connect to render '");
                push_str(&mut out, host.as_str());
                push_str(&mut out, "': ");
                push_str(&mut out, source.as_str());
            },
            Error::LocalAddressResolutionFailed { source, context } => {
                push_str(&mut out, "Failed to resolve local address: ");
                push_str(&mut out, source.as_str());
                push_str(&mut out, " (");
                push_str(&mut out, context.as_str());
                push_str(&mut out, ")");
            },
            Error::DlnaSetTransportUriFailed { source, uri } => {
                push_str(&mut out, "Failed to set transport URI '");
                push_str(&mut out, uri.as_str());
                push_str(&mut out, "': ");
                push_str(&mut out, source.as_str());
            },
            Error::DlnaPlaybackFailed { source, context } => {
                push_str(&mut out, "Failed to start playback: ");
                push_str(&mut out, source.as_str());
                push_str(&mut out, " (");
                push_str(&mut out, context.as_str());
                push_str(&mut out, ")");
            },
            Error::DlnaActionFailed { action, source } => {
                push_str(&mut out, "Failed to execute DLNA action '");
                push_str(&mut out, action.as_str());
                push_str(&mut out, "': ");
                push_str(&mut out, source.as_str());
            },
            Error::DlnaResponseParseError { action, error } => {
                push_str(&mut out, "Failed to parse response from action '");
                push_str(&mut out, action.as_str());
                push_str(&mut out, "': ");
                push_str(&mut out, error.as_str());
            },
            Error::StreamingServerError { source, context } => {
                push_str(&mut out, "Streaming server error: ");
                push_str(&mut out, source.as_str());
                push_str(&mut out, " (");
                push_str(&mut out, context.as_str());
                push_str(&mut out, ")");
            },
            Error::SubtitleSyncError { message, context } => {
                push_str(&mut out, "Subtitle synchronization error: ");
                push_str(&mut out, message.as_str());
                push_str(&mut out, " (");
                push_str(&mut out, context.as_str());
                push_str(&mut out, ")");
            },
            Error::KeyboardError { message } => {
                push_str(&mut out, "Keyboard input error: ");
                push_str(&mut out, message.as_str());
            },
        }
        string_of(&out)
    }

    /// What the underlying failure said, for the errors that wrap one.
    pub fn source(&self) -> (r: Option<String>)
        ensures
            match r {
                Some(s) => self.source_text() == Some(s@),
                None => self.source_text().is_none(),
            },
    {
        match self {
            Error::DeviceDiscoveryFailed { source, .. } => Some(source.clone()),
            Error::DeviceCreationError { source, .. } => Some(source.clone()),
            Error::RenderConnectionFailed { source, .. } => Some(source.clone()),
            Error::LocalAddressResolutionFailed { source, .. } => Some(source.clone()),
            Error::DlnaSetTransportUriFailed { source, .. } => Some(source.clone()),
            Error::DlnaPlaybackFailed { source, .. } => Some(source.clone()),
            Error::DlnaActionFailed { source, .. } => Some(source.clone()),
            Error::StreamingServerError { source, .. } => Some(source.clone()),
            _ => None,
        }
    }
}

/// What a failed discovery search becomes.
pub fn discovery_failed(source: String) -> (e: Error)
    ensures
        e matches Error::DeviceDiscoveryFailed { source: s, context } && s@ == source@ && context@
            == "SSDP discovery failed"@,
{
    Error::DeviceDiscoveryFailed { source, context: String::from_str("SSDP discovery failed") }
}

} // verus!
