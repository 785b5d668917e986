use crab_dlna::devices::RenderSpec;
use crab_dlna::error::{discovery_failed, Error};

#[test]
fn test_error_display() {
    let error = Error::DeviceDiscoveryFailed {
        source: "test".to_string(),
        context: "test context".to_string(),
    };
    assert!(error.to_string().contains("Failed to discover devices"));
    assert!(error.to_string().contains("test context"));
}

#[test]
fn test_render_not_found_error() {
    let spec = RenderSpec::Query(5, "test".to_string());
    let error = Error::RenderNotFound {
        spec,
        context: "test context".to_string(),
    };
    assert!(error
        .to_string()
        .contains("No render found within 5 seconds"));
    assert!(error.to_string().contains("test"));
}

#[test]
fn test_network_address_parse_error() {
    let error = Error::NetworkAddressParseError {
        address: "invalid:address".to_string(),
        reason: "Invalid format".to_string(),
    };
    assert!(error
        .to_string()
        .contains("Failed to parse network address"));
    assert!(error.to_string().contains("invalid:address"));
}

#[test]
fn test_subtitle_sync_error() {
    let error = Error::SubtitleSyncError {
        message: "Failed to sync".to_string(),
        context: "test context".to_string(),
    };
    assert!(error.to_string().contains("Subtitle synchronization error"));
    assert!(error.to_string().contains("Failed to sync"));
}

#[test]
fn test_error_source() {
    let error = Error::DeviceDiscoveryFailed {
        source: "test".to_string(),
        context: "test".to_string(),
    };
    assert!(error.source().is_some());
}

fn s(text: &str) -> String {
    text.to_string()
}

#[test]
fn every_error_is_written_out_in_full() {
    let cases: Vec<(Error, &str)> = vec![
        (
            Error::DeviceDiscoveryFailed { source: s("src"), context: s("ctx") },
            "Failed to discover devices: src (ctx)",
        ),
        (
            Error::DeviceUrlParseError { url: s("u"), reason: s("why") },
            "Failed to parse URL 'u': why",
        ),
        (
            Error::DeviceCreationError { url: s("u"), source: s("src") },
            "Failed to create device from 'u': src",
        ),
        (
            Error::RenderNotFound { spec: RenderSpec::Location(s("http://x")), context: s("ctx") },
            "No render found at 'http://x': ctx",
        ),
        (
            Error::RenderNotFound { spec: RenderSpec::Query(12, s("tv")), context: s("ctx") },
            "No render found within 12 seconds with query 'tv': ctx",
        ),
        (
            Error::RenderNotFound { spec: RenderSpec::First(0), context: s("ctx") },
            "No render found within 0 seconds: ctx",
        ),
        (
            Error::NetworkAddressParseError { address: s("a:1"), reason: s("why") },
            "Failed to parse network address 'a:1': why",
        ),
        (
            Error::MediaFileNotFound { path: s("/p"), context: s("ctx") },
            "Media file '/p' not found: ctx",
        ),
        (
            Error::RenderConnectionFailed { host: s("h"), source: s("src") },
            "Failed to connect to render 'h': src",
        ),
        (
            Error::LocalAddressResolutionFailed { source: s("src"), context: s("ctx") },
            "Failed to resolve local address: src (ctx)",
        ),
        (
            Error::DlnaSetTransportUriFailed { source: s("src"), uri: s("http://u") },
            "Failed to set transport URI 'http://u': src",
        ),
        (
            Error::DlnaPlaybackFailed { source: s("src"), context: s("ctx") },
            "Failed to start playback: src (ctx)",
        ),
        (
            Error::DlnaActionFailed { action: s("Play"), source: s("src") },
            "Failed to execute DLNA action 'Play': src",
        ),
        (
            Error::DlnaResponseParseError { action: s("GetPositionInfo"), error: s("bad") },
            "Failed to parse response from action 'GetPositionInfo': bad",
        ),
        (
            Error::StreamingServerError { source: s("src"), context: s("ctx") },
            "Streaming server error: src (ctx)",
        ),
        (
            Error::SubtitleSyncError { message: s("msg"), context: s("ctx") },
            "Subtitle synchronization error: msg (ctx)",
        ),
        (Error::KeyboardError { message: s("msg") }, "Keyboard input error: msg"),
    ];
    for (error, expected) in cases {
        assert_eq!(error.to_string(), expected);
    }
}

#[test]
fn large_timeouts_are_written_in_full() {
    let error = Error::RenderNotFound {
        spec: RenderSpec::First(u64::MAX),
        context: s("c"),
    };
    assert_eq!(
        error.to_string(),
        "No render found within 18446744073709551615 seconds: c"
    );
}

#[test]
fn only_wrapping_errors_have_a_source() {
    assert_eq!(
        Error::DlnaActionFailed { action: s("Play"), source: s("timeout") }.source(),
        Some(s("timeout"))
    );
    assert_eq!(
        Error::StreamingServerError { source: s("panicked"), context: s("c") }.source(),
        Some(s("panicked"))
    );
    assert_eq!(Error::MediaFileNotFound { path: s("p"), context: s("c") }.source(), None);
    assert_eq!(Error::KeyboardError { message: s("m") }.source(), None);
    assert_eq!(
        Error::RenderNotFound { spec: RenderSpec::First(1), context: s("c") }.source(),
        None
    );
}

#[test]
fn a_failed_search_is_a_discovery_failure() {
    let error = discovery_failed(s("no route"));
    assert_eq!(
        error.to_string(),
        "Failed to discover devices: no route (SSDP discovery failed)"
    );
}
