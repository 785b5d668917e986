use crab_dlna::config::{
    Config, LevelFilter, DEFAULT_DISCOVERY_TIMEOUT, DEFAULT_STREAMING_PORT,
    DEFAULT_SUBTITLE_SYNC_INTERVAL_MS, LOG_LEVEL_ENV_VAR, SSDP_SEARCH_ATTEMPTS, SSDP_TTL,
};

#[test]
fn test_config_default() {
    let config = Config::default();
    assert_eq!(config.streaming_port, DEFAULT_STREAMING_PORT);
    assert_eq!(config.discovery_timeout, DEFAULT_DISCOVERY_TIMEOUT);
    assert_eq!(config.log_level, LevelFilter::Info);
}

#[test]
fn test_config_builder() {
    let config = Config::new()
        .with_streaming_port(8080)
        .with_discovery_timeout(10)
        .with_log_level(LevelFilter::Debug);

    assert_eq!(config.streaming_port, 8080);
    assert_eq!(config.discovery_timeout, 10);
}

#[test]
fn test_constants() {
    assert_eq!(DEFAULT_STREAMING_PORT, 9000);
    assert_eq!(DEFAULT_DISCOVERY_TIMEOUT, 5);
    assert_eq!(LOG_LEVEL_ENV_VAR, "CRABDLNA_LOG");
}

#[test]
fn config_default_holds_every_default() {
    let config = Config::default();
    assert_eq!(config.subtitle_sync_interval_ms, DEFAULT_SUBTITLE_SYNC_INTERVAL_MS);
    assert_eq!(config.subtitle_sync_interval_ms, 500);
    assert_eq!(config.ssdp_search_attempts, SSDP_SEARCH_ATTEMPTS);
    assert_eq!(config.ssdp_search_attempts, 3);
    assert_eq!(config.ssdp_ttl, Some(SSDP_TTL));
    assert_eq!(config.ssdp_ttl, Some(3));
}

#[test]
fn config_builder_keeps_other_fields() {
    let config = Config::new()
        .with_subtitle_sync_interval(250)
        .with_log_level(LevelFilter::Trace);
    assert_eq!(config.subtitle_sync_interval_ms, 250);
    assert_eq!(config.log_level, LevelFilter::Trace);
    assert_eq!(config.streaming_port, 9000);
    assert_eq!(config.discovery_timeout, 5);
}
