//! Configuration of a run.

use super::constants::{
    DEFAULT_DISCOVERY_TIMEOUT, DEFAULT_STREAMING_PORT, DEFAULT_SUBTITLE_SYNC_INTERVAL_MS,
    SSDP_SEARCH_ATTEMPTS, SSDP_TTL,
};
use vstd::prelude::*;

verus! {

/// How much is logged.
#[derive(Debug, Clone, Copy, PartialEq, Eq, Structural)]
pub enum LevelFilter {
    Off,
    Error,
    Warn,
    Info,
    Debug,
    Trace,
}

/// Configuration for the application
#[derive(Debug, Clone, Copy)]
pub struct Config {
    /// Port for the streaming server
    pub streaming_port: u32,
    /// Timeout for device discovery, in seconds
    pub discovery_timeout: u64,
    /// Interval for subtitle synchronization, in milliseconds
    pub subtitle_sync_interval_ms: u64,
    /// Log level
    pub log_level: LevelFilter,
    /// Number of SSDP search attempts
    pub ssdp_search_attempts: usize,
    /// Hop limit for SSDP discovery packets
    pub ssdp_ttl: Option<u32>,
}

/// The configuration that applies where nothing else was asked for.
pub open spec fn default_config() -> Config {
    Config {
        streaming_port: DEFAULT_STREAMING_PORT,
        discovery_timeout: DEFAULT_DISCOVERY_TIMEOUT,
        subtitle_sync_interval_ms: DEFAULT_SUBTITLE_SYNC_INTERVAL_MS,
        log_level: LevelFilter::Info,
        ssdp_search_attempts: SSDP_SEARCH_ATTEMPTS,
        ssdp_ttl: Some(SSDP_TTL),
    }
}

impl Default for Config {
    fn default() -> (c: Self)
        ensures
            c == default_config(),
    {
        Config {
            streaming_port: DEFAULT_STREAMING_PORT,
            discovery_timeout: DEFAULT_DISCOVERY_TIMEOUT,
            subtitle_sync_interval_ms: DEFAULT_SUBTITLE_SYNC_INTERVAL_MS,
            log_level: LevelFilter::Info,
            ssdp_search_attempts: SSDP_SEARCH_ATTEMPTS,
            ssdp_ttl: Some(SSDP_TTL),
        }
    }
}

impl Config {
    /// Creates a new configuration with default values
    pub fn new() -> (c: Self)
        ensures
            c == default_config(),
    {
        Config {
            streaming_port: DEFAULT_STREAMING_PORT,
            discovery_timeout: DEFAULT_DISCOVERY_TIMEOUT,
            subtitle_sync_interval_ms: DEFAULT_SUBTITLE_SYNC_INTERVAL_MS,
            log_level: LevelFilter::Info,
            ssdp_search_attempts: SSDP_SEARCH_ATTEMPTS,
            ssdp_ttl: Some(SSDP_TTL),
        }
    }

    /// Sets the streaming port
    pub fn with_streaming_port(self, port: u32) -> (c: Self)
        ensures
            c == (Config { streaming_port: port, ..self }),
    {
        let mut c = self;
        c.streaming_port = port;
        c
    }

    /// Sets the discovery timeout
    pub fn with_discovery_timeout(self, timeout: u64) -> (c: Self)
        ensures
            c == (Config { discovery_timeout: timeout, ..self }),
    {
        let mut c = self;
        c.discovery_timeout = timeout;
        c
    }

    /// Sets the subtitle synchronization interval
    pub fn with_subtitle_sync_interval(self, interval_ms: u64) -> (c: Self)
        ensures
            c == (Config { subtitle_sync_interval_ms: interval_ms, ..self }),
    {
        let mut c = self;
        c.subtitle_sync_interval_ms = interval_ms;
        c
    }

    /// Sets the log level
    pub fn with_log_level(self, level: LevelFilter) -> (c: Self)
        ensures
            c == (Config { log_level: level, ..self }),
    {
        let mut c = self;
        c.log_level = level;
        c
    }
}

} // verus!
