//! The arguments of the command line, as values.

use crate::config::{Config, LevelFilter};
use vstd::prelude::*;

verus! {

/// The arguments common to every command
#[derive(Debug, Clone)]
pub struct Cli {
    /// Time in seconds to search and discover streamer hosts
    pub timeout: u64,
    /// Log level
    pub log_level: LevelFilter,
    /// Subtitle synchronization interval in milliseconds
    pub subtitle_sync_interval: u64,
    /// The command to execute
    pub command: Commands,
}

/// The commands
#[derive(Debug, Clone)]
pub enum Commands {
    /// Scan and list devices in the network capable of playing media
    List(List),
    /// Play a video file
    Play(Play),
}

/// List command arguments
#[derive(Debug, Clone, Copy)]
pub struct List;

/// Play command arguments
#[derive(Debug, Clone)]
pub struct Play {
    /// The hostname or IP to be used to host and serve the files (if not provided we derive it from the local network address)
    pub host: Option<String>,
    /// The port to be used to host and serve the files
    pub port: u32,
    /// Specify the device where to play through a query (scan devices before playing)
    pub device_query: Option<String>,
    /// Specify the device where to play through its exact location (no scan, faster)
    pub device_url: Option<String>,
    /// The file of the subtitle (if not provided, we derive it from the video file)
    pub subtitle: Option<String>,
    /// Disable subtitles
    pub no_subtitle: bool,
    /// Enable subtitle synchronization to clipboard
    pub subtitle_sync: bool,
    /// Enable interactive keyboard control
    pub interactive: bool,
    /// Enable the terminal dashboard
    pub tui: bool,
    /// Enable playlist mode
    pub playlist: bool,
    /// The file or directory to be played
    pub path: String,
}

/// The configuration that the arguments ask for: the defaults, with the
/// timeout, the log level and the synchronization interval of the
/// arguments, and the port of the play command where there is one.
pub open spec fn config_of(cli: Cli, play_cmd: Option<&Play>) -> Config {
    Config {
        streaming_port: match play_cmd {
            Some(play) => play.port,
            None => crate::config::DEFAULT_STREAMING_PORT,
        },
        discovery_timeout: cli.timeout,
        subtitle_sync_interval_ms: cli.subtitle_sync_interval,
        log_level: cli.log_level,
        ssdp_search_attempts: crate::config::SSDP_SEARCH_ATTEMPTS,
        ssdp_ttl: Some(crate::config::SSDP_TTL),
    }
}

impl Cli {
    /// Build a Config from CLI arguments and Play command
    pub fn build_config(&self, play_cmd: Option<&Play>) -> (c: Config)
        ensures
            c == config_of(*self, play_cmd),
    {
        let mut config = Config::new().with_discovery_timeout(self.timeout).with_log_level(
            self.log_level,
        ).with_subtitle_sync_interval(self.subtitle_sync_interval);
        if let Some(play) = play_cmd {
            config = config.with_streaming_port(play.port);
        }
        config
    }
}

impl Commands {
    /// The configuration for the command.
    pub fn config_for(&self, cli: &Cli) -> (c: Config)
        ensures
            c == config_of(
                *cli,
                match self {
                    Commands::List(_) => None,
                    Commands::Play(play) => Some(play),
                },
            ),
    {
        match self {
            Commands::List(_) => cli.build_config(None),
            Commands::Play(play) => cli.build_config(Some(play)),
        }
    }
}

/// The log level that a name stands for; the level for informational
/// messages where the name is unknown or none is given.
pub open spec fn level_named(name: Option<Seq<char>>) -> LevelFilter {
    match name {
        Some(n) => if n == "trace"@ {
            LevelFilter::Trace
        } else if n == "debug"@ {
            LevelFilter::Debug
        } else if n == "info"@ {
            LevelFilter::Info
        } else if n == "warn"@ {
            LevelFilter::Warn
        } else if n == "error"@ {
            LevelFilter::Error
        } else {
            LevelFilter::Info
        },
        None => LevelFilter::Info,
    }
}

/// Chooses the log level from the value of the log level variable of the
/// environment, if it is set.
pub fn log_level_from_name(name: Option<&str>) -> (r: LevelFilter)
    ensures
        r == level_named(
            match name {
                Some(n) => Some(n@),
                None => None,
            },
        ),
{
    match name {
        Some(n) => {
            if crate::text::str_eq(n, "trace") {
                LevelFilter::Trace
            } else if crate::text::str_eq(n, "debug") {
                LevelFilter::Debug
            } else if crate::text::str_eq(n, "info") {
                LevelFilter::Info
            } else if crate::text::str_eq(n, "warn") {
                LevelFilter::Warn
            } else if crate::text::str_eq(n, "error") {
                LevelFilter::Error
            } else {
                LevelFilter::Info
            }
        },
        None => LevelFilter::Info,
    }
}

} // verus!
