//! The play command: what is played, on which render, with which subtitle.

use crate::cli::args::Play;
use crate::config::Config;
use crate::devices::types::{RenderSpec, RenderSpecView};
use crate::error::Error;
use crate::media::streaming::{is_session_error, session_of, MediaStreamingServer};
use crate::utils::media::{is_media_path, is_supported_media_file};
use crate::utils::path::PathInfo;
use vstd::prelude::*;
use vstd::string::*;

verus! {

/// Play command implementation
#[derive(Debug, Clone, Copy)]
pub struct PlayCommand<'a> {
    args: &'a Play,
}

/// The render specification that the arguments ask for: the location where
/// one is given, else the query where one is given, else the first render
/// found.
pub open spec fn render_spec_of(args: Play, config: Config) -> RenderSpecView {
    match args.device_url {
        Some(url) => RenderSpecView::Location(url@),
        None => match args.device_query {
            Some(query) => RenderSpecView::Query(config.discovery_timeout, query@),
            None => RenderSpecView::First(config.discovery_timeout),
        },
    }
}

/// The subtitle that is served with a video: none where subtitles are
/// disabled; else the one named in the arguments; else the one inferred
/// from the video.
pub open spec fn subtitle_of(args: Play, inferred: Option<String>) -> Option<Seq<char>> {
    if args.no_subtitle {
        None
    } else {
        match args.subtitle {
            Some(s) => Some(s@),
            None => match inferred {
                Some(s) => Some(s@),
                None => None,
            },
        }
    }
}

/// The host under which files are served: the one named in the arguments,
/// else the local address.
pub open spec fn host_of(args: Play, local_ip: Seq<char>) -> Seq<char> {
    match args.host {
        Some(h) => h@,
        None => local_ip,
    }
}

impl<'a> PlayCommand<'a> {
    /// The arguments of the command.
    pub closed spec fn args(&self) -> Play {
        *self.args
    }

    /// Create a new play command
    pub fn new(args: &'a Play) -> (c: Self)
        ensures
            c.args() == *args,
    {
        PlayCommand { args }
    }

    /// Says how the render is to be selected.
    pub fn select_render(&self, config: &Config) -> (r: RenderSpec)
        ensures
            r@ == render_spec_of(self.args(), *config),
    {
        match &self.args.device_url {
            Some(device_url) => RenderSpec::Location(device_url.clone()),
            None => match &self.args.device_query {
                Some(device_query) => RenderSpec::Query(
                    config.discovery_timeout,
                    device_query.clone(),
                ),
                None => RenderSpec::First(config.discovery_timeout),
            },
        }
    }

    /// Whether a subtitle is to be looked for beside the video: subtitles
    /// are not disabled and none is named in the arguments.
    pub fn infers_subtitle(&self) -> (r: bool)
        ensures
            r == (!self.args().no_subtitle && self.args().subtitle.is_none()),
    {
        !self.args.no_subtitle && self.args.subtitle.is_none()
    }

    /// Chooses the subtitle that is served with a video.
    pub fn choose_subtitle(&self, inferred: Option<String>) -> (r: Option<String>)
        ensures
            match r {
                Some(s) => subtitle_of(self.args(), inferred) == Some(s@),
                None => subtitle_of(self.args(), inferred).is_none(),
            },
    {
        if self.args.no_subtitle {
            None
        } else {
            match &self.args.subtitle {
                Some(s) => Some(s.clone()),
                None => inferred,
            }
        }
    }

    /// Whether the subtitle clock is wanted.
    pub fn wants_subtitle_sync(&self) -> (r: bool)
        ensures
            r == self.args().subtitle_sync,
    {
        self.args.subtitle_sync
    }

    /// Whether the playlist goes on after a file was played. In playlist
    /// mode it goes on, also after a failure; otherwise one file is played.
    pub fn continues(&self, failed: bool) -> (r: bool)
        ensures
            r == self.args().playlist,
    {
        self.args.playlist
    }

    /// Builds the streaming server for one file of the playlist, looked up
    /// on disk beforehand together with its subtitle.
    pub fn build_media_streaming_server_for_file(
        &self,
        file: &PathInfo,
        subtitle: &Option<PathInfo>,
        local_ip: &str,
        config: &Config,
    ) -> (r: Result<MediaStreamingServer, Error>)
        ensures
            match r {
                Ok(s) => is_media_path(file.path@) && session_of(
                    *file,
                    *subtitle,
                    host_of(self.args(), local_ip@),
                    config.streaming_port,
                ) == Some(s@) && s@.wf(),
                Err(e) => if !is_media_path(file.path@) {
                    e matches Error::MediaFileNotFound { path, context } && path@ == file.path@
                        && context@
                        == "Unsupported media file format. Please use a supported video or audio format."@
                } else {
                    session_of(
                        *file,
                        *subtitle,
                        host_of(self.args(), local_ip@),
                        config.streaming_port,
                    ).is_none() && is_session_error(
                        e,
                        *file,
                        *subtitle,
                        host_of(self.args(), local_ip@),
                        config.streaming_port,
                    )
                },
            },
    {
        if !is_supported_media_file(file.path.as_str()) {
            return Err(
                Error::MediaFileNotFound {
                    path: file.path.clone(),
                    context: String::from_str(
                        "Unsupported media file format. Please use a supported video or audio format.",
                    ),
                },
            );
        }
        let host_ip: &str = match &self.args.host {
            Some(h) => h.as_str(),
            None => local_ip,
        };
        MediaStreamingServer::new(file, subtitle, host_ip, config.streaming_port)
    }
}

} // verus!
