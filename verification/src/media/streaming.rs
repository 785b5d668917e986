//! The streaming session: which files are served to the renderer, under
//! which addresses, and as what content.

use crate::config::{DEFAULT_STREAMING_PORT, DEFAULT_SUBTITLE_FILENAME, INVALID_SOCKET_ADDRESS_MSG};
use crate::error::Error;
use crate::text::{chars_of, is_text, push_str, str_eq, string_of, to_small_letters};
use crate::utils::address::{
    address_text, format_address, parse_socket_addr, socket_addr, ServerAddr,
};
use crate::utils::media::{
    detect_subtitle_type, is_slug_text, lower_extension, sanitize_filename_for_url,
    subtitle_type_of, url_segment,
};
use crate::utils::path::{path_extension, PathInfo};
use vstd::prelude::*;
use vstd::string::*;

verus! {

/// Default port to use for the streaming server
pub const STREAMING_PORT_DEFAULT: u32 = DEFAULT_STREAMING_PORT;

/// The MIME type served for a file extension in small letters.
pub open spec fn mime_for_extension(e: Seq<char>) -> Seq<char> {
    if e == "mp4"@ {
        "video/mp4"@
    } else if e == "avi"@ {
        "video/x-msvideo"@
    } else if e == "mkv"@ {
        "video/x-matroska"@
    } else if e == "mov"@ {
        "video/quicktime"@
    } else if e == "wmv"@ {
        "video/x-ms-wmv"@
    } else if e == "flv"@ {
        "video/x-flv"@
    } else if e == "webm"@ {
        "video/webm"@
    } else if e == "m4v"@ {
        "video/x-m4v"@
    } else if e == "3gp"@ {
        "video/3gpp"@
    } else if e == "mp3"@ {
        "audio/mpeg"@
    } else if e == "wav"@ {
        "audio/wav"@
    } else if e == "flac"@ {
        "audio/flac"@
    } else if e == "aac"@ {
        "audio/aac"@
    } else if e == "ogg"@ {
        "audio/ogg"@
    } else if e == "m4a"@ {
        "audio/mp4"@
    } else {
        "application/octet-stream"@
    }
}

/// The MIME type served for a path.
pub open spec fn mime_of(path: Seq<char>) -> Seq<char> {
    mime_for_extension(lower_extension(path))
}

/// The MIME type announced for a subtitle path.
pub open spec fn subtitle_mime_of(path: Seq<char>) -> Seq<char> {
    match subtitle_type_of(path) {
        Some(t) => t.mime_text(),
        None => "text/plain"@,
    }
}

/// Gets MIME type from file path extension
pub fn get_mime_type_from_path(path: &str) -> (r: String)
    ensures
        r@ == mime_of(path@),
{
    let e = match path_extension(path) {
        Some(e) => to_small_letters(&e),
        None => Vec::new(),
    };
    let mime = if is_text(&e, "mp4") {
        "video/mp4"
    } else if is_text(&e, "avi") {
        "video/x-msvideo"
    } else if is_text(&e, "mkv") {
        "video/x-matroska"
    } else if is_text(&e, "mov") {
        "video/quicktime"
    } else if is_text(&e, "wmv") {
        "video/x-ms-wmv"
    } else if is_text(&e, "flv") {
        "video/x-flv"
    } else if is_text(&e, "webm") {
        "video/webm"
    } else if is_text(&e, "m4v") {
        "video/x-m4v"
    } else if is_text(&e, "3gp") {
        "video/3gpp"
    } else if is_text(&e, "mp3") {
        "audio/mpeg"
    } else if is_text(&e, "wav") {
        "audio/wav"
    } else if is_text(&e, "flac") {
        "audio/flac"
    } else if is_text(&e, "aac") {
        "audio/aac"
    } else if is_text(&e, "ogg") {
        "audio/ogg"
    } else if is_text(&e, "m4a") {
        "audio/mp4"
    } else {
        "application/octet-stream"
    };
    String::from_str(mime)
}

/// A media file to stream
#[derive(Debug, Clone)]
pub struct MediaFile {
    file_path: String,
    host_uri: String,
    file_uri: String,
}

/// A `MediaFile` with its strings as texts.
pub struct MediaFileView {
    pub file_path: Seq<char>,
    pub host_uri: Seq<char>,
    pub file_uri: Seq<char>,
}

impl View for MediaFile {
    type V = MediaFileView;

    closed spec fn view(&self) -> MediaFileView {
        MediaFileView {
            file_path: self.file_path@,
            host_uri: self.host_uri@,
            file_uri: self.file_uri@,
        }
    }
}

impl MediaFileView {
    /// The absolute URL of the file: base URI, slash, segment.
    pub open spec fn uri(self) -> Seq<char> {
        self.host_uri.push('/') + self.file_uri
    }

    /// Whether the file is served by a server at `addr`: under the base URI
    /// of the address, at a segment that is safe in a URL.
    pub open spec fn served_at(self, addr: ServerAddr) -> bool {
        self.host_uri == "http://"@ + addr.text() && is_slug_text(self.file_uri, '.')
    }
}

/// The file served for `path` by a server at `addr`: under the base URI of
/// the address, at the URL segment made from the path.
pub open spec fn media_file_of(path: Seq<char>, addr: ServerAddr) -> MediaFileView {
    MediaFileView {
        file_path: path,
        host_uri: "http://"@ + addr.text(),
        file_uri: url_segment(path),
    }
}

impl MediaFile {
    fn serve(path: &str, addr: &ServerAddr) -> (f: Self)
        ensures
            f@ == media_file_of(path@, *addr),
            f@.served_at(*addr),
    {
        MediaFile {
            file_path: String::from_str(path),
            host_uri: addr.base_uri(),
            file_uri: sanitize_filename_for_url(path),
        }
    }

    /// The path of the file on disk.
    pub fn file_path(&self) -> (r: &String)
        ensures
            r@ == self@.file_path,
    {
        &self.file_path
    }

    /// The URL segment under which the file is served.
    pub fn file_uri(&self) -> (r: &String)
        ensures
            r@ == self@.file_uri,
    {
        &self.file_uri
    }

    /// The absolute URL of the file.
    pub fn uri(&self) -> (r: String)
        ensures
            r@ == self@.uri(),
    {
        let mut out = chars_of(self.host_uri.as_str());
        out.push('/');
        push_str(&mut out, self.file_uri.as_str());
        string_of(&out)
    }

    /// The file written out for a reader: its path and where it is served.
    pub fn to_string(&self) -> (r: String)
        ensures
            r@ == "'"@ + self@.file_path + "' @  "@ + self@.host_uri + "/"@ + self@.file_uri,
    {
        let mut out: Vec<char> = Vec::new();
        push_str(&mut out, "'");
        push_str(&mut out, self.file_path.as_str());
        push_str(&mut out, "' @  ");
        push_str(&mut out, self.host_uri.as_str());
        push_str(&mut out, "/");
        push_str(&mut out, self.file_uri.as_str());
        string_of(&out)
    }
}

/// One thing the server answers to a GET request.
#[derive(Debug, Clone)]
pub struct Route {
    /// The request path, without its leading slash
    pub segment: String,
    /// The file whose bytes are sent
    pub file_path: String,
    /// The content type announced
    pub content_type: String,
}

/// A `Route` with its strings as texts.
pub struct RouteView {
    pub segment: Seq<char>,
    pub file_path: Seq<char>,
    pub content_type: Seq<char>,
}

impl View for Route {
    type V = RouteView;

    open spec fn view(&self) -> RouteView {
        RouteView {
            segment: self.segment@,
            file_path: self.file_path@,
            content_type: self.content_type@,
        }
    }
}

/// A media streaming server
#[derive(Debug, Clone)]
pub struct MediaStreamingServer {
    video_file: MediaFile,
    subtitle_file: Option<MediaFile>,
    server_addr: ServerAddr,
}

/// A `MediaStreamingServer` with its strings as texts.
pub struct ServerView {
    pub video_file: MediaFileView,
    pub subtitle_file: Option<MediaFileView>,
    pub server_addr: ServerAddr,
}

impl View for MediaStreamingServer {
    type V = ServerView;

    closed spec fn view(&self) -> ServerView {
        ServerView {
            video_file: self.video_file@,
            subtitle_file: match self.subtitle_file {
                Some(f) => Some(f@),
                None => None,
            },
            server_addr: self.server_addr,
        }
    }
}

impl ServerView {
    /// Whether each file of the session is served at the address of the
    /// session, and the subtitle at another segment than the video.
    pub open spec fn wf(self) -> bool {
        self.video_file.served_at(self.server_addr) && match self.subtitle_file {
            Some(f) => f.served_at(self.server_addr) && f.file_uri != self.video_file.file_uri,
            None => true,
        }
    }

    /// The route of the video: its segment, its file, its MIME type.
    pub open spec fn video_route(self) -> RouteView {
        RouteView {
            segment: self.video_file.file_uri,
            file_path: self.video_file.file_path,
            content_type: mime_of(self.video_file.file_path),
        }
    }

    /// The route of the subtitle. A session without subtitle answers at a
    /// fixed placeholder path with the video file.
    pub open spec fn subtitle_route(self) -> RouteView {
        match self.subtitle_file {
            Some(f) => RouteView {
                segment: f.file_uri,
                file_path: f.file_path,
                content_type: subtitle_mime_of(f.file_path),
            },
            None => RouteView {
                segment: DEFAULT_SUBTITLE_FILENAME@,
                file_path: self.video_file.file_path,
                content_type: mime_of(self.video_file.file_path),
            },
        }
    }

    /// What a GET request for `segment` is answered with: the video route
    /// where its segment is asked for, else the subtitle route where that
    /// one's is, else nothing.
    pub open spec fn answer(self, segment: Seq<char>) -> Option<RouteView> {
        if segment == self.video_route().segment {
            Some(self.video_route())
        } else if segment == self.subtitle_route().segment {
            Some(self.subtitle_route())
        } else {
            None
        }
    }
}

/// What is said of a subtitle that cannot be told from the video by its URL
pub const SUBTITLE_COLLISION_MSG: &'static str =
    "Subtitle file would be served under the same URL as the video file";

/// The session that the arguments of `MediaStreamingServer::new` describe,
/// where they describe one: the address must be one, the video must exist,
/// and so must the subtitle if one is given, at another URL segment than
/// the video.
pub open spec fn session_of(
    video: PathInfo,
    subtitle: Option<PathInfo>,
    host_ip: Seq<char>,
    host_port: u32,
) -> Option<ServerView> {
    match socket_addr(host_ip, host_port) {
        None => None,
        Some(addr) => if !video.exists {
            None
        } else {
            match subtitle {
                None => Some(
                    ServerView {
                        video_file: media_file_of(video.path@, addr),
                        subtitle_file: None,
                        server_addr: addr,
                    },
                ),
                Some(s) => if s.exists && url_segment(s.path@) != url_segment(video.path@) {
                    Some(
                        ServerView {
                            video_file: media_file_of(video.path@, addr),
                            subtitle_file: Some(media_file_of(s.path@, addr)),
                            server_addr: addr,
                        },
                    )
                } else {
                    None
                },
            }
        },
    }
}

/// Whether `e` is the error that `MediaStreamingServer::new` owes for
/// arguments that describe no session: the first of a bad address, a
/// missing video, a missing subtitle, and a subtitle whose URL segment is
/// that of the video.
pub open spec fn is_session_error(
    e: Error,
    video: PathInfo,
    subtitle: Option<PathInfo>,
    host_ip: Seq<char>,
    host_port: u32,
) -> bool {
    if socket_addr(host_ip, host_port).is_none() {
        e matches Error::NetworkAddressParseError { address, reason } && address@ == address_text(
            host_ip,
            host_port,
        ) && reason@ == INVALID_SOCKET_ADDRESS_MSG@ + ": invalid socket address syntax"@
    } else if !video.exists {
        e matches Error::MediaFileNotFound { path, context } && path@ == video.path@ && context@
            == "Video file does not exist or is not accessible"@
    } else {
        subtitle matches Some(s) && (e matches Error::MediaFileNotFound { path, context } && path@
            == s.path@ && context@ == (if !s.exists {
            "Subtitle file does not exist or is not accessible"@
        } else {
            SUBTITLE_COLLISION_MSG@
        }))
    }
}

impl MediaStreamingServer {
    /// Create a new media streaming server for a video and an optional
    /// subtitle, both looked up on disk beforehand. The host must be an IPv4
    /// address, and the subtitle must come to stand at another URL than the
    /// video.
    pub fn new(
        video: &PathInfo,
        subtitle: &Option<PathInfo>,
        host_ip: &str,
        host_port: u32,
    ) -> (r: Result<Self, Error>)
        ensures
            match r {
                Ok(s) => session_of(*video, *subtitle, host_ip@, host_port) == Some(s@) && s@.wf(),
                Err(e) => session_of(*video, *subtitle, host_ip@, host_port).is_none()
                    && is_session_error(e, *video, *subtitle, host_ip@, host_port),
            },
    {
        let server_addr = match parse_socket_addr(host_ip, host_port) {
            Some(addr) => addr,
            None => {
                let mut reason = String::from_str(INVALID_SOCKET_ADDRESS_MSG);
                reason.append(": invalid socket address syntax");
                return Err(
                    Error::NetworkAddressParseError {
                        address: format_address(host_ip, host_port),
                        reason,
                    },
                );
            },
        };
        if !video.exists {
            return Err(
                Error::MediaFileNotFound {
                    path: video.path.clone(),
                    context: String::from_str("Video file does not exist or is not accessible"),
                },
            );
        }
        let video_file = MediaFile::serve(video.path.as_str(), &server_addr);
        let subtitle_file = match subtitle {
            Some(s) => {
                if !s.exists {
                    return Err(
                        Error::MediaFileNotFound {
                            path: s.path.clone(),
                            context: String::from_str(
                                "Subtitle file does not exist or is not accessible",
                            ),
                        },
                    );
                }
                let file = MediaFile::serve(s.path.as_str(), &server_addr);
                if str_eq(file.file_uri.as_str(), video_file.file_uri.as_str()) {
                    return Err(
                        Error::MediaFileNotFound {
                            path: s.path.clone(),
                            context: String::from_str(SUBTITLE_COLLISION_MSG),
                        },
                    );
                }
                Some(file)
            },
            None => None,
        };
        Ok(MediaStreamingServer { video_file, subtitle_file, server_addr })
    }

    /// Gets the video URI
    pub fn video_uri(&self) -> (r: String)
        ensures
            r@ == self@.video_file.uri(),
    {
        self.video_file.uri()
    }

    /// Gets the subtitle URI if available
    pub fn subtitle_uri(&self) -> (r: Option<String>)
        ensures
            match r {
                Some(u) => self@.subtitle_file.is_some() && u@ == self@.subtitle_file.unwrap().uri(),
                None => self@.subtitle_file.is_none(),
            },
    {
        match &self.subtitle_file {
            Some(f) => Some(f.uri()),
            None => None,
        }
    }

    /// Gets the subtitle file path if available
    pub fn subtitle_file_path(&self) -> (r: Option<&String>)
        ensures
            match r {
                Some(p) => self@.subtitle_file.is_some() && p@
                    == self@.subtitle_file.unwrap().file_path,
                None => self@.subtitle_file.is_none(),
            },
    {
        match &self.subtitle_file {
            Some(f) => Some(f.file_path()),
            None => None,
        }
    }

    /// Gets the video file path
    pub fn video_file_path(&self) -> (r: &String)
        ensures
            r@ == self@.video_file.file_path,
    {
        self.video_file.file_path()
    }

    /// Gets the server address
    pub fn server_addr(&self) -> (r: ServerAddr)
        ensures
            r == self@.server_addr,
    {
        self.server_addr
    }

    /// Gets the video file type/MIME type
    pub fn video_type(&self) -> (r: String)
        ensures
            r@ == mime_of(self@.video_file.file_path),
    {
        get_mime_type_from_path(self.video_file.file_path.as_str())
    }

    /// Gets the subtitle file type/MIME type if available
    pub fn subtitle_type(&self) -> (r: Option<String>)
        ensures
            match r {
                Some(t) => self@.subtitle_file.is_some() && t@ == subtitle_mime_of(
                    self@.subtitle_file.unwrap().file_path,
                ),
                None => self@.subtitle_file.is_none(),
            },
    {
        match &self.subtitle_file {
            Some(f) => {
                match detect_subtitle_type(f.file_path.as_str()) {
                    Some(sub_type) => Some(String::from_str(sub_type.mime_type())),
                    None => Some(String::from_str("text/plain")),
                }
            },
            None => None,
        }
    }

    /// The route under which the video is served.
    pub fn get_video_route(&self) -> (r: Route)
        ensures
            r@ == self@.video_route(),
    {
        Route {
            segment: self.video_file.file_uri.clone(),
            file_path: self.video_file.file_path.clone(),
            content_type: self.video_type(),
        }
    }

    /// The route under which the subtitle is served, or its placeholder.
    pub fn get_subtitle_route(&self) -> (r: Route)
        ensures
            r@ == self@.subtitle_route(),
    {
        match &self.subtitle_file {
            Some(f) => Route {
                segment: f.file_uri.clone(),
                file_path: f.file_path.clone(),
                content_type: match detect_subtitle_type(f.file_path.as_str()) {
                    Some(sub_type) => String::from_str(sub_type.mime_type()),
                    None => String::from_str("text/plain"),
                },
            },
            None => Route {
                segment: String::from_str(DEFAULT_SUBTITLE_FILENAME),
                file_path: self.video_file.file_path.clone(),
                content_type: self.video_type(),
            },
        }
    }

    /// The two routes of the server: the video first, then the subtitle or
    /// its placeholder.
    pub fn get_routes(&self) -> (r: Vec<Route>)
        ensures
            r.len() == 2,
            r[0]@ == self@.video_route(),
            r[1]@ == self@.subtitle_route(),
    {
        let mut r: Vec<Route> = Vec::new();
        r.push(self.get_video_route());
        r.push(self.get_subtitle_route());
        r
    }

    /// What a GET request for `segment` is answered with, if anything.
    pub fn resolve(&self, segment: &str) -> (r: Option<Route>)
        ensures
            match r {
                Some(route) => self@.answer(segment@) == Some(route@),
                None => self@.answer(segment@).is_none(),
            },
    {
        let video = self.get_video_route();
        if str_eq(segment, video.segment.as_str()) {
            return Some(video);
        }
        let subtitle = self.get_subtitle_route();
        if str_eq(segment, subtitle.segment.as_str()) {
            return Some(subtitle);
        }
        None
    }
}

/// In a session the subtitle has a URL of its own: it differs from that of
/// the video.
pub proof fn lemma_subtitle_has_its_own_url(s: ServerView)
    requires
        s.wf(),
        s.subtitle_file.is_some(),
    ensures
        s.subtitle_file.unwrap().uri() != s.video_file.uri(),
{
    let base = s.video_file.host_uri.push('/');
    let video = s.video_file.file_uri;
    let subtitle = s.subtitle_file.unwrap().file_uri;
    assert((base + video).skip(base.len() as int) =~= video);
    assert((base + subtitle).skip(base.len() as int) =~= subtitle);
}

} // verus!
