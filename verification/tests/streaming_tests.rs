use crab_dlna::error::Error;
use crab_dlna::media::streaming::{get_mime_type_from_path, MediaStreamingServer};
use crab_dlna::utils::address::{format_address, parse_socket_addr, ServerAddr};
use crab_dlna::utils::media::sanitize_filename_for_url;
use crab_dlna::utils::path::PathInfo;

fn file(path: &str, exists: bool) -> PathInfo {
    PathInfo { path: path.to_string(), exists, is_file: exists, is_dir: false }
}

#[test]
fn session_for_a_video_without_subtitle() {
    let video = file("/videos/My Movie.mp4", true);
    let server = MediaStreamingServer::new(&video, &None, "127.0.0.1", 9000).unwrap();
    let slug = sanitize_filename_for_url("/videos/My Movie.mp4");
    assert_eq!(slug, "videos.my.movie.mp4");
    assert_eq!(server.video_uri(), format!("http://127.0.0.1:9000/{}", slug));
    assert_eq!(server.subtitle_uri(), None);
    assert_eq!(server.subtitle_type(), None);
    assert_eq!(server.subtitle_file_path(), None);
    assert_eq!(server.video_file_path(), "/videos/My Movie.mp4");
    assert_eq!(server.video_type(), "video/mp4");
    assert_eq!(
        server.server_addr(),
        ServerAddr { a: 127, b: 0, c: 0, d: 1, port: 9000 }
    );
}

#[test]
fn session_for_a_missing_video_fails() {
    let video = file("/videos/missing.mp4", false);
    match MediaStreamingServer::new(&video, &None, "127.0.0.1", 9000) {
        Err(Error::MediaFileNotFound { path, context }) => {
            assert_eq!(path, "/videos/missing.mp4");
            assert_eq!(context, "Video file does not exist or is not accessible");
        }
        other => panic!("unexpected result: {:?}", other),
    }
}

#[test]
fn session_for_a_missing_subtitle_fails() {
    let video = file("a.mp4", true);
    let subtitle = Some(file("a.srt", false));
    match MediaStreamingServer::new(&video, &subtitle, "10.0.0.2", 8000) {
        Err(Error::MediaFileNotFound { path, context }) => {
            assert_eq!(path, "a.srt");
            assert_eq!(context, "Subtitle file does not exist or is not accessible");
        }
        other => panic!("unexpected result: {:?}", other),
    }
}

#[test]
fn session_for_a_bad_address_fails_first() {
    let video = file("missing.mp4", false);
    for (host, port) in [
        ("not an address", 9000),
        ("127.0.0.1", 65536),
        ("256.0.0.1", 80),
        ("1.2.3", 80),
        ("1.2.3.4.5", 80),
        ("01.2.3.4", 80),
        ("1.2.3.", 80),
        ("", 80),
        ("::1", 80),
        ("+1.2.3.4", 80),
    ] {
        match MediaStreamingServer::new(&video, &None, host, port) {
            Err(Error::NetworkAddressParseError { address, reason }) => {
                assert_eq!(address, format!("{}:{}", host, port));
                assert_eq!(
                    reason,
                    "Invalid socket address format: invalid socket address syntax"
                );
            }
            other => panic!("unexpected result for {:?}: {:?}", host, other),
        }
    }
}

#[test]
fn session_for_a_subtitle_at_the_url_of_the_video_fails() {
    let video = file("/v/my clip.mp4", true);
    for subtitle_path in ["/v/my clip.mp4", "/v/My-Clip.mp4", "/v/my.clip mp4", "v.my.clip.mp4"] {
        assert_eq!(
            sanitize_filename_for_url(subtitle_path),
            sanitize_filename_for_url("/v/my clip.mp4")
        );
        match MediaStreamingServer::new(&video, &Some(file(subtitle_path, true)), "10.0.0.2", 8000) {
            Err(Error::MediaFileNotFound { path, context }) => {
                assert_eq!(path, subtitle_path);
                assert_eq!(
                    context,
                    "Subtitle file would be served under the same URL as the video file"
                );
            }
            other => panic!("unexpected result for {:?}: {:?}", subtitle_path, other),
        }
    }
    // a missing subtitle is reported as missing, whatever its segment
    match MediaStreamingServer::new(&video, &Some(file("/v/My-Clip.mp4", false)), "10.0.0.2", 8000) {
        Err(Error::MediaFileNotFound { context, .. }) => {
            assert_eq!(context, "Subtitle file does not exist or is not accessible");
        }
        other => panic!("unexpected result: {:?}", other),
    }
    let server =
        MediaStreamingServer::new(&video, &Some(file("/v/my clip.srt", true)), "10.0.0.2", 8000)
            .unwrap();
    assert_ne!(server.subtitle_uri(), Some(server.video_uri()));
}

#[test]
fn session_with_a_subtitle_serves_both() {
    let video = file("/v/Movie.MKV", true);
    let subtitle = Some(file("/v/Movie.ass", true));
    let server = MediaStreamingServer::new(&video, &subtitle, "192.168.0.7", 65535).unwrap();
    assert_eq!(server.video_uri(), "http://192.168.0.7:65535/v.movie.mkv");
    assert_eq!(
        server.subtitle_uri(),
        Some("http://192.168.0.7:65535/v.movie.ass".to_string())
    );
    assert_eq!(server.video_type(), "video/x-matroska");
    assert_eq!(server.subtitle_type(), Some("text/x-ass".to_string()));
    assert_eq!(server.subtitle_file_path().map(String::as_str), Some("/v/Movie.ass"));

    let routes = server.get_routes();
    assert_eq!(routes.len(), 2);
    assert_eq!(routes[0].segment, "v.movie.mkv");
    assert_eq!(routes[0].file_path, "/v/Movie.MKV");
    assert_eq!(routes[0].content_type, "video/x-matroska");
    assert_eq!(routes[1].segment, "v.movie.ass");
    assert_eq!(routes[1].file_path, "/v/Movie.ass");
    assert_eq!(routes[1].content_type, "text/x-ass");

    assert_eq!(server.resolve("v.movie.mkv").unwrap().file_path, "/v/Movie.MKV");
    assert_eq!(server.resolve("v.movie.ass").unwrap().file_path, "/v/Movie.ass");
    assert!(server.resolve("v.movie").is_none());
    assert!(server.resolve("").is_none());
    assert!(server.resolve("dummy.srt").is_none());
}

#[test]
fn session_without_subtitle_answers_at_the_placeholder() {
    let server =
        MediaStreamingServer::new(&file("clip.mp4", true), &None, "10.1.2.3", 1).unwrap();
    let route = server.resolve("dummy.srt").unwrap();
    assert_eq!(route.file_path, "clip.mp4");
    assert_eq!(route.content_type, "video/mp4");
    assert_eq!(server.get_video_route().segment, "clip.mp4");
    assert_eq!(server.get_subtitle_route().segment, "dummy.srt");
}

#[test]
fn subtitle_of_other_type_is_plain_text() {
    let subtitle = Some(file("clip.vtt", true));
    let server =
        MediaStreamingServer::new(&file("clip.mp4", true), &subtitle, "10.1.2.3", 80).unwrap();
    assert_eq!(server.subtitle_type(), Some("text/plain".to_string()));
}

#[test]
fn mime_types_by_extension() {
    let table = [
        ("a.mp4", "video/mp4"),
        ("a.avi", "video/x-msvideo"),
        ("a.mkv", "video/x-matroska"),
        ("a.mov", "video/quicktime"),
        ("a.wmv", "video/x-ms-wmv"),
        ("a.flv", "video/x-flv"),
        ("a.webm", "video/webm"),
        ("a.m4v", "video/x-m4v"),
        ("a.3gp", "video/3gpp"),
        ("a.mp3", "audio/mpeg"),
        ("a.wav", "audio/wav"),
        ("a.flac", "audio/flac"),
        ("a.aac", "audio/aac"),
        ("a.ogg", "audio/ogg"),
        ("a.m4a", "audio/mp4"),
        ("a.MP4", "video/mp4"),
        ("a.Mp3", "audio/mpeg"),
        ("a.m\u{212a}v", "video/x-matroska"),
        ("a.xyz", "application/octet-stream"),
        ("a.ogv", "application/octet-stream"),
        ("a", "application/octet-stream"),
        ("", "application/octet-stream"),
        ("mp4", "application/octet-stream"),
    ];
    for (path, mime) in table {
        assert_eq!(get_mime_type_from_path(path), mime, "{}", path);
    }
}

#[test]
fn media_file_is_written_out() {
    let server =
        MediaStreamingServer::new(&file("clip.mp4", true), &None, "10.1.2.3", 80).unwrap();
    let routes = server.get_routes();
    assert_eq!(routes[0].segment, "clip.mp4");
}

#[test]
fn addresses_are_read_and_written() {
    let addr = parse_socket_addr("192.168.1.100", 9000).unwrap();
    assert_eq!(addr, ServerAddr { a: 192, b: 168, c: 1, d: 100, port: 9000 });
    assert_eq!(addr.to_string(), "192.168.1.100:9000");
    assert_eq!(addr.base_uri(), "http://192.168.1.100:9000");
    assert_eq!(
        parse_socket_addr("0.0.0.0", 0),
        Some(ServerAddr { a: 0, b: 0, c: 0, d: 0, port: 0 })
    );
    assert_eq!(
        parse_socket_addr("255.255.255.255", 65535).unwrap().to_string(),
        "255.255.255.255:65535"
    );
    assert_eq!(parse_socket_addr("1.2.3.4", 65536), None);
    assert_eq!(parse_socket_addr("1.2.3.256", 1), None);
    assert_eq!(parse_socket_addr("1.2.3.0004", 1), None);
    assert_eq!(parse_socket_addr("1.2.3.00", 1), None);
    assert_eq!(parse_socket_addr("localhost", 1), None);
    assert_eq!(format_address("host", 7), "host:7");
}
