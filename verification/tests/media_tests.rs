use crab_dlna::text::to_small_letters;
use crab_dlna::types::SubtitleType;
use crab_dlna::utils::media::{
    detect_subtitle_type, infer_subtitle_from_video, is_supported_audio_file,
    is_supported_media_file, is_supported_video_file, sanitize_filename_for_url,
    subtitle_candidates,
};
use crab_dlna::utils::path::{path_extension, path_file_name, path_with_extension};

#[test]
fn utils_test_is_supported_video_file() {
    assert!(is_supported_video_file("test.mp4"));
    assert!(is_supported_video_file("test.avi"));
    assert!(!is_supported_video_file("test.txt"));
}

#[test]
fn utils_test_sanitize_filename_for_url() {
    assert_eq!(
        sanitize_filename_for_url("My Video File.mp4"),
        "my.video.file.mp4"
    );
    assert_eq!(
        sanitize_filename_for_url("Test (2023).avi"),
        "test.2023.avi"
    );
}

#[test]
fn media_test_is_supported_video_file() {
    assert!(crab_dlna::is_supported_video_file("test.mp4"));
    assert!(crab_dlna::is_supported_video_file("test.avi"));
    assert!(!crab_dlna::is_supported_video_file("test.txt"));
}

#[test]
fn media_test_sanitize_filename_for_url() {
    assert_eq!(
        crab_dlna::sanitize_filename_for_url("My Video File.mp4"),
        "my.video.file.mp4"
    );
    assert_eq!(
        crab_dlna::sanitize_filename_for_url("Test (2023).avi"),
        "test.2023.avi"
    );
}

#[test]
fn sanitize_does_not_hand_its_argument_back() {
    assert_eq!(sanitize_filename_for_url("/home/me/A  B.mkv"), "home.me.a.b.mkv");
    assert_eq!(sanitize_filename_for_url("Æúű--cool?.mp4"), "aeuu.cool.mp4");
    assert_eq!(sanitize_filename_for_url(""), "");
}

fn ext(path: &str) -> Option<String> {
    path_extension(path).map(|e| e.into_iter().collect())
}

#[test]
fn extension_is_what_follows_the_last_dot_of_the_name() {
    assert_eq!(ext("movie.mp4"), Some("mp4".to_string()));
    assert_eq!(ext("/a/b.c/movie.tar.gz"), Some("gz".to_string()));
    assert_eq!(ext("/a/b.c/movie"), None);
    assert_eq!(ext(".hidden"), None);
    assert_eq!(ext("dir/.hidden"), None);
    assert_eq!(ext(".hidden.mp3"), Some("mp3".to_string()));
    assert_eq!(ext("name."), Some(String::new()));
    assert_eq!(ext(".."), None);
    assert_eq!(ext("a/.."), None);
    assert_eq!(ext(""), None);
    assert_eq!(ext("dir.d/"), None);
    assert_eq!(ext("..."), Some(String::new()));
}

#[test]
fn extension_agrees_with_std_on_plain_paths() {
    let paths = [
        "movie.mp4", "/a/b.c/movie.tar.gz", "/a/b.c/movie", ".hidden", "dir/.hidden",
        ".hidden.mp3", "name.", "..", "a/..", "", "a.b.c", "/x/y/z.MKV", "...",
    ];
    for path in paths {
        let expected = std::path::Path::new(path)
            .extension()
            .map(|e| e.to_str().unwrap().to_string());
        assert_eq!(ext(path), expected, "extension of {:?}", path);
    }
}

#[test]
fn with_extension_replaces_or_adds() {
    assert_eq!(path_with_extension("movie.mp4", "srt"), "movie.srt");
    assert_eq!(path_with_extension("/a/b.c/movie", "srt"), "/a/b.c/movie.srt");
    assert_eq!(path_with_extension("/a/movie.tar.gz", "ass"), "/a/movie.tar.ass");
    assert_eq!(path_with_extension(".hidden", "srt"), ".hidden.srt");
    assert_eq!(path_with_extension("name.", "srt"), "name.srt");
    assert_eq!(path_with_extension("..", "srt"), "..");
    assert_eq!(path_with_extension("", "srt"), "");
    assert_eq!(path_with_extension("dir/", "srt"), "dir/");
}

#[test]
fn with_extension_agrees_with_std_on_plain_paths() {
    let paths = ["movie.mp4", "/a/b.c/movie", "/a/movie.tar.gz", ".hidden", "name.", "..", "", "a.b"];
    for path in paths {
        let expected = std::path::Path::new(path).with_extension("srt");
        assert_eq!(
            path_with_extension(path, "srt"),
            expected.to_str().unwrap(),
            "with_extension of {:?}",
            path
        );
    }
}

#[test]
fn subtitle_types_are_detected_by_extension() {
    assert_eq!(detect_subtitle_type("movie.srt"), Some(SubtitleType::Srt));
    assert_eq!(detect_subtitle_type("movie.ASS"), Some(SubtitleType::Ass));
    assert_eq!(detect_subtitle_type("/x/movie.Ssa"), Some(SubtitleType::Ssa));
    assert_eq!(detect_subtitle_type("movie.vtt"), None);
    assert_eq!(detect_subtitle_type("movie"), None);
    assert_eq!(detect_subtitle_type("srt"), None);
    assert_eq!(detect_subtitle_type(".srt"), None);
}

#[test]
fn supported_extensions() {
    for e in ["mp4", "avi", "mkv", "mov", "wmv", "flv", "webm", "m4v", "3gp", "ogv"] {
        let path = format!("clip.{}", e);
        assert!(is_supported_video_file(&path), "{}", path);
        assert!(!is_supported_audio_file(&path), "{}", path);
        assert!(is_supported_media_file(&path), "{}", path);
        assert!(is_supported_video_file(&path.to_uppercase()), "{}", path);
    }
    for e in ["mp3", "wav", "flac", "aac", "ogg", "wma", "m4a", "opus"] {
        let path = format!("song.{}", e);
        assert!(is_supported_audio_file(&path), "{}", path);
        assert!(!is_supported_video_file(&path), "{}", path);
        assert!(is_supported_media_file(&path), "{}", path);
    }
    for path in ["notes.txt", "mp4", ".mp4", "clip.mp4.bak", "clip.", "", "clip.mp"] {
        assert!(!is_supported_media_file(path), "{}", path);
    }
}

#[test]
fn subtitle_is_inferred_in_order_of_preference() {
    assert_eq!(
        subtitle_candidates("/v/movie.mp4"),
        vec!["/v/movie.srt", "/v/movie.ass", "/v/movie.ssa"]
    );
    let both = vec!["/v/movie.ssa".to_string(), "/v/movie.ass".to_string()];
    assert_eq!(
        infer_subtitle_from_video("/v/movie.mp4", &both),
        Some("/v/movie.ass".to_string())
    );
    let all = vec![
        "/v/movie.ssa".to_string(),
        "/v/movie.srt".to_string(),
        "/v/movie.ass".to_string(),
    ];
    assert_eq!(
        infer_subtitle_from_video("/v/movie.mp4", &all),
        Some("/v/movie.srt".to_string())
    );
    let other = vec!["/v/other.srt".to_string()];
    assert_eq!(infer_subtitle_from_video("/v/movie.mp4", &other), None);
    assert_eq!(infer_subtitle_from_video("/v/movie.mp4", &Vec::new()), None);
}

#[test]
fn the_file_name_is_the_last_segment() {
    assert_eq!(path_file_name("/a/b/movie.mp4"), "movie.mp4");
    assert_eq!(path_file_name("movie.mp4"), "movie.mp4");
    assert_eq!(path_file_name("/a/b/"), "");
    assert_eq!(path_file_name(""), "");
    assert_eq!(path_file_name("a//b"), "b");
}

#[test]
fn the_kelvin_sign_counts_as_k() {
    assert!(is_supported_video_file("clip.m\u{212a}v"));
    assert!(is_supported_video_file("clip.M\u{212a}V"));
    assert!(is_supported_media_file("clip.m\u{212a}v"));
    assert!(!is_supported_video_file("clip.m\u{212b}v"));
    assert!(!is_supported_video_file("clip.m\u{130}v"));
}

#[test]
fn only_ascii_capitals_and_the_kelvin_sign_lower_to_ascii() {
    for c in '\u{0}'..=char::MAX {
        let lowered: String = c.to_lowercase().collect();
        if lowered.is_ascii() {
            assert!(c.is_ascii() || c == '\u{212a}', "{:?} lowers to {:?}", c, lowered);
        }
        let small: String = to_small_letters(&vec![c]).into_iter().collect();
        if lowered.is_ascii() {
            assert_eq!(small, lowered, "{:?}", c);
        } else {
            assert_eq!(small, c.to_string(), "{:?}", c);
        }
    }
}

#[test]
fn extensions_are_matched_as_after_to_lowercase() {
    let pool = [
        "mp4", "MP4", "mKv", "m\u{212a}v", "M\u{212a}V", "m\u{212b}v", "ΣΑΣ", "MP\u{2163}", "ogg",
        "OGG", "srt", "SRT", "Ass", "ssa", "İ", "flac", "FLAC", "3GP", "webm", "WEBM", "é", "",
    ];
    for e in pool {
        let path = format!("dir/clip.{}", e);
        let lowered = e.to_lowercase();
        let video = ["mp4", "avi", "mkv", "mov", "wmv", "flv", "webm", "m4v", "3gp", "ogv"]
            .contains(&lowered.as_str());
        let audio = ["mp3", "wav", "flac", "aac", "ogg", "wma", "m4a", "opus"]
            .contains(&lowered.as_str());
        assert_eq!(is_supported_video_file(&path), video, "{:?}", path);
        assert_eq!(is_supported_audio_file(&path), audio, "{:?}", path);
        let subtitle = match lowered.as_str() {
            "srt" => Some(SubtitleType::Srt),
            "ass" => Some(SubtitleType::Ass),
            "ssa" => Some(SubtitleType::Ssa),
            _ => None,
        };
        assert_eq!(detect_subtitle_type(&path), subtitle, "{:?}", path);
    }
}
