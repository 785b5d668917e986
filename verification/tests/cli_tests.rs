use crab_dlna::cli::{log_level_from_name, Cli, Commands, List, ListCommand, Play, PlayCommand};
use crab_dlna::config::{Config, LevelFilter};
use crab_dlna::devices::render::Render;
use crab_dlna::devices::types::RenderSpec;
use crab_dlna::error::Error;
use crab_dlna::keyboard::{continues_after, handle_key_event, help_lines, Key, KeyAction};
use crab_dlna::utils::path::PathInfo;

fn play() -> Play {
    Play {
        host: None,
        port: 9000,
        device_query: None,
        device_url: None,
        subtitle: None,
        no_subtitle: false,
        subtitle_sync: false,
        interactive: false,
        tui: false,
        playlist: false,
        path: "movie.mp4".to_string(),
    }
}

fn file(path: &str, exists: bool) -> PathInfo {
    PathInfo { path: path.to_string(), exists, is_file: exists, is_dir: false }
}

#[test]
fn the_config_follows_the_arguments() {
    let mut args = play();
    args.port = 8123;
    let cli = Cli {
        timeout: 11,
        log_level: LevelFilter::Warn,
        subtitle_sync_interval: 750,
        command: Commands::Play(args.clone()),
    };
    let config = cli.build_config(Some(&args));
    assert_eq!(config.streaming_port, 8123);
    assert_eq!(config.discovery_timeout, 11);
    assert_eq!(config.subtitle_sync_interval_ms, 750);
    assert_eq!(config.log_level, LevelFilter::Warn);
    assert_eq!(config.ssdp_search_attempts, 3);
    assert_eq!(config.ssdp_ttl, Some(3));
    let listing = cli.build_config(None);
    assert_eq!(listing.streaming_port, 9000);
    assert_eq!(listing.discovery_timeout, 11);
    assert_eq!(cli.command.config_for(&cli).streaming_port, 8123);
    assert_eq!(Commands::List(List).config_for(&cli).streaming_port, 9000);
}

#[test]
fn the_render_is_specified_by_the_arguments() {
    let config = Config::default().with_discovery_timeout(4);
    let mut args = play();
    assert!(matches!(PlayCommand::new(&args).select_render(&config), RenderSpec::First(4)));
    args.device_query = Some("tv".to_string());
    assert!(matches!(
        PlayCommand::new(&args).select_render(&config),
        RenderSpec::Query(4, q) if q == "tv"
    ));
    args.device_url = Some("http://a/".to_string());
    assert!(matches!(
        PlayCommand::new(&args).select_render(&config),
        RenderSpec::Location(u) if u == "http://a/"
    ));
}

#[test]
fn the_subtitle_is_chosen_by_the_arguments() {
    let inferred = Some("movie.srt".to_string());
    let mut args = play();
    assert!(PlayCommand::new(&args).infers_subtitle());
    assert_eq!(PlayCommand::new(&args).choose_subtitle(inferred.clone()), inferred);
    assert_eq!(PlayCommand::new(&args).choose_subtitle(None), None);
    args.subtitle = Some("other.ass".to_string());
    assert!(!PlayCommand::new(&args).infers_subtitle());
    assert_eq!(
        PlayCommand::new(&args).choose_subtitle(inferred.clone()),
        Some("other.ass".to_string())
    );
    args.no_subtitle = true;
    assert!(!PlayCommand::new(&args).infers_subtitle());
    assert_eq!(PlayCommand::new(&args).choose_subtitle(inferred), None);
}

#[test]
fn a_playlist_goes_on_after_a_failure() {
    let mut args = play();
    assert!(!PlayCommand::new(&args).continues(false));
    assert!(!PlayCommand::new(&args).continues(true));
    assert!(!PlayCommand::new(&args).wants_subtitle_sync());
    args.playlist = true;
    args.subtitle_sync = true;
    assert!(PlayCommand::new(&args).continues(false));
    assert!(PlayCommand::new(&args).continues(true));
    assert!(PlayCommand::new(&args).wants_subtitle_sync());
}

#[test]
fn the_server_is_built_for_a_file() {
    let config = Config::default().with_streaming_port(8000);
    let mut args = play();
    let server = PlayCommand::new(&args)
        .build_media_streaming_server_for_file(&file("a.mp4", true), &None, "10.0.0.5", &config)
        .unwrap();
    assert_eq!(server.video_uri(), "http://10.0.0.5:8000/a.mp4");
    args.host = Some("10.9.9.9".to_string());
    let server = PlayCommand::new(&args)
        .build_media_streaming_server_for_file(
            &file("a.mp4", true),
            &Some(file("a.srt", true)),
            "10.0.0.5",
            &config,
        )
        .unwrap();
    assert_eq!(server.video_uri(), "http://10.9.9.9:8000/a.mp4");
    assert_eq!(server.subtitle_uri(), Some("http://10.9.9.9:8000/a.srt".to_string()));
    match PlayCommand::new(&args).build_media_streaming_server_for_file(
        &file("a.txt", true),
        &None,
        "bad host",
        &config,
    ) {
        Err(Error::MediaFileNotFound { path, context }) => {
            assert_eq!(path, "a.txt");
            assert_eq!(
                context,
                "Unsupported media file format. Please use a supported video or audio format."
            );
        }
        other => panic!("unexpected result: {:?}", other),
    }
    assert!(matches!(
        PlayCommand::new(&args).build_media_streaming_server_for_file(
            &file("a.mp4", false),
            &None,
            "10.0.0.5",
            &config,
        ),
        Err(Error::MediaFileNotFound { .. })
    ));
}

#[test]
fn the_list_command_prints_each_render() {
    let list = List;
    let command = ListCommand::new(&list);
    let config = Config::default().with_discovery_timeout(2);
    assert_eq!(command.search(&config).duration_secs, 2);
    let renders = vec![
        Render {
            url: "http://a/".to_string(),
            friendly_name: "tv".to_string(),
            device_type: "d".to_string(),
            service_type: "s".to_string(),
            service_id: "/c".to_string(),
        },
        Render {
            url: "http://b/".to_string(),
            friendly_name: "radio".to_string(),
            device_type: "d".to_string(),
            service_type: "s".to_string(),
            service_id: "/c".to_string(),
        },
    ];
    assert_eq!(
        command.lines(&renders),
        vec!["[d][s] tv @ http://a/", "[d][s] radio @ http://b/"]
    );
    assert!(command.lines(&Vec::new()).is_empty());
}

#[test]
fn log_levels_by_name() {
    assert_eq!(log_level_from_name(Some("trace")), LevelFilter::Trace);
    assert_eq!(log_level_from_name(Some("debug")), LevelFilter::Debug);
    assert_eq!(log_level_from_name(Some("info")), LevelFilter::Info);
    assert_eq!(log_level_from_name(Some("warn")), LevelFilter::Warn);
    assert_eq!(log_level_from_name(Some("error")), LevelFilter::Error);
    assert_eq!(log_level_from_name(Some("DEBUG")), LevelFilter::Info);
    assert_eq!(log_level_from_name(Some("off")), LevelFilter::Info);
    assert_eq!(log_level_from_name(Some("")), LevelFilter::Info);
    assert_eq!(log_level_from_name(None), LevelFilter::Info);
}

#[test]
fn keys_of_interactive_control() {
    for c in [' ', 'p', 'P'] {
        assert_eq!(handle_key_event(Key::Char(c), true), KeyAction::TogglePlayPause);
    }
    for c in ['q', 'Q'] {
        assert_eq!(handle_key_event(Key::Char(c), true), KeyAction::Quit);
    }
    assert_eq!(handle_key_event(Key::Esc, true), KeyAction::Quit);
    for c in ['h', 'H', '?'] {
        assert_eq!(handle_key_event(Key::Char(c), true), KeyAction::ShowHelp);
    }
    for key in [Key::Char('x'), Key::Enter, Key::Up, Key::Down, Key::F(1), Key::Other] {
        assert_eq!(handle_key_event(key, true), KeyAction::Nothing);
    }
    for key in [Key::Char(' '), Key::Char('q'), Key::Esc, Key::Char('h')] {
        assert_eq!(handle_key_event(key, false), KeyAction::Nothing);
    }
    assert!(!continues_after(KeyAction::Quit));
    assert!(continues_after(KeyAction::TogglePlayPause));
    assert!(continues_after(KeyAction::ShowHelp));
    assert!(continues_after(KeyAction::Nothing));
    assert_eq!(help_lines().len(), 5);
    assert_eq!(help_lines()[1], "SPACE / P  : Toggle play/pause");
}
