use crab_dlna::config::Config;
use crab_dlna::dlna::actions::{
    action_failed, build_pause_payload, build_play_payload, pause_failed, pause_request, position_info_request,
    read_position_info, read_transport_info, resume_failed, resume_request, toggle_action,
    toggle_request, transport_info_request, TransportAction,
};
use crab_dlna::dlna::playback::{Command, Event, Phase, PlaybackSession};
use crab_dlna::devices::types::{ActionResponse, TransportInfo};
use crab_dlna::error::Error;
use crab_dlna::media::MediaStreamingServer;
use crab_dlna::utils::path::PathInfo;

fn server(with_subtitle: bool) -> MediaStreamingServer {
    let video = PathInfo { path: "movie.mp4".to_string(), exists: true, is_file: true, is_dir: false };
    let subtitle = if with_subtitle {
        Some(PathInfo { path: "movie.srt".to_string(), exists: true, is_file: true, is_dir: false })
    } else {
        None
    };
    MediaStreamingServer::new(&video, &subtitle, "127.0.0.1", 9000).unwrap()
}

fn session(syncing: bool) -> PlaybackSession {
    PlaybackSession::new(&server(syncing), syncing, &Config::default()).unwrap()
}

fn failed(why: &str) -> Event {
    Event::ActionFailed(why.to_string())
}

#[test]
fn a_session_sets_the_uri_then_plays_then_streams() {
    let mut s = session(false);
    assert_eq!(s.phase(), Phase::Ready);
    assert_eq!(s.video_uri(), "http://127.0.0.1:9000/movie.mp4");
    match s.step(Event::Started) {
        Command::StartServerAndSetUri(request) => {
            assert_eq!(request.action, "SetAVTransportURI");
            assert!(request.payload.contains("<InstanceID>0</InstanceID>"));
            assert!(request
                .payload
                .contains("<CurrentURI>http://127.0.0.1:9000/movie.mp4</CurrentURI>"));
            assert!(request.payload.contains("<CurrentURIMetaData>&lt;DIDL-Lite"));
        }
        other => panic!("unexpected command: {:?}", other),
    }
    assert_eq!(s.phase(), Phase::SettingUri { attempt: 1, waiting: false });
    match s.step(Event::ActionSucceeded) {
        Command::SendPlay(request) => {
            assert_eq!(request.action, "Play");
            assert_eq!(request.payload, "\n    <InstanceID>0</InstanceID>\n    <Speed>1</Speed>\n");
        }
        other => panic!("unexpected command: {:?}", other),
    }
    assert_eq!(s.phase(), Phase::StartingPlayback { attempt: 1, waiting: false });
    assert!(matches!(s.step(Event::ActionSucceeded), Command::Stream { sync_interval_ms: None }));
    assert_eq!(s.phase(), Phase::Streaming);
    assert!(!s.is_finished());
    assert!(matches!(
        s.step(Event::ServerStopped),
        Command::Finish { stop_sync: false, result: Ok(()) }
    ));
    assert!(s.is_finished());
    assert!(matches!(s.step(Event::Started), Command::Ignore));
    assert!(s.is_finished());
}

#[test]
fn a_failed_action_is_sent_again_after_a_wait() {
    let mut s = session(false);
    s.step(Event::Started);
    assert!(matches!(s.step(failed("a")), Command::Wait { delay_ms: 100 }));
    assert_eq!(s.phase(), Phase::SettingUri { attempt: 1, waiting: true });
    assert!(matches!(s.step(Event::DelayElapsed), Command::SendSetUri(_)));
    assert_eq!(s.phase(), Phase::SettingUri { attempt: 2, waiting: false });
    assert!(matches!(s.step(failed("b")), Command::Wait { delay_ms: 200 }));
    assert!(matches!(s.step(Event::DelayElapsed), Command::SendSetUri(_)));
    assert_eq!(s.phase(), Phase::SettingUri { attempt: 3, waiting: false });
    assert!(matches!(s.step(Event::ActionSucceeded), Command::SendPlay(_)));
    assert_eq!(s.phase(), Phase::StartingPlayback { attempt: 1, waiting: false });
}

#[test]
fn the_third_failure_to_set_the_uri_ends_the_session() {
    let mut s = session(true);
    s.step(Event::Started);
    s.step(failed("first"));
    s.step(Event::DelayElapsed);
    s.step(failed("second"));
    s.step(Event::DelayElapsed);
    match s.step(failed("third")) {
        Command::Finish { stop_sync, result: Err(Error::DlnaSetTransportUriFailed { source, uri }) } => {
            assert!(!stop_sync);
            assert_eq!(source, "third");
            assert_eq!(uri, "http://127.0.0.1:9000/movie.mp4");
        }
        other => panic!("unexpected command: {:?}", other),
    }
    assert!(s.is_finished());
}

#[test]
fn the_third_failure_to_play_ends_the_session() {
    let mut s = session(false);
    s.step(Event::Started);
    s.step(Event::ActionSucceeded);
    assert!(matches!(s.step(failed("first")), Command::Wait { delay_ms: 100 }));
    assert!(matches!(s.step(Event::DelayElapsed), Command::SendPlay(_)));
    assert!(matches!(s.step(failed("second")), Command::Wait { delay_ms: 200 }));
    assert!(matches!(s.step(Event::DelayElapsed), Command::SendPlay(_)));
    match s.step(failed("third")) {
        Command::Finish { stop_sync, result: Err(Error::DlnaPlaybackFailed { source, context }) } => {
            assert!(!stop_sync);
            assert_eq!(source, "third");
            assert_eq!(context, "Failed to start media playback on render device");
        }
        other => panic!("unexpected command: {:?}", other),
    }
    assert!(s.is_finished());
}

#[test]
fn the_subtitle_clock_runs_while_streaming() {
    let config = Config::default().with_subtitle_sync_interval(250);
    let mut s = PlaybackSession::new(&server(true), true, &config).unwrap();
    s.step(Event::Started);
    s.step(Event::ActionSucceeded);
    assert!(matches!(
        s.step(Event::ActionSucceeded),
        Command::Stream { sync_interval_ms: Some(250) }
    ));
    match s.step(Event::ServerFailed("task panicked".to_string())) {
        Command::Finish { stop_sync, result: Err(Error::StreamingServerError { source, context }) } => {
            assert!(stop_sync);
            assert_eq!(source, "task panicked");
            assert_eq!(context, "Media streaming server encountered an error");
        }
        other => panic!("unexpected command: {:?}", other),
    }
    let mut s = session(true);
    s.step(Event::Started);
    s.step(Event::ActionSucceeded);
    assert!(matches!(
        s.step(Event::ActionSucceeded),
        Command::Stream { sync_interval_ms: Some(500) }
    ));
    assert!(matches!(
        s.step(Event::ServerStopped),
        Command::Finish { stop_sync: true, result: Ok(()) }
    ));
}

#[test]
fn events_that_do_not_belong_are_ignored() {
    let mut s = session(false);
    assert!(matches!(s.step(Event::ActionSucceeded), Command::Ignore));
    assert!(matches!(s.step(Event::ServerStopped), Command::Ignore));
    assert_eq!(s.phase(), Phase::Ready);
    s.step(Event::Started);
    assert!(matches!(s.step(Event::DelayElapsed), Command::Ignore));
    assert!(matches!(s.step(Event::ServerFailed("x".to_string())), Command::Ignore));
    assert!(matches!(s.step(Event::Started), Command::Ignore));
    assert_eq!(s.phase(), Phase::SettingUri { attempt: 1, waiting: false });
    s.step(failed("x"));
    assert!(matches!(s.step(Event::ActionSucceeded), Command::Ignore));
    assert!(matches!(s.step(failed("y")), Command::Ignore));
    assert_eq!(s.phase(), Phase::SettingUri { attempt: 1, waiting: true });
}

#[test]
fn payloads_are_exact() {
    assert_eq!(
        build_play_payload(0, 1),
        "\n    <InstanceID>0</InstanceID>\n    <Speed>1</Speed>\n"
    );
    assert_eq!(
        build_play_payload(4294967295, 20),
        "\n    <InstanceID>4294967295</InstanceID>\n    <Speed>20</Speed>\n"
    );
    assert_eq!(build_pause_payload(0), "\n    <InstanceID>0</InstanceID>\n");
    assert_eq!(build_pause_payload(105), "\n    <InstanceID>105</InstanceID>\n");
}

#[test]
fn requests_name_their_action() {
    assert_eq!(pause_request().action, "Pause");
    assert_eq!(pause_request().payload, "\n    <InstanceID>0</InstanceID>\n");
    assert_eq!(resume_request().action, "Play");
    assert_eq!(
        resume_request().payload,
        "\n    <InstanceID>0</InstanceID>\n    <Speed>1</Speed>\n"
    );
    assert_eq!(position_info_request().action, "GetPositionInfo");
    assert_eq!(position_info_request().payload, "<InstanceID>0</InstanceID>");
    assert_eq!(transport_info_request().action, "GetTransportInfo");
    assert_eq!(transport_info_request().payload, "<InstanceID>0</InstanceID>");
}

#[test]
fn toggling_pauses_only_what_plays() {
    assert_eq!(toggle_action("PLAYING"), TransportAction::Pause);
    assert_eq!(toggle_action("PAUSED_PLAYBACK"), TransportAction::Resume);
    assert_eq!(toggle_action("STOPPED"), TransportAction::Resume);
    assert_eq!(toggle_action("TRANSITIONING"), TransportAction::Resume);
    assert_eq!(toggle_action("playing"), TransportAction::Resume);
    assert_eq!(toggle_action(""), TransportAction::Resume);
    let mut info = TransportInfo::default();
    assert_eq!(toggle_request(&info).action, "Play");
    info.transport_state = "PLAYING".to_string();
    assert_eq!(toggle_request(&info).action, "Pause");
    info.transport_state = "STOPPED".to_string();
    assert_eq!(toggle_request(&info).action, "Play");
}

#[test]
fn a_rejected_action_is_named() {
    match action_failed("GetTransportInfo", "HTTP 500".to_string()) {
        Error::DlnaActionFailed { action, source } => {
            assert_eq!(action, "GetTransportInfo");
            assert_eq!(source, "HTTP 500");
        }
        other => panic!("unexpected error: {:?}", other),
    }
}

#[test]
fn failures_of_actions_are_named() {
    assert_eq!(
        pause_failed("x".to_string()).to_string(),
        "Failed to start playback: x (Failed to pause media playback on render device)"
    );
    assert_eq!(
        resume_failed("x".to_string()).to_string(),
        "Failed to start playback: x (Failed to resume media playback on render device)"
    );
}

#[test]
fn answers_are_read() {
    let mut response = ActionResponse::new();
    response.insert("RelTime".to_string(), "00:01:00".to_string());
    response.insert("CurrentTransportState".to_string(), "PLAYING".to_string());
    assert_eq!(read_position_info(&response).unwrap().rel_time, "00:01:00");
    assert_eq!(read_transport_info(&response).unwrap().transport_state, "PLAYING");
    response.insert("RelCount".to_string(), "many".to_string());
    match read_position_info(&response) {
        Err(Error::DlnaResponseParseError { action, error }) => {
            assert_eq!(action, "GetPositionInfo");
            assert_eq!(error, "Failed to parse RelCount: invalid digit found in string");
        }
        other => panic!("unexpected result: {:?}", other),
    }
}
