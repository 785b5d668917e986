//! The course of one playback session.
//!
//! A session hands the URI of the video to the renderer, tells it to play,
//! and then lasts as long as the streaming server runs. The session decides;
//! its caller performs: it starts the server, sends the actions, waits, and
//! reports back what happened. `SetAVTransportURI` is settled before `Play`
//! is sent. An action that fails is sent again as the retry policy says; one
//! that fails on its last attempt ends the session.

use crate::config::{
    Config, DLNA_ACTION_PLAY, DLNA_ACTION_SET_AV_TRANSPORT_URI, DLNA_DEFAULT_SPEED,
    DLNA_INSTANCE_ID, MAX_NETWORK_RETRIES, MEDIA_PLAYBACK_FAILED_MSG,
};
use crate::dlna::actions::{build_play_payload, play_payload, ActionRequest};
use crate::dlna::metadata::{
    build_metadata, build_setavtransporturi_payload, metadata_of, set_uri_payload,
};
use crate::error::Error;
use crate::media::streaming::{MediaStreamingServer, ServerView};
use crate::utils::network::{after_attempt, backoff_delay, decide, RetryDecision};
use vstd::prelude::*;
use vstd::string::*;

verus! {

/// Where a session stands.
#[derive(Debug, Clone, Copy, PartialEq, Eq, Structural)]
pub enum Phase {
    /// Nothing was done yet.
    Ready,
    /// `SetAVTransportURI` was sent `attempt` times; its answer is awaited,
    /// or the wait before the next attempt.
    SettingUri { attempt: u32, waiting: bool },
    /// `Play` was sent `attempt` times; its answer is awaited, or the wait
    /// before the next attempt.
    StartingPlayback { attempt: u32, waiting: bool },
    /// The renderer plays; the session lasts as long as the server runs.
    Streaming,
    /// The session is over.
    Finished,
}

/// What the caller reports to the session.
#[derive(Debug, Clone)]
pub enum Event {
    /// The session is to begin.
    Started,
    /// The action sent last succeeded.
    ActionSucceeded,
    /// The action sent last failed; the text says why.
    ActionFailed(String),
    /// The wait asked for is over.
    DelayElapsed,
    /// The streaming server was stopped.
    ServerStopped,
    /// The streaming server failed; the text says why.
    ServerFailed(String),
}

/// An event without what it carries.
#[derive(Debug, Clone, Copy, PartialEq, Eq, Structural)]
pub enum EventKind {
    Started,
    ActionSucceeded,
    ActionFailed,
    DelayElapsed,
    ServerStopped,
    ServerFailed,
}

impl Event {
    /// What kind of event this is.
    pub open spec fn kind(self) -> EventKind {
        match self {
            Event::Started => EventKind::Started,
            Event::ActionSucceeded => EventKind::ActionSucceeded,
            Event::ActionFailed(_) => EventKind::ActionFailed,
            Event::DelayElapsed => EventKind::DelayElapsed,
            Event::ServerStopped => EventKind::ServerStopped,
            Event::ServerFailed(_) => EventKind::ServerFailed,
        }
    }

    /// The text an event carries, if any.
    pub open spec fn source(self) -> Seq<char> {
        match self {
            Event::ActionFailed(s) => s@,
            Event::ServerFailed(s) => s@,
            _ => Seq::<char>::empty(),
        }
    }
}

/// What the session asks its caller to do next.
#[derive(Debug)]
pub enum Command {
    /// Start the streaming server in the background, then send
    /// `SetAVTransportURI` and report how it went.
    StartServerAndSetUri(ActionRequest),
    /// Send `SetAVTransportURI` again and report how it went.
    SendSetUri(ActionRequest),
    /// Send `Play` and report how it went.
    SendPlay(ActionRequest),
    /// Wait, then report that the delay elapsed.
    Wait { delay_ms: u64 },
    /// Start the subtitle clock where an interval is given, then await the
    /// streaming server and report how it ended.
    Stream { sync_interval_ms: Option<u64> },
    /// The session is over: stop the subtitle clock where it runs, and hand
    /// the result to whoever asked for the session.
    Finish { stop_sync: bool, result: Result<(), Error> },
    /// The event does not belong to the phase: do nothing.
    Ignore,
}

/// A command without what it carries.
#[derive(Debug, Clone, Copy, PartialEq, Eq, Structural)]
pub enum CommandKind {
    StartServerAndSetUri,
    SendSetUri,
    SendPlay,
    Wait,
    Stream,
    Completed,
    SetUriFailed,
    PlaybackFailed,
    ServerFailed,
    Ignore,
}

impl Command {
    /// What kind of command this is; the end of a session counts by how it
    /// ended.
    pub open spec fn kind(self) -> CommandKind {
        match self {
            Command::StartServerAndSetUri(_) => CommandKind::StartServerAndSetUri,
            Command::SendSetUri(_) => CommandKind::SendSetUri,
            Command::SendPlay(_) => CommandKind::SendPlay,
            Command::Wait { .. } => CommandKind::Wait,
            Command::Stream { .. } => CommandKind::Stream,
            Command::Finish { result, .. } => match result {
                Ok(_) => CommandKind::Completed,
                Err(Error::DlnaSetTransportUriFailed { .. }) => CommandKind::SetUriFailed,
                Err(Error::DlnaPlaybackFailed { .. }) => CommandKind::PlaybackFailed,
                Err(_) => CommandKind::ServerFailed,
            },
            Command::Ignore => CommandKind::Ignore,
        }
    }
}

/// Whether the attempt counter of a phase is one the retry policy knows.
pub open spec fn phase_wf(phase: Phase) -> bool {
    match phase {
        Phase::SettingUri { attempt, waiting } => 1 <= attempt <= MAX_NETWORK_RETRIES && (waiting
            ==> attempt < MAX_NETWORK_RETRIES),
        Phase::StartingPlayback { attempt, waiting } => 1 <= attempt <= MAX_NETWORK_RETRIES && (
        waiting ==> attempt < MAX_NETWORK_RETRIES),
        _ => true,
    }
}

/// The phase that follows an event.
pub open spec fn next_phase(phase: Phase, event: EventKind) -> Phase {
    match (phase, event) {
        (Phase::Ready, EventKind::Started) => Phase::SettingUri { attempt: 1, waiting: false },
        (Phase::SettingUri { attempt, waiting: false }, EventKind::ActionSucceeded) => {
            Phase::StartingPlayback { attempt: 1, waiting: false }
        },
        (Phase::SettingUri { attempt, waiting: false }, EventKind::ActionFailed) => {
            if decide(attempt as nat, false) == RetryDecision::GiveUp {
                Phase::Finished
            } else {
                Phase::SettingUri { attempt, waiting: true }
            }
        },
        (Phase::SettingUri { attempt, waiting: true }, EventKind::DelayElapsed) => {
            Phase::SettingUri { attempt: (attempt + 1) as u32, waiting: false }
        },
        (Phase::StartingPlayback { attempt, waiting: false }, EventKind::ActionSucceeded) => {
            Phase::Streaming
        },
        (Phase::StartingPlayback { attempt, waiting: false }, EventKind::ActionFailed) => {
            if decide(attempt as nat, false) == RetryDecision::GiveUp {
                Phase::Finished
            } else {
                Phase::StartingPlayback { attempt, waiting: true }
            }
        },
        (Phase::StartingPlayback { attempt, waiting: true }, EventKind::DelayElapsed) => {
            Phase::StartingPlayback { attempt: (attempt + 1) as u32, waiting: false }
        },
        (Phase::Streaming, EventKind::ServerStopped) => Phase::Finished,
        (Phase::Streaming, EventKind::ServerFailed) => Phase::Finished,
        _ => phase,
    }
}

/// What is asked of the caller after an event.
pub open spec fn next_command(phase: Phase, event: EventKind) -> CommandKind {
    match (phase, event) {
        (Phase::Ready, EventKind::Started) => CommandKind::StartServerAndSetUri,
        (Phase::SettingUri { attempt, waiting: false }, EventKind::ActionSucceeded) => {
            CommandKind::SendPlay
        },
        (Phase::SettingUri { attempt, waiting: false }, EventKind::ActionFailed) => {
            if decide(attempt as nat, false) == RetryDecision::GiveUp {
                CommandKind::SetUriFailed
            } else {
                CommandKind::Wait
            }
        },
        (Phase::SettingUri { attempt, waiting: true }, EventKind::DelayElapsed) => {
            CommandKind::SendSetUri
        },
        (Phase::StartingPlayback { attempt, waiting: false }, EventKind::ActionSucceeded) => {
            CommandKind::Stream
        },
        (Phase::StartingPlayback { attempt, waiting: false }, EventKind::ActionFailed) => {
            if decide(attempt as nat, false) == RetryDecision::GiveUp {
                CommandKind::PlaybackFailed
            } else {
                CommandKind::Wait
            }
        },
        (Phase::StartingPlayback { attempt, waiting: true }, EventKind::DelayElapsed) => {
            CommandKind::SendPlay
        },
        (Phase::Streaming, EventKind::ServerStopped) => CommandKind::Completed,
        (Phase::Streaming, EventKind::ServerFailed) => CommandKind::ServerFailed,
        _ => CommandKind::Ignore,
    }
}

/// One playback session.
#[derive(Debug)]
pub struct PlaybackSession {
    phase: Phase,
    video_uri: String,
    set_uri_payload: String,
    play_payload: String,
    sync_interval_ms: Option<u64>,
}

/// A session as a value.
pub struct SessionView {
    pub phase: Phase,
    pub video_uri: Seq<char>,
    pub set_uri_payload: Seq<char>,
    pub play_payload: Seq<char>,
    pub sync_interval_ms: Option<u64>,
}

impl View for PlaybackSession {
    type V = SessionView;

    closed spec fn view(&self) -> SessionView {
        SessionView {
            phase: self.phase,
            video_uri: self.video_uri@,
            set_uri_payload: self.set_uri_payload@,
            play_payload: self.play_payload@,
            sync_interval_ms: self.sync_interval_ms,
        }
    }
}

/// The session for a streaming server before anything was done: what it
/// will send, and whether a subtitle clock will run.
pub open spec fn session_for(server: ServerView, syncing: bool, config: Config) -> SessionView {
    SessionView {
        phase: Phase::Ready,
        video_uri: server.video_file.uri(),
        set_uri_payload: set_uri_payload(
            DLNA_INSTANCE_ID,
            server.video_file.uri(),
            metadata_of(server),
        ),
        play_payload: play_payload(DLNA_INSTANCE_ID, DLNA_DEFAULT_SPEED),
        sync_interval_ms: if syncing {
            Some(config.subtitle_sync_interval_ms)
        } else {
            None
        },
    }
}

/// Whether a command carries what the session and the event give it.
pub open spec fn carries(command: Command, session: SessionView, event: Event) -> bool {
    match command {
        Command::StartServerAndSetUri(request) => request.action@
            == DLNA_ACTION_SET_AV_TRANSPORT_URI@ && request.payload@ == session.set_uri_payload,
        Command::SendSetUri(request) => request.action@ == DLNA_ACTION_SET_AV_TRANSPORT_URI@
            && request.payload@ == session.set_uri_payload,
        Command::SendPlay(request) => request.action@ == DLNA_ACTION_PLAY@ && request.payload@
            == session.play_payload,
        Command::Wait { delay_ms } => match session.phase {
            Phase::SettingUri { attempt, .. } => delay_ms == backoff_delay(attempt as nat),
            Phase::StartingPlayback { attempt, .. } => delay_ms == backoff_delay(attempt as nat),
            _ => false,
        },
        Command::Stream { sync_interval_ms } => sync_interval_ms == session.sync_interval_ms,
        Command::Finish { stop_sync, result } => match result {
            Ok(_) => stop_sync == session.sync_interval_ms.is_some(),
            Err(Error::DlnaSetTransportUriFailed { source, uri }) => !stop_sync && source@
                == event.source() && uri@ == session.video_uri,
            Err(Error::DlnaPlaybackFailed { source, context }) => !stop_sync && source@
                == event.source() && context@ == MEDIA_PLAYBACK_FAILED_MSG@,
            Err(Error::StreamingServerError { source, context }) => stop_sync
                == session.sync_interval_ms.is_some() && source@ == event.source() && context@
                == "Media streaming server encountered an error"@,
            Err(_) => false,
        },
        Command::Ignore => true,
    }
}

impl PlaybackSession {
    #[verifier::type_invariant]
    spec fn attempts_in_range(self) -> bool {
        phase_wf(self.phase)
    }

    /// Prepares the session for a streaming server: builds the metadata and
    /// the payloads. The subtitle clock will run at the configured interval
    /// where `syncing` is set.
    pub fn new(streaming_server: &MediaStreamingServer, syncing: bool, config: &Config) -> (r:
        Result<Self, Error>)
        ensures
            r.is_ok(),
            r.unwrap()@ == session_for(streaming_server@, syncing, *config),
    {
        let metadata = match build_metadata(streaming_server) {
            Ok(m) => m,
            Err(e) => {
                return Err(e);
            },
        };
        let set_uri_payload = match build_setavtransporturi_payload(
            streaming_server,
            metadata.as_str(),
        ) {
            Ok(p) => p,
            Err(e) => {
                return Err(e);
            },
        };
        Ok(
            PlaybackSession {
                phase: Phase::Ready,
                video_uri: streaming_server.video_uri(),
                set_uri_payload,
                play_payload: build_play_payload(DLNA_INSTANCE_ID, DLNA_DEFAULT_SPEED),
                sync_interval_ms: if syncing {
                    Some(config.subtitle_sync_interval_ms)
                } else {
                    None
                },
            },
        )
    }

    /// Where the session stands.
    pub fn phase(&self) -> (p: Phase)
        ensures
            p == self@.phase,
            phase_wf(p),
    {
        proof {
            use_type_invariant(self);
        }
        self.phase
    }

    /// Whether the session is over.
    pub fn is_finished(&self) -> (r: bool)
        ensures
            r == (self@.phase == Phase::Finished),
    {
        match self.phase {
            Phase::Finished => true,
            _ => false,
        }
    }

    /// The URI the renderer is told to fetch.
    pub fn video_uri(&self) -> (r: &String)
        ensures
            r@ == self@.video_uri,
    {
        &self.video_uri
    }

    fn set_uri_request(&self) -> (r: ActionRequest)
        ensures
            r.action@ == DLNA_ACTION_SET_AV_TRANSPORT_URI@,
            r.payload@ == self@.set_uri_payload,
    {
        ActionRequest {
            action: String::from_str(DLNA_ACTION_SET_AV_TRANSPORT_URI),
            payload: self.set_uri_payload.clone(),
        }
    }

    fn play_request(&self) -> (r: ActionRequest)
        ensures
            r.action@ == DLNA_ACTION_PLAY@,
            r.payload@ == self@.play_payload,
    {
        ActionRequest {
            action: String::from_str(DLNA_ACTION_PLAY),
            payload: self.play_payload.clone(),
        }
    }

    /// Takes what the caller reports and says what to do next.
    pub fn step(&mut self, event: Event) -> (command: Command)
        ensures
            phase_wf(old(self)@.phase),
            phase_wf(final(self)@.phase),
            final(self)@ == (SessionView {
                phase: next_phase(old(self)@.phase, event.kind()),
                ..old(self)@
            }),
            command.kind() == next_command(old(self)@.phase, event.kind()),
            carries(command, old(self)@, event),
    {
        proof {
            use_type_invariant(&*self);
            assert(backoff_delay(1) == 100);
            assert(backoff_delay(2) == 2 * backoff_delay(1));
        }
        match (self.phase, event) {
            (Phase::Ready, Event::Started) => {
                self.phase = Phase::SettingUri { attempt: 1, waiting: false };
                Command::StartServerAndSetUri(self.set_uri_request())
            },
            (Phase::SettingUri { attempt, waiting: false }, Event::ActionSucceeded) => {
                self.phase = Phase::StartingPlayback { attempt: 1, waiting: false };
                Command::SendPlay(self.play_request())
            },
            (Phase::SettingUri { attempt, waiting: false }, Event::ActionFailed(source)) => {
                match after_attempt(attempt, false) {
                    RetryDecision::RetryAfter { delay_ms } => {
                        self.phase = Phase::SettingUri { attempt, waiting: true };
                        Command::Wait { delay_ms }
                    },
                    _ => {
                        self.phase = Phase::Finished;
                        Command::Finish {
                            stop_sync: false,
                            result: Err(
                                Error::DlnaSetTransportUriFailed {
                                    source,
                                    uri: self.video_uri.clone(),
                                },
                            ),
                        }
                    },
                }
            },
            (Phase::SettingUri { attempt, waiting: true }, Event::DelayElapsed) => {
                self.phase = Phase::SettingUri { attempt: attempt + 1, waiting: false };
                Command::SendSetUri(self.set_uri_request())
            },
            (Phase::StartingPlayback { attempt, waiting: false }, Event::ActionSucceeded) => {
                self.phase = Phase::Streaming;
                Command::Stream { sync_interval_ms: self.sync_interval_ms }
            },
            (Phase::StartingPlayback { attempt, waiting: false }, Event::ActionFailed(source)) => {
                match after_attempt(attempt, false) {
                    RetryDecision::RetryAfter { delay_ms } => {
                        self.phase = Phase::StartingPlayback { attempt, waiting: true };
                        Command::Wait { delay_ms }
                    },
                    _ => {
                        self.phase = Phase::Finished;
                        Command::Finish {
                            stop_sync: false,
                            result: Err(
                                Error::DlnaPlaybackFailed {
                                    source,
                                    context: String::from_str(MEDIA_PLAYBACK_FAILED_MSG),
                                },
                            ),
                        }
                    },
                }
            },
            (Phase::StartingPlayback { attempt, waiting: true }, Event::DelayElapsed) => {
                self.phase = Phase::StartingPlayback { attempt: attempt + 1, waiting: false };
                Command::SendPlay(self.play_request())
            },
            (Phase::Streaming, Event::ServerStopped) => {
                self.phase = Phase::Finished;
                Command::Finish { stop_sync: self.sync_interval_ms.is_some(), result: Ok(()) }
            },
            (Phase::Streaming, Event::ServerFailed(source)) => {
                self.phase = Phase::Finished;
                Command::Finish {
                    stop_sync: self.sync_interval_ms.is_some(),
                    result: Err(
                        Error::StreamingServerError {
                            source,
                            context: String::from_str(
                                "Media streaming server encountered an error",
                            ),
                        },
                    ),
                }
            },
            _ => Command::Ignore,
        }
    }
}

/// `Play` is only ever sent once `SetAVTransportURI` has succeeded: the
/// session comes to start playback from nowhere but the success of setting
/// the URI, and sends `Play` nowhere but there or in a later attempt.
pub proof fn lemma_play_follows_set_uri(phase: Phase, event: EventKind)
    ensures
        next_phase(phase, event) is StartingPlayback && !(phase is StartingPlayback) ==> phase
            == (Phase::SettingUri { attempt: phase->SettingUri_attempt, waiting: false })
            && event == EventKind::ActionSucceeded,
        next_command(phase, event) == CommandKind::SendPlay ==> next_phase(
            phase,
            event,
        ) is StartingPlayback,
        next_command(phase, event) == CommandKind::SendSetUri || next_command(phase, event)
            == CommandKind::StartServerAndSetUri ==> next_phase(phase, event) is SettingUri,
{
}

/// The server is started before the renderer is told where to fetch, and
/// nothing is streamed before playback has started.
pub proof fn lemma_server_starts_first(phase: Phase, event: EventKind)
    ensures
        next_command(phase, event) == CommandKind::StartServerAndSetUri <==> phase == Phase::Ready
            && event == EventKind::Started,
        next_command(phase, event) == CommandKind::Stream ==> phase is StartingPlayback && event
            == EventKind::ActionSucceeded,
{
}

/// An action is given up after its third failure and not before, and only
/// a failed action or the end of the server ends the session.
pub proof fn lemma_session_ends(phase: Phase, event: EventKind)
    requires
        phase_wf(phase),
    ensures
        phase_wf(next_phase(phase, event)),
        next_command(phase, event) == CommandKind::SetUriFailed <==> phase == (Phase::SettingUri {
            attempt: MAX_NETWORK_RETRIES,
            waiting: false,
        }) && event == EventKind::ActionFailed,
        next_command(phase, event) == CommandKind::PlaybackFailed <==> phase
            == (Phase::StartingPlayback { attempt: MAX_NETWORK_RETRIES, waiting: false }) && event
            == EventKind::ActionFailed,
        next_phase(phase, event) == Phase::Finished && phase != Phase::Finished ==> event
            == EventKind::ActionFailed || (phase == Phase::Streaming && (event
            == EventKind::ServerStopped || event == EventKind::ServerFailed)),
{
}

} // verus!
