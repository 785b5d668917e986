//! The control actions: their names, their payloads, and the choice
//! between pausing and resuming.

use crate::config::{
    DLNA_ACTION_GET_POSITION_INFO, DLNA_ACTION_GET_TRANSPORT_INFO, DLNA_ACTION_PAUSE,
    DLNA_ACTION_PLAY, DLNA_DEFAULT_SPEED, DLNA_INSTANCE_ID, DLNA_POSITION_INFO_PAYLOAD,
    DLNA_TRANSPORT_INFO_PAYLOAD,
};
use crate::devices::types::{
    position_of, transport_of, ActionResponse, PositionInfo, PositionInfoView, TransportInfo,
};
use crate::digits::{decimal_text, push_decimal};
use crate::error::Error;
use crate::text::{push_str, str_eq, string_of};
use vstd::prelude::*;
use vstd::string::*;

verus! {

/// The payload of the play action.
pub open spec fn play_payload(instance_id: u32, speed: u32) -> Seq<char> {
    "\n    <InstanceID>"@ + decimal_text(instance_id as nat) + "</InstanceID>\n    <Speed>"@
        + decimal_text(speed as nat) + "</Speed>\n"@
}

/// The payload of the pause action.
pub open spec fn pause_payload(instance_id: u32) -> Seq<char> {
    "\n    <InstanceID>"@ + decimal_text(instance_id as nat) + "</InstanceID>\n"@
}

/// Builds a DLNA play payload with configurable parameters
pub fn build_play_payload(instance_id: u32, speed: u32) -> (r: String)
    ensures
        r@ == play_payload(instance_id, speed),
{
    let mut out: Vec<char> = Vec::new();
    push_str(&mut out, "\n    <InstanceID>");
    push_decimal(&mut out, instance_id as u64);
    push_str(&mut out, "</InstanceID>\n    <Speed>");
    push_decimal(&mut out, speed as u64);
    push_str(&mut out, "</Speed>\n");
    string_of(&out)
}

/// Builds a DLNA pause payload
pub fn build_pause_payload(instance_id: u32) -> (r: String)
    ensures
        r@ == pause_payload(instance_id),
{
    let mut out: Vec<char> = Vec::new();
    push_str(&mut out, "\n    <InstanceID>");
    push_decimal(&mut out, instance_id as u64);
    push_str(&mut out, "</InstanceID>\n");
    string_of(&out)
}

/// One action to invoke on the renderer: its name and its payload.
#[derive(Debug, Clone)]
pub struct ActionRequest {
    pub action: String,
    pub payload: String,
}

/// What is sent to pause playback.
pub fn pause_request() -> (r: ActionRequest)
    ensures
        r.action@ == DLNA_ACTION_PAUSE@,
        r.payload@ == pause_payload(DLNA_INSTANCE_ID),
{
    ActionRequest {
        action: String::from_str(DLNA_ACTION_PAUSE),
        payload: build_pause_payload(DLNA_INSTANCE_ID),
    }
}

/// What is sent to start or resume playback.
pub fn resume_request() -> (r: ActionRequest)
    ensures
        r.action@ == DLNA_ACTION_PLAY@,
        r.payload@ == play_payload(DLNA_INSTANCE_ID, DLNA_DEFAULT_SPEED),
{
    ActionRequest {
        action: String::from_str(DLNA_ACTION_PLAY),
        payload: build_play_payload(DLNA_INSTANCE_ID, DLNA_DEFAULT_SPEED),
    }
}

/// What is sent to ask for the playback position.
pub fn position_info_request() -> (r: ActionRequest)
    ensures
        r.action@ == DLNA_ACTION_GET_POSITION_INFO@,
        r.payload@ == DLNA_POSITION_INFO_PAYLOAD@,
{
    ActionRequest {
        action: String::from_str(DLNA_ACTION_GET_POSITION_INFO),
        payload: String::from_str(DLNA_POSITION_INFO_PAYLOAD),
    }
}

/// What is sent to ask for the transport state.
pub fn transport_info_request() -> (r: ActionRequest)
    ensures
        r.action@ == DLNA_ACTION_GET_TRANSPORT_INFO@,
        r.payload@ == DLNA_TRANSPORT_INFO_PAYLOAD@,
{
    ActionRequest {
        action: String::from_str(DLNA_ACTION_GET_TRANSPORT_INFO),
        payload: String::from_str(DLNA_TRANSPORT_INFO_PAYLOAD),
    }
}

/// The error for a pause that failed on its last attempt.
pub fn pause_failed(source: String) -> (e: Error)
    ensures
        e matches Error::DlnaPlaybackFailed { source: s, context } && s@ == source@ && context@
            == "Failed to pause media playback on render device"@,
{
    Error::DlnaPlaybackFailed {
        source,
        context: String::from_str("Failed to pause media playback on render device"),
    }
}

/// The error for a resume that failed on its last attempt.
pub fn resume_failed(source: String) -> (e: Error)
    ensures
        e matches Error::DlnaPlaybackFailed { source: s, context } && s@ == source@ && context@
            == "Failed to resume media playback on render device"@,
{
    Error::DlnaPlaybackFailed {
        source,
        context: String::from_str("Failed to resume media playback on render device"),
    }
}

/// The error for an action that the renderer rejected or that did not
/// reach it.
pub fn action_failed(action: &str, source: String) -> (e: Error)
    ensures
        e matches Error::DlnaActionFailed { action: a, source: s } && a@ == action@ && s@
            == source@,
{
    Error::DlnaActionFailed { action: String::from_str(action), source }
}

/// Reads the answer to the position info action.
pub fn read_position_info(response: &ActionResponse) -> (r: Result<PositionInfo, Error>)
    ensures
        match r {
            Ok(p) => position_of(response@) == Ok::<PositionInfoView, Seq<char>>(p@),
            Err(e) => e matches Error::DlnaResponseParseError { action, error } && action@
                == DLNA_ACTION_GET_POSITION_INFO@ && position_of(response@) == Err::<
                PositionInfoView,
                Seq<char>,
            >(error@),
        },
{
    match PositionInfo::from_map(response) {
        Ok(p) => Ok(p),
        Err(error) => Err(
            Error::DlnaResponseParseError {
                action: String::from_str(DLNA_ACTION_GET_POSITION_INFO),
                error,
            },
        ),
    }
}

/// Reads the answer to the transport info action; this never fails.
pub fn read_transport_info(response: &ActionResponse) -> (r: Result<TransportInfo, Error>)
    ensures
        r.is_ok(),
        r.unwrap()@ == transport_of(response@),
{
    match TransportInfo::from_map(response) {
        Ok(t) => Ok(t),
        Err(error) => Err(
            Error::DlnaResponseParseError {
                action: String::from_str(DLNA_ACTION_GET_TRANSPORT_INFO),
                error,
            },
        ),
    }
}

/// What toggling does to the transport.
#[derive(Debug, Clone, Copy, PartialEq, Eq, Structural)]
pub enum TransportAction {
    Pause,
    Resume,
}

/// What toggling does in a transport state: a playing renderer is paused;
/// in any other state, known or not, playback is resumed.
pub open spec fn toggle_of(transport_state: Seq<char>) -> TransportAction {
    if transport_state == "PLAYING"@ {
        TransportAction::Pause
    } else {
        TransportAction::Resume
    }
}

/// Chooses between pausing and resuming from the transport state.
pub fn toggle_action(transport_state: &str) -> (r: TransportAction)
    ensures
        r == toggle_of(transport_state@),
{
    if str_eq(transport_state, "PLAYING") {
        TransportAction::Pause
    } else {
        TransportAction::Resume
    }
}

/// What is sent to toggle between playing and pausing, given the transport
/// info just read.
pub fn toggle_request(transport_info: &TransportInfo) -> (r: ActionRequest)
    ensures
        toggle_of(transport_info.transport_state@) == TransportAction::Pause ==> r.action@
            == DLNA_ACTION_PAUSE@ && r.payload@ == pause_payload(DLNA_INSTANCE_ID),
        toggle_of(transport_info.transport_state@) == TransportAction::Resume ==> r.action@
            == DLNA_ACTION_PLAY@ && r.payload@ == play_payload(
            DLNA_INSTANCE_ID,
            DLNA_DEFAULT_SPEED,
        ),
{
    match toggle_action(transport_info.transport_state.as_str()) {
        TransportAction::Pause => pause_request(),
        TransportAction::Resume => resume_request(),
    }
}

} // verus!
