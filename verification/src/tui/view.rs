//! What the dashboard shows: the texts of its panels, worked out from the
//! state.

use crate::devices::types::{PositionInfoView, TransportInfoView};
use crate::digits::{decimal_text, push_decimal_wide};
use crate::text::{push_str, str_eq, string_of};
use crate::tui::app::{AppState, AppStateView};
use crate::utils::path::{file_name, path_file_name};
use crate::utils::time::{progress_of, progress_percent};
use vstd::prelude::*;
use vstd::string::*;

verus! {

/// How a transport state is coloured.
#[derive(Debug, Clone, Copy, PartialEq, Eq, Structural)]
pub enum Tone {
    Playing,
    Paused,
    Stopped,
    Other,
}

/// One line of the playlist panel.
#[derive(Debug, Clone)]
pub struct PlaylistLabel {
    /// What the line says
    pub text: String,
    /// Whether the line is the file that plays
    pub is_current: bool,
}

/// One row of the device info dialog.
#[derive(Debug, Clone)]
pub struct InfoRow {
    pub label: &'static str,
    pub value: String,
}

/// The name shown for a path: its file name, or a placeholder where it has
/// none.
pub open spec fn shown_name(path: Seq<char>) -> Seq<char> {
    let name = file_name(path);
    if name.len() == 0 || name == ".."@ {
        "Unknown"@
    } else {
        name
    }
}

/// The header line.
pub open spec fn header_of(s: AppStateView) -> Seq<char> {
    "🎵 crab-dlna TUI - Device: "@ + s.render.friendly_name + " ("@ + s.render.url + ")"@
}

/// The title of the playlist panel: which item is selected, counted from
/// one, and how many there are.
pub open spec fn playlist_title_of(s: AppStateView) -> Seq<char> {
    "Playlist ("@ + decimal_text((s.selected_playlist_item + 1) as nat) + "/"@ + decimal_text(
        s.playlist.files.len(),
    ) + ")"@
}

/// The line of playlist item `i`: marked where it is the file that plays.
pub open spec fn playlist_label_of(s: AppStateView, i: int) -> Seq<char> {
    (if s.current_file_index == Some(i as usize) {
        "♪ "@
    } else {
        "  "@
    }) + shown_name(s.playlist.files[i])
}

/// The name of the track that plays.
pub open spec fn track_name_of(s: AppStateView) -> Seq<char> {
    match s.current_file {
        Some(f) => shown_name(f),
        None => "No track selected"@,
    }
}

/// The transport state as the renderer reported it.
pub open spec fn transport_state_of(info: Option<TransportInfoView>) -> Seq<char> {
    match info {
        Some(t) => t.transport_state,
        None => "Unknown"@,
    }
}

/// The colouring of a transport state.
pub open spec fn tone_of(state: Seq<char>) -> Tone {
    if state == "PLAYING"@ {
        Tone::Playing
    } else if state == "PAUSED_PLAYBACK"@ {
        Tone::Paused
    } else if state == "STOPPED"@ {
        Tone::Stopped
    } else {
        Tone::Other
    }
}

/// The label of the progress bar.
pub open spec fn progress_label_of(info: Option<PositionInfoView>) -> Seq<char> {
    match info {
        Some(p) => p.rel_time + " / "@ + p.track_duration,
        None => "-- / --"@,
    }
}

/// The share of the track that was played, in percent.
pub open spec fn progress_percent_of(info: Option<PositionInfoView>) -> nat {
    match info {
        Some(p) => progress_of(p.rel_time, p.track_duration),
        None => 0,
    }
}

fn name_to_show(path: &str) -> (r: String)
    ensures
        r@ == shown_name(path@),
{
    proof {
        reveal_strlit("..");
    }
    let name = path_file_name(path);
    if name.as_str().unicode_len() == 0 || str_eq(name.as_str(), "..") {
        String::from_str("Unknown")
    } else {
        name
    }
}

/// The header line.
pub fn header_text(state: &AppState) -> (r: String)
    ensures
        r@ == header_of(state@),
{
    let mut r = String::from_str("🎵 crab-dlna TUI - Device: ");
    r.append(state.render.friendly_name.as_str());
    r.append(" (");
    r.append(state.render.url.as_str());
    r.append(")");
    r
}

/// The title of the playlist panel.
pub fn playlist_title(state: &AppState) -> (r: String)
    ensures
        r@ == playlist_title_of(state@),
{
    let mut out: Vec<char> = Vec::new();
    push_str(&mut out, "Playlist (");
    push_decimal_wide(&mut out, state.selected_playlist_item as u128 + 1);
    push_str(&mut out, "/");
    push_decimal_wide(&mut out, state.playlist.len() as u128);
    push_str(&mut out, ")");
    string_of(&out)
}

/// The lines of the playlist panel, one for each file.
pub fn playlist_labels(state: &AppState) -> (r: Vec<PlaylistLabel>)
    ensures
        r.len() == state@.playlist.files.len(),
        forall|i: int|
            0 <= i < r.len() ==> (#[trigger] r[i]).text@ == playlist_label_of(state@, i)
                && r[i].is_current == (state.current_file_index == Some(i as usize)),
{
    let mut r: Vec<PlaylistLabel> = Vec::new();
    let n = state.playlist.len();
    let mut i: usize = 0;
    while i < n
        invariant
            i <= n,
            n == state@.playlist.files.len(),
            r.len() == i,
            forall|k: int|
                0 <= k < i ==> (#[trigger] r[k]).text@ == playlist_label_of(state@, k)
                    && r[k].is_current == (state.current_file_index == Some(k as usize)),
        decreases n - i,
    {
        let is_current = match state.current_file_index {
            Some(c) => c == i,
            None => false,
        };
        let mut text = String::from_str(
            if is_current {
                "♪ "
            } else {
                "  "
            },
        );
        match state.playlist.get_file(i) {
            Some(file) => {
                text.append(name_to_show(file.as_str()).as_str());
            },
            None => {},
        }
        r.push(PlaylistLabel { text, is_current });
        i += 1;
    }
    r
}

/// The name of the track that plays.
pub fn current_track_name(state: &AppState) -> (r: String)
    ensures
        r@ == track_name_of(state@),
{
    match &state.current_file {
        Some(file) => name_to_show(file.as_str()),
        None => String::from_str("No track selected"),
    }
}

/// The transport state as the renderer reported it.
pub fn transport_state_text(state: &AppState) -> (r: String)
    ensures
        r@ == transport_state_of(state@.transport_info),
{
    match &state.transport_info {
        Some(info) => info.transport_state.clone(),
        None => String::from_str("Unknown"),
    }
}

/// The colouring of the transport state.
pub fn transport_tone(state: &AppState) -> (r: Tone)
    ensures
        r == tone_of(transport_state_of(state@.transport_info)),
{
    let text = transport_state_text(state);
    if str_eq(text.as_str(), "PLAYING") {
        Tone::Playing
    } else if str_eq(text.as_str(), "PAUSED_PLAYBACK") {
        Tone::Paused
    } else if str_eq(text.as_str(), "STOPPED") {
        Tone::Stopped
    } else {
        Tone::Other
    }
}

/// The label of the progress bar.
pub fn progress_label(state: &AppState) -> (r: String)
    ensures
        r@ == progress_label_of(state@.position_info),
{
    match &state.position_info {
        Some(info) => {
            let mut r = info.rel_time.clone();
            r.append(" / ");
            r.append(info.track_duration.as_str());
            r
        },
        None => String::from_str("-- / --"),
    }
}

/// The share of the track that was played, in percent.
pub fn progress_percentage(state: &AppState) -> (r: u16)
    ensures
        r == progress_percent_of(state@.position_info),
        r <= 100,
{
    match &state.position_info {
        Some(info) => progress_percent(info.rel_time.as_str(), info.track_duration.as_str()),
        None => 0,
    }
}

/// The rows of the device info dialog: name, URL and type of the device,
/// then type and identifier of its service.
pub fn device_info_rows(state: &AppState) -> (r: Vec<InfoRow>)
    ensures
        r.len() == 5,
        r[0].label@ == "Name: "@ && r[0].value@ == state@.render.friendly_name,
        r[1].label@ == "URL: "@ && r[1].value@ == state@.render.url,
        r[2].label@ == "Type: "@ && r[2].value@ == state@.render.device_type,
        r[3].label@ == "Service Type: "@ && r[3].value@ == state@.render.service_type,
        r[4].label@ == "Service ID: "@ && r[4].value@ == state@.render.service_id,
{
    let mut r: Vec<InfoRow> = Vec::new();
    r.push(InfoRow { label: "Name: ", value: state.render.friendly_name.clone() });
    r.push(InfoRow { label: "URL: ", value: state.render.url.clone() });
    r.push(InfoRow { label: "Type: ", value: state.render.device_type.clone() });
    r.push(InfoRow { label: "Service Type: ", value: state.render.service_type.clone() });
    r.push(InfoRow { label: "Service ID: ", value: state.render.service_id.clone() });
    r
}

} // verus!
