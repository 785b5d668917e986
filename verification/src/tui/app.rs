//! The state of the terminal dashboard.

use crate::devices::render::{Render, RenderView};
use crate::devices::types::{PositionInfo, PositionInfoView, TransportInfo, TransportInfoView};
use crate::error::Error;
use crate::media::playlist::{Playlist, PlaylistView};
use crate::text::str_eq;
use vstd::prelude::*;
use vstd::string::*;

verus! {

/// Application state for the TUI
#[derive(Debug, Clone)]
pub struct AppState {
    /// Current playlist
    pub playlist: Playlist,
    /// Currently playing file index
    pub current_file_index: Option<usize>,
    /// Current playing file path
    pub current_file: Option<String>,
    /// Current transport info
    pub transport_info: Option<TransportInfo>,
    /// Current position info
    pub position_info: Option<PositionInfo>,
    /// Render device
    pub render: Render,
    /// Whether the app should quit
    pub should_quit: bool,
    /// Current status message
    pub status_message: String,
    /// Error message if any
    pub error_message: Option<String>,
    /// Selected playlist item
    pub selected_playlist_item: usize,
    /// Show help dialog
    pub show_help: bool,
    /// Show device info dialog
    pub show_device_info: bool,
}

/// An `AppState` with its strings as texts.
pub struct AppStateView {
    pub playlist: PlaylistView,
    pub current_file_index: Option<usize>,
    pub current_file: Option<Seq<char>>,
    pub transport_info: Option<TransportInfoView>,
    pub position_info: Option<PositionInfoView>,
    pub render: RenderView,
    pub should_quit: bool,
    pub status_message: Seq<char>,
    pub error_message: Option<Seq<char>>,
    pub selected_playlist_item: usize,
    pub show_help: bool,
    pub show_device_info: bool,
}

/// The text of a string that may be absent.
pub open spec fn text_of(s: Option<String>) -> Option<Seq<char>> {
    match s {
        Some(t) => Some(t@),
        None => None,
    }
}

impl View for AppState {
    type V = AppStateView;

    open spec fn view(&self) -> AppStateView {
        AppStateView {
            playlist: self.playlist@,
            current_file_index: self.current_file_index,
            current_file: text_of(self.current_file),
            transport_info: match self.transport_info {
                Some(t) => Some(t@),
                None => None,
            },
            position_info: match self.position_info {
                Some(p) => Some(p@),
                None => None,
            },
            render: self.render@,
            should_quit: self.should_quit,
            status_message: self.status_message@,
            error_message: text_of(self.error_message),
            selected_playlist_item: self.selected_playlist_item,
            show_help: self.show_help,
            show_device_info: self.show_device_info,
        }
    }
}

/// The playlist item selected after moving down from `selected` in a list
/// of `len` items: the next one, or the first after the last.
pub open spec fn item_after(selected: usize, len: nat) -> usize {
    if len == 0 {
        selected
    } else {
        ((selected + 1) % (len as int)) as usize
    }
}

/// The playlist item selected after moving up from `selected` in a list of
/// `len` items: the one before, or the last before the first.
pub open spec fn item_before(selected: usize, len: nat) -> usize {
    if len == 0 {
        selected
    } else if selected == 0 {
        (len - 1) as usize
    } else {
        (selected - 1) as usize
    }
}

/// How a transport state is shown.
pub open spec fn transport_display(info: Option<TransportInfoView>) -> Seq<char> {
    match info {
        Some(t) => if t.transport_state == "PLAYING"@ {
            "▶ Playing"@
        } else if t.transport_state == "PAUSED_PLAYBACK"@ {
            "⏸ Paused"@
        } else if t.transport_state == "STOPPED"@ {
            "⏹ Stopped"@
        } else {
            "? "@ + t.transport_state
        },
        None => "? Unknown"@,
    }
}

/// How a position is shown: with the duration of the track where the
/// renderer reports one.
pub open spec fn position_text(info: Option<PositionInfoView>) -> Seq<char> {
    match info {
        Some(p) => if p.track_duration.len() == 0 || p.track_duration == "NOT_IMPLEMENTED"@ {
            "Position: "@ + p.rel_time
        } else {
            p.rel_time + " / "@ + p.track_duration
        },
        None => "Position: --:--"@,
    }
}

impl AppState {
    /// Creates a new application state
    pub fn new(render: Render, playlist: Playlist) -> (s: Self)
        ensures
            s@ == (AppStateView {
                playlist: playlist@,
                current_file_index: None,
                current_file: None,
                transport_info: None,
                position_info: None,
                render: render@,
                should_quit: false,
                status_message: "Ready"@,
                error_message: None,
                selected_playlist_item: 0,
                show_help: false,
                show_device_info: false,
            }),
    {
        AppState {
            playlist,
            current_file_index: None,
            current_file: None,
            transport_info: None,
            position_info: None,
            render,
            should_quit: false,
            status_message: String::from_str("Ready"),
            error_message: None,
            selected_playlist_item: 0,
            show_help: false,
            show_device_info: false,
        }
    }

    /// Takes in what the renderer answered to the two status requests. A
    /// transport that was read clears the error; one that was not becomes
    /// the error. A position that was not read leaves the last one.
    pub fn update_status(
        &mut self,
        transport: Result<TransportInfo, Error>,
        position: Result<PositionInfo, Error>,
    )
        ensures
            final(self)@ == (AppStateView {
                transport_info: match transport {
                    Ok(t) => Some(t@),
                    Err(_) => old(self)@.transport_info,
                },
                error_message: match transport {
                    Ok(_) => None,
                    Err(e) => Some("Transport error: "@ + e.message()),
                },
                position_info: match position {
                    Ok(p) => Some(p@),
                    Err(_) => old(self)@.position_info,
                },
                ..old(self)@
            }),
    {
        match transport {
            Ok(info) => {
                self.transport_info = Some(info);
                self.error_message = None;
            },
            Err(e) => {
                let mut message = String::from_str("Transport error: ");
                message.append(e.to_string().as_str());
                self.error_message = Some(message);
            },
        }
        match position {
            Ok(info) => {
                self.position_info = Some(info);
            },
            Err(_) => {},
        }
    }

    /// Moves to the next item in the playlist
    pub fn next_playlist_item(&mut self)
        ensures
            final(self)@ == (AppStateView {
                selected_playlist_item: item_after(
                    old(self).selected_playlist_item,
                    old(self)@.playlist.files.len(),
                ),
                ..old(self)@
            }),
    {
        let len = self.playlist.len();
        if len > 0 {
            proof {
                vstd::arithmetic::div_mod::lemma_add_mod_noop(
                    self.selected_playlist_item as int,
                    1,
                    len as int,
                );
                vstd::arithmetic::div_mod::lemma_mod_pos_bound(
                    self.selected_playlist_item as int,
                    len as int,
                );
                if len > 1 {
                    vstd::arithmetic::div_mod::lemma_small_mod(1, len as nat);
                }
            }
            self.selected_playlist_item = ((self.selected_playlist_item % len) + 1) % len;
        }
    }

    /// Moves to the previous item in the playlist
    pub fn previous_playlist_item(&mut self)
        ensures
            final(self)@ == (AppStateView {
                selected_playlist_item: item_before(
                    old(self).selected_playlist_item,
                    old(self)@.playlist.files.len(),
                ),
                ..old(self)@
            }),
    {
        if !self.playlist.is_empty() {
            self.selected_playlist_item = if self.selected_playlist_item == 0 {
                self.playlist.len() - 1
            } else {
                self.selected_playlist_item - 1
            };
        }
    }

    /// Gets the currently selected file
    pub fn get_selected_file(&self) -> (r: Option<&String>)
        ensures
            match r {
                Some(f) => self.selected_playlist_item < self@.playlist.files.len() && f@
                    == self@.playlist.files[self.selected_playlist_item as int],
                None => self.selected_playlist_item >= self@.playlist.files.len(),
            },
    {
        self.playlist.get_file(self.selected_playlist_item)
    }

    /// Sets the current playing file
    pub fn set_current_file(&mut self, file_path: String, index: usize)
        ensures
            final(self)@ == (AppStateView {
                current_file: Some(file_path@),
                current_file_index: Some(index),
                ..old(self)@
            }),
    {
        self.current_file = Some(file_path);
        self.current_file_index = Some(index);
    }

    /// Clears the current playing file
    pub fn clear_current_file(&mut self)
        ensures
            final(self)@ == (AppStateView {
                current_file: None,
                current_file_index: None,
                ..old(self)@
            }),
    {
        self.current_file = None;
        self.current_file_index = None;
    }

    /// Sets a status message
    pub fn set_status_message(&mut self, message: String)
        ensures
            final(self)@ == (AppStateView { status_message: message@, ..old(self)@ }),
    {
        self.status_message = message;
    }

    /// Sets an error message
    pub fn set_error_message(&mut self, message: Option<String>)
        ensures
            final(self)@ == (AppStateView { error_message: text_of(message), ..old(self)@ }),
    {
        self.error_message = message;
    }

    /// Toggles help dialog
    pub fn toggle_help(&mut self)
        ensures
            final(self)@ == (AppStateView { show_help: !old(self).show_help, ..old(self)@ }),
    {
        self.show_help = !self.show_help;
    }

    /// Toggles device info dialog
    pub fn toggle_device_info(&mut self)
        ensures
            final(self)@ == (AppStateView {
                show_device_info: !old(self).show_device_info,
                ..old(self)@
            }),
    {
        self.show_device_info = !self.show_device_info;
    }

    /// Closes all dialogs
    pub fn close_dialogs(&mut self)
        ensures
            final(self)@ == (AppStateView {
                show_help: false,
                show_device_info: false,
                ..old(self)@
            }),
    {
        self.show_help = false;
        self.show_device_info = false;
    }

    /// Requests application quit
    pub fn quit(&mut self)
        ensures
            final(self)@ == (AppStateView { should_quit: true, ..old(self)@ }),
    {
        self.should_quit = true;
    }

    /// Gets the current transport state as a display string
    pub fn transport_state_display(&self) -> (r: String)
        ensures
            r@ == transport_display(self@.transport_info),
    {
        match &self.transport_info {
            Some(info) => {
                let state = info.transport_state.as_str();
                if str_eq(state, "PLAYING") {
                    String::from_str("▶ Playing")
                } else if str_eq(state, "PAUSED_PLAYBACK") {
                    String::from_str("⏸ Paused")
                } else if str_eq(state, "STOPPED") {
                    String::from_str("⏹ Stopped")
                } else {
                    let mut r = String::from_str("? ");
                    r.append(state);
                    r
                }
            },
            None => String::from_str("? Unknown"),
        }
    }

    /// Gets the current position as a display string
    pub fn position_display(&self) -> (r: String)
        ensures
            r@ == position_text(self@.position_info),
    {
        match &self.position_info {
            Some(info) => {
                let duration = info.track_duration.as_str();
                if duration.unicode_len() == 0 || str_eq(duration, "NOT_IMPLEMENTED") {
                    let mut r = String::from_str("Position: ");
                    r.append(info.rel_time.as_str());
                    r
                } else {
                    let mut r = info.rel_time.clone();
                    r.append(" / ");
                    r.append(duration);
                    r
                }
            },
            None => String::from_str("Position: --:--"),
        }
    }
}

} // verus!
