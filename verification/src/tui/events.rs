//! What the keys of the dashboard do.
//!
//! A key changes the state at once. Where it also asks something of the
//! renderer, the caller does so and reports how it went.

use crate::error::Error;
use crate::keyboard::Key;
use crate::tui::app::{item_after, item_before, AppState, AppStateView};
use vstd::prelude::*;
use vstd::string::*;

verus! {

/// What a key asks of the renderer.
#[derive(Debug, Clone, Copy, PartialEq, Eq, Structural)]
pub enum Request {
    /// Nothing
    Nothing,
    /// Toggle between playing and pausing
    TogglePlayPause,
    /// Stop playback
    Stop,
    /// Read transport and position anew
    Refresh,
}

/// What a key is within the dashboard.
#[derive(Debug, Clone, Copy, PartialEq, Eq, Structural)]
pub enum KeyRole {
    Quit,
    Help,
    DeviceInfo,
    Confirm,
    Select,
    Up,
    Down,
    TogglePlayPause,
    Stop,
    Refresh,
    Unused,
}

/// The role of a key: `q` and escape quit; `h` and F1 toggle the help; `d`
/// toggles the device info; enter selects; space confirms in a dialog and
/// toggles playback outside one, as `p` does; `k` and `j` move as the
/// arrows do; `s` stops; `r` refreshes.
pub open spec fn role_of(key: Key) -> KeyRole {
    match key {
        Key::Esc => KeyRole::Quit,
        Key::F(n) => if n == 1 {
            KeyRole::Help
        } else {
            KeyRole::Unused
        },
        Key::Enter => KeyRole::Select,
        Key::Up => KeyRole::Up,
        Key::Down => KeyRole::Down,
        Key::Char(c) => if c == 'q' {
            KeyRole::Quit
        } else if c == 'h' {
            KeyRole::Help
        } else if c == 'd' {
            KeyRole::DeviceInfo
        } else if c == ' ' {
            KeyRole::Confirm
        } else if c == 'k' {
            KeyRole::Up
        } else if c == 'j' {
            KeyRole::Down
        } else if c == 'p' {
            KeyRole::TogglePlayPause
        } else if c == 's' {
            KeyRole::Stop
        } else if c == 'r' {
            KeyRole::Refresh
        } else {
            KeyRole::Unused
        },
        Key::Other => KeyRole::Unused,
    }
}

/// Tells the role of a key.
pub fn key_role(key: Key) -> (r: KeyRole)
    ensures
        r == role_of(key),
{
    match key {
        Key::Esc => KeyRole::Quit,
        Key::F(n) => {
            if n == 1 {
                KeyRole::Help
            } else {
                KeyRole::Unused
            }
        },
        Key::Enter => KeyRole::Select,
        Key::Up => KeyRole::Up,
        Key::Down => KeyRole::Down,
        Key::Char(c) => {
            if c == 'q' {
                KeyRole::Quit
            } else if c == 'h' {
                KeyRole::Help
            } else if c == 'd' {
                KeyRole::DeviceInfo
            } else if c == ' ' {
                KeyRole::Confirm
            } else if c == 'k' {
                KeyRole::Up
            } else if c == 'j' {
                KeyRole::Down
            } else if c == 'p' {
                KeyRole::TogglePlayPause
            } else if c == 's' {
                KeyRole::Stop
            } else if c == 'r' {
                KeyRole::Refresh
            } else {
                KeyRole::Unused
            }
        },
        Key::Other => KeyRole::Unused,
    }
}

/// Whether a dialog is open.
pub open spec fn in_dialog(s: AppStateView) -> bool {
    s.show_help || s.show_device_info
}

/// What a key asks of the renderer in a state: nothing in a dialog, and
/// nothing but for the keys that toggle, stop and refresh.
pub open spec fn request_of(s: AppStateView, key: Key) -> Request {
    match role_of(key) {
        KeyRole::Quit | KeyRole::Help | KeyRole::DeviceInfo => Request::Nothing,
        role => if in_dialog(s) {
            Request::Nothing
        } else {
            match role {
                KeyRole::Confirm | KeyRole::TogglePlayPause => Request::TogglePlayPause,
                KeyRole::Stop => Request::Stop,
                KeyRole::Refresh => Request::Refresh,
                _ => Request::Nothing,
            }
        },
    }
}

/// The state after a key. The keys that quit and that toggle a dialog work
/// everywhere. In a dialog, enter and space close it and every other key
/// does nothing. Outside, the arrows move the selection, enter makes the
/// selected file the current one, and the keys that ask something of the
/// renderer say so in the status line.
pub open spec fn after_key(s: AppStateView, key: Key) -> AppStateView {
    match role_of(key) {
        KeyRole::Quit => AppStateView { should_quit: true, ..s },
        KeyRole::Help => AppStateView { show_help: !s.show_help, ..s },
        KeyRole::DeviceInfo => AppStateView { show_device_info: !s.show_device_info, ..s },
        role => if in_dialog(s) {
            match role {
                KeyRole::Select | KeyRole::Confirm => AppStateView {
                    show_help: false,
                    show_device_info: false,
                    ..s
                },
                _ => s,
            }
        } else {
            match role {
                KeyRole::Up => AppStateView {
                    selected_playlist_item: item_before(
                        s.selected_playlist_item,
                        s.playlist.files.len(),
                    ),
                    ..s
                },
                KeyRole::Down => AppStateView {
                    selected_playlist_item: item_after(
                        s.selected_playlist_item,
                        s.playlist.files.len(),
                    ),
                    ..s
                },
                KeyRole::Select => if s.selected_playlist_item < s.playlist.files.len() {
                    AppStateView {
                        current_file: Some(s.playlist.files[s.selected_playlist_item as int]),
                        current_file_index: Some(s.selected_playlist_item),
                        status_message: "Playing: "@ + s.playlist.files[s.selected_playlist_item as int],
                        ..s
                    }
                } else {
                    s
                },
                KeyRole::Confirm | KeyRole::TogglePlayPause => AppStateView {
                    status_message: "Toggling play/pause..."@,
                    ..s
                },
                KeyRole::Stop => AppStateView { status_message: "Stopping playback..."@, ..s },
                KeyRole::Refresh => AppStateView { status_message: "Refreshing status..."@, ..s },
                _ => s,
            }
        },
    }
}

/// Handles a key: changes the state and says what to ask of the renderer.
pub fn handle_key_event(state: &mut AppState, key: Key) -> (r: Request)
    ensures
        final(state)@ == after_key(old(state)@, key),
        r == request_of(old(state)@, key),
{
    let role = key_role(key);
    match role {
        KeyRole::Quit => {
            state.quit();
            return Request::Nothing;
        },
        KeyRole::Help => {
            state.toggle_help();
            return Request::Nothing;
        },
        KeyRole::DeviceInfo => {
            state.toggle_device_info();
            return Request::Nothing;
        },
        _ => {},
    }
    if state.show_help || state.show_device_info {
        match role {
            KeyRole::Select | KeyRole::Confirm => {
                state.close_dialogs();
            },
            _ => {},
        }
        return Request::Nothing;
    }
    match role {
        KeyRole::Up => {
            state.previous_playlist_item();
            Request::Nothing
        },
        KeyRole::Down => {
            state.next_playlist_item();
            Request::Nothing
        },
        KeyRole::Select => {
            let selected = match state.get_selected_file() {
                Some(f) => Some(f.clone()),
                None => None,
            };
            match selected {
                Some(file) => {
                    let index = state.selected_playlist_item;
                    let mut message = String::from_str("Playing: ");
                    message.append(file.as_str());
                    state.set_current_file(file, index);
                    state.set_status_message(message);
                },
                None => {},
            }
            Request::Nothing
        },
        KeyRole::Confirm | KeyRole::TogglePlayPause => {
            state.set_status_message(String::from_str("Toggling play/pause..."));
            Request::TogglePlayPause
        },
        KeyRole::Stop => {
            state.set_status_message(String::from_str("Stopping playback..."));
            Request::Stop
        },
        KeyRole::Refresh => {
            state.set_status_message(String::from_str("Refreshing status..."));
            Request::Refresh
        },
        _ => Request::Nothing,
    }
}

/// The state after a request was carried out. A toggle or a stop that
/// failed becomes the error; a stop that succeeded clears the current file.
pub open spec fn after_request(s: AppStateView, request: Request, failure: Option<Error>) -> AppStateView {
    match request {
        Request::Nothing => s,
        Request::TogglePlayPause => match failure {
            None => AppStateView { status_message: "Play/pause toggled"@, ..s },
            Some(e) => AppStateView {
                error_message: Some("Failed to toggle play/pause: "@ + e.message()),
                ..s
            },
        },
        Request::Stop => match failure {
            None => AppStateView {
                status_message: "Playback stopped"@,
                current_file: None,
                current_file_index: None,
                ..s
            },
            Some(e) => AppStateView {
                error_message: Some("Failed to stop playback: "@ + e.message()),
                ..s
            },
        },
        Request::Refresh => AppStateView { status_message: "Status refreshed"@, ..s },
    }
}

/// Takes in how a request ended.
pub fn request_done(state: &mut AppState, request: Request, outcome: Result<(), Error>)
    ensures
        final(state)@ == after_request(
            old(state)@,
            request,
            match outcome {
                Ok(_) => None,
                Err(e) => Some(e),
            },
        ),
{
    match request {
        Request::Nothing => {},
        Request::TogglePlayPause => match outcome {
            Ok(_) => {
                state.set_status_message(String::from_str("Play/pause toggled"));
            },
            Err(e) => {
                let mut message = String::from_str("Failed to toggle play/pause: ");
                message.append(e.to_string().as_str());
                state.set_error_message(Some(message));
            },
        },
        Request::Stop => match outcome {
            Ok(_) => {
                state.set_status_message(String::from_str("Playback stopped"));
                state.clear_current_file();
            },
            Err(e) => {
                let mut message = String::from_str("Failed to stop playback: ");
                message.append(e.to_string().as_str());
                state.set_error_message(Some(message));
            },
        },
        Request::Refresh => {
            state.set_status_message(String::from_str("Status refreshed"));
        },
    }
}

} // verus!
