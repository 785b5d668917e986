//! Interactive control: what a key does.

use vstd::prelude::*;

verus! {

/// A key of the keyboard, as far as the control point tells keys apart.
#[derive(Debug, Clone, Copy, PartialEq, Eq, Structural)]
pub enum Key {
    /// A key that writes a character
    Char(char),
    /// The escape key
    Esc,
    /// The enter key
    Enter,
    /// The arrow up
    Up,
    /// The arrow down
    Down,
    /// A function key, by its number
    F(u8),
    /// Any other key
    Other,
}

/// What interactive control does on a key.
#[derive(Debug, Clone, Copy, PartialEq, Eq, Structural)]
pub enum KeyAction {
    /// Toggle between playing and pausing
    TogglePlayPause,
    /// Leave interactive control
    Quit,
    /// Show the keys
    ShowHelp,
    /// Nothing
    Nothing,
}

/// What a key does: space and `p` toggle, `q` and escape quit, `h` and `?`
/// show the help; letters count in either case. Only a key that is pressed
/// does anything, not one that is released.
pub open spec fn action_of(key: Key, pressed: bool) -> KeyAction {
    if !pressed {
        KeyAction::Nothing
    } else {
        match key {
            Key::Char(c) => if c == ' ' || c == 'p' || c == 'P' {
                KeyAction::TogglePlayPause
            } else if c == 'q' || c == 'Q' {
                KeyAction::Quit
            } else if c == 'h' || c == 'H' || c == '?' {
                KeyAction::ShowHelp
            } else {
                KeyAction::Nothing
            },
            Key::Esc => KeyAction::Quit,
            _ => KeyAction::Nothing,
        }
    }
}

/// Says what a key does.
pub fn handle_key_event(key: Key, pressed: bool) -> (r: KeyAction)
    ensures
        r == action_of(key, pressed),
{
    if !pressed {
        return KeyAction::Nothing;
    }
    match key {
        Key::Char(c) => {
            if c == ' ' || c == 'p' || c == 'P' {
                KeyAction::TogglePlayPause
            } else if c == 'q' || c == 'Q' {
                KeyAction::Quit
            } else if c == 'h' || c == 'H' || c == '?' {
                KeyAction::ShowHelp
            } else {
                KeyAction::Nothing
            }
        },
        Key::Esc => KeyAction::Quit,
        _ => KeyAction::Nothing,
    }
}

/// Whether interactive control goes on after an action: it ends on quit.
pub fn continues_after(action: KeyAction) -> (r: bool)
    ensures
        r == (action != KeyAction::Quit),
{
    match action {
        KeyAction::Quit => false,
        _ => true,
    }
}

/// The lines of the help.
pub fn help_lines() -> (r: Vec<&'static str>)
    ensures
        r.len() == 5,
        r[0]@ == "=== Keyboard Controls ==="@,
        r[1]@ == "SPACE / P  : Toggle play/pause"@,
        r[2]@ == "Q / ESC    : Quit"@,
        r[3]@ == "H / ?      : Show this help"@,
        r[4]@ == "========================"@,
{
    let mut r: Vec<&'static str> = Vec::new();
    r.push("=== Keyboard Controls ===");
    r.push("SPACE / P  : Toggle play/pause");
    r.push("Q / ESC    : Quit");
    r.push("H / ?      : Show this help");
    r.push("========================");
    r
}

} // verus!
