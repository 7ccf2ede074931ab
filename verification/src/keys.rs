//! Decoding raw terminal key codes into the closed set of logical inputs the
//! interaction state machine consumes. The state machine itself never sees a
//! raw key code.

use vstd::prelude::*;

verus! {

/// One logical input event, decoded from a raw key code at the input
/// boundary. `Other` stands for any event no handler consumes; it still
/// counts as a key press (the notification line is cleared on it).
#[derive(Copy, Clone, PartialEq, Eq, Structural, Debug)]
pub enum KeyInput {
    /// A printable character, `' '` through `'~'`.
    Char(char),
    Enter,
    Escape,
    Backspace,
    Left,
    Right,
    Tab,
    Other,
}

/// The logical input a raw key code stands for: newline is Enter, 27 is
/// Escape, 9 is Tab, backspace arrives as 8, 127 or the terminal's dedicated
/// code 263, the arrow keys as 260 and 261, and the printable range 32..=126
/// as itself.
pub open spec fn decode_key_spec(key: i32) -> KeyInput {
    if key == 10 {
        KeyInput::Enter
    } else if key == 27 {
        KeyInput::Escape
    } else if key == 9 {
        KeyInput::Tab
    } else if key == 8 || key == 127 || key == 263 {
        KeyInput::Backspace
    } else if key == 260 {
        KeyInput::Left
    } else if key == 261 {
        KeyInput::Right
    } else if 32 <= key && key <= 126 {
        KeyInput::Char((key as u8) as char)
    } else {
        KeyInput::Other
    }
}

/// Decode one raw key code.
pub fn decode_key(key: i32) -> (r: KeyInput)
    ensures
        r == decode_key_spec(key),
{
    if key == 10 {
        KeyInput::Enter
    } else if key == 27 {
        KeyInput::Escape
    } else if key == 9 {
        KeyInput::Tab
    } else if key == 8 || key == 127 || key == 263 {
        KeyInput::Backspace
    } else if key == 260 {
        KeyInput::Left
    } else if key == 261 {
        KeyInput::Right
    } else if 32 <= key && key <= 126 {
        KeyInput::Char((key as u8) as char)
    } else {
        KeyInput::Other
    }
}

} // verus!
