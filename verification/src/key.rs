//! The key events the engine interprets.
//!
//! The terminal backend delivers its own key-code type; the frontend maps each
//! incoming event onto this plain enum, so that the mode tables in
//! [`crate::router`] can be verified without reference to any terminal
//! library.  Keys whose payload the engine never inspects (media keys,
//! modifier keys) are collapsed to unit variants.

use vstd::prelude::*;

verus! {

#[derive(Clone, Copy, Debug, PartialEq, Eq, Structural)]
pub enum KeyCode {
    Backspace,
    Enter,
    Left,
    Right,
    Up,
    Down,
    Home,
    End,
    PageUp,
    PageDown,
    Tab,
    BackTab,
    Delete,
    Insert,
    F(u8),
    Char(char),
    Null,
    Esc,
    CapsLock,
    ScrollLock,
    NumLock,
    PrintScreen,
    Pause,
    Menu,
    KeypadBegin,
    Media,
    Modifier,
}

} // verus!
