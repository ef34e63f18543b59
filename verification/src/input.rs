//! Plain models of the input events the terminal driver produces: key
//! presses with an optional Control modifier, mouse events, and the
//! lifecycle events of the interaction loop.

use vstd::prelude::*;

verus! {

/// The keys the application distinguishes. Anything else maps to `Other`.
#[derive(Clone, Copy, Debug, PartialEq, Eq, Structural)]
pub enum KeyCode {
    Char(char),
    F(u8),
    Enter,
    Tab,
    Backspace,
    Delete,
    Esc,
    Home,
    End,
    PageUp,
    PageDown,
    Up,
    Down,
    Other,
}

/// A key press: the key and whether Control was held.
#[derive(Clone, Copy, Debug, PartialEq, Eq, Structural)]
pub struct KeyEvent {
    pub code: KeyCode,
    pub ctrl: bool,
}

impl KeyEvent {
    pub fn new(code: KeyCode, ctrl: bool) -> (r: KeyEvent)
        ensures
            r == (KeyEvent { code, ctrl }),
    {
        KeyEvent { code, ctrl }
    }
}

#[derive(Clone, Copy, Debug, PartialEq, Eq, Structural)]
pub enum MouseButton {
    Left,
    Right,
    Middle,
}

/// The mouse event kinds the application reacts to. Anything else maps to
/// `Other`.
#[derive(Clone, Copy, Debug, PartialEq, Eq, Structural)]
pub enum MouseKind {
    Up(MouseButton),
    ScrollUp,
    ScrollDown,
    Other,
}

/// A mouse event at a screen cell.
#[derive(Clone, Copy, Debug, PartialEq, Eq, Structural)]
pub struct MouseEvent {
    pub kind: MouseKind,
    pub column: u16,
    pub row: u16,
}

impl MouseEvent {
    pub fn new(kind: MouseKind, column: u16, row: u16) -> (r: MouseEvent)
        ensures
            r == (MouseEvent { kind, column, row }),
    {
        MouseEvent { kind, column, row }
    }
}

/// An event of the interaction loop.
#[derive(Debug)]
pub enum Event {
    Init,
    TemplateSelect(String),
    Error,
    Tick,
    Render,
    FocusGained,
    FocusLost,
    Key(KeyEvent),
    Mouse(MouseEvent),
    Resize(u16, u16),
}

} // verus!
