//! Key presses as the screens see them.

use vstd::prelude::*;

verus! {

/// The key of a key event.
#[derive(Clone, Copy, PartialEq, Eq, Structural)]
pub enum KeyCode {
    Up,
    Down,
    Left,
    Right,
    Enter,
    Esc,
    Backspace,
    Home,
    End,
    Char(char),
    /// Any other key.
    Other,
}

/// A key event: its key, whether Control was held, and whether it is a press
/// (rather than a release or a repeat).
#[derive(Clone, Copy, PartialEq, Eq, Structural)]
pub struct KeyEvent {
    pub code: KeyCode,
    pub ctrl: bool,
    pub press: bool,
}

/// Control-C.
pub open spec fn is_ctrl_c(k: KeyEvent) -> bool {
    k.code == KeyCode::Char('c') && k.ctrl
}

impl KeyEvent {
    /// Whether the event is Control-C.
    pub fn ctrl_c(&self) -> (r: bool)
        ensures
            r == is_ctrl_c(*self),
    {
        self.ctrl && match self.code {
            KeyCode::Char(c) => c == 'c',
            _ => false,
        }
    }
}

} // verus!
