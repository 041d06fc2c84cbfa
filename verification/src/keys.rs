//! Key presses as the notebook reads them.

use vstd::prelude::*;

verus! {

/// Which key was pressed.
#[derive(Clone, Copy, Debug, PartialEq, Eq)]
pub enum KeyCode {
    Char(char),
    F(u8),
    Backspace,
    Enter,
    Left,
    Right,
    Up,
    Down,
    Tab,
    Delete,
    Home,
    End,
    PageUp,
    PageDown,
    Esc,
    /// Any key the notebook has no use for.
    Null,
}

/// One key press together with the modifier keys held down with it.
#[derive(Clone, Copy, Debug, PartialEq, Eq)]
pub struct KeyInput {
    pub code: KeyCode,
    pub ctrl: bool,
    pub alt: bool,
    pub shift: bool,
}

impl KeyInput {
    /// A key pressed with no modifier held.
    pub fn plain(code: KeyCode) -> (key: KeyInput)
        ensures
            key == (KeyInput { code, ctrl: false, alt: false, shift: false }),
    {
        KeyInput { code, ctrl: false, alt: false, shift: false }
    }

    /// A key pressed while Ctrl is held.
    pub fn with_ctrl(code: KeyCode) -> (key: KeyInput)
        ensures
            key == (KeyInput { code, ctrl: true, alt: false, shift: false }),
    {
        KeyInput { code, ctrl: true, alt: false, shift: false }
    }
}

} // verus!
