//! Input events as the editor sees them.

use vstd::prelude::*;

verus! {

/// The key that an event carries.
///
/// Only the keys that some screen reacts to have a variant of their own; every
/// other key is [`KeyCode::Other`] and is ignored by all screens.
#[derive(Clone, Copy, Debug, PartialEq, Eq, Structural)]
pub enum KeyCode {
    Enter,
    Backspace,
    Esc,
    Tab,
    Char(char),
    Other,
}

/// Whether a key went down, is held, or came up.
#[derive(Clone, Copy, Debug, PartialEq, Eq, Structural)]
pub enum KeyEventKind {
    Press,
    Repeat,
    Release,
}

/// One keyboard event.
#[derive(Clone, Copy, Debug, PartialEq, Eq, Structural)]
pub struct KeyEvent {
    pub code: KeyCode,
    pub kind: KeyEventKind,
}

/// One event from the terminal.
#[derive(Clone, Copy, Debug, PartialEq, Eq, Structural)]
pub enum InputEvent {
    /// A keyboard event.
    Key(KeyEvent),
    /// Anything else: a resize, the mouse, focus, pasted text.
    Other,
}

impl KeyEvent {
    /// A press of `code`.
    pub fn press(code: KeyCode) -> (event: KeyEvent)
        ensures
            event == (KeyEvent { code, kind: KeyEventKind::Press }),
    {
        KeyEvent { code, kind: KeyEventKind::Press }
    }

    /// True for a press, false for a repeat or a release.
    pub fn is_press(&self) -> (pressed: bool)
        ensures
            pressed == (self.kind == KeyEventKind::Press),
    {
        match self.kind {
            KeyEventKind::Press => true,
            _ => false,
        }
    }
}

} // verus!
