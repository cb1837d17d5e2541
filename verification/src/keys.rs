//! The engine's own picture of a key press.  The terminal layer translates
//! its native input events into this form before dispatching.

use vstd::prelude::*;

verus! {

#[derive(Clone, Copy, Debug, PartialEq, Eq)]
pub enum KeyCode {
    Backspace,
    Enter,
    Esc,
    Tab,
    Char(char),
    Other,
}

/// Only the control modifier changes what the engine does; every other
/// combination is kept apart from the empty one.
#[derive(Clone, Copy, Debug, PartialEq, Eq)]
pub enum KeyModifiers {
    Empty,
    Control,
    Other,
}

#[derive(Clone, Copy, Debug, PartialEq, Eq)]
pub struct KeyEvent {
    pub code: KeyCode,
    pub modifiers: KeyModifiers,
}

impl KeyEvent {
    pub fn new(code: KeyCode, modifiers: KeyModifiers) -> (ev: Self)
        ensures
            ev.code == code,
            ev.modifiers == modifiers,
    {
        Self { code, modifiers }
    }
}

} // verus!
