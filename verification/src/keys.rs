//! Key presses as the engine sees them.

use vstd::prelude::*;

verus! {

/// The key that was pressed. Keys that the engine gives no meaning to are
/// `Other`.
#[derive(Clone, Copy, Debug, PartialEq, Eq, Structural)]
pub enum KeyCode {
    Backspace,
    Enter,
    Up,
    Down,
    Tab,
    Delete,
    Esc,
    Char(char),
    Other,
}

/// The modifier keys held down with a key. `other` stands for any modifier
/// besides shift, control and alt.
#[derive(Clone, Copy, Debug, PartialEq, Eq, Structural)]
pub struct KeyModifiers {
    pub shift: bool,
    pub control: bool,
    pub alt: bool,
    pub other: bool,
}

impl KeyModifiers {
    /// Control is held, and nothing else.
    pub open spec fn only_control(self) -> bool {
        self.control && !self.shift && !self.alt && !self.other
    }

    /// No modifier.
    pub fn none() -> (m: KeyModifiers)
        ensures
            m == (KeyModifiers { shift: false, control: false, alt: false, other: false }),
    {
        KeyModifiers { shift: false, control: false, alt: false, other: false }
    }

    /// Control alone.
    pub fn control() -> (m: KeyModifiers)
        ensures
            m == (KeyModifiers { shift: false, control: true, alt: false, other: false }),
            m.only_control(),
    {
        KeyModifiers { shift: false, control: true, alt: false, other: false }
    }

    /// Whether control is held and nothing else.
    pub fn is_only_control(&self) -> (b: bool)
        ensures
            b == self.only_control(),
    {
        self.control && !self.shift && !self.alt && !self.other
    }
}

/// One key press.
#[derive(Clone, Copy, Debug, PartialEq, Eq, Structural)]
pub struct KeyEvent {
    pub code: KeyCode,
    pub modifiers: KeyModifiers,
}

impl KeyEvent {
    /// The key `code` pressed with `modifiers`.
    pub fn new(code: KeyCode, modifiers: KeyModifiers) -> (k: KeyEvent)
        ensures
            k == (KeyEvent { code, modifiers }),
    {
        KeyEvent { code, modifiers }
    }

    /// The key `code` pressed alone.
    pub fn plain(code: KeyCode) -> (k: KeyEvent)
        ensures
            k.code == code,
            !k.modifiers.shift,
            !k.modifiers.control,
            !k.modifiers.alt,
            !k.modifiers.other,
    {
        KeyEvent { code, modifiers: KeyModifiers::none() }
    }

    /// The request to save: control and `s`.
    pub open spec fn asks_to_save(self) -> bool {
        self.code == KeyCode::Char('s') && self.modifiers.only_control()
    }

    /// Whether this is control and `s`.
    pub fn is_save_request(&self) -> (b: bool)
        ensures
            b == self.asks_to_save(),
    {
        match self.code {
            KeyCode::Char(c) => c == 's' && self.modifiers.is_only_control(),
            _ => false,
        }
    }
}

/// What the terminal reports: a key press, or something the engine ignores
/// (the mouse, a resize, a change of focus, pasted text).
#[derive(Clone, Copy, Debug, PartialEq, Eq, Structural)]
pub enum TerminalEvent {
    Key(KeyEvent),
    Other,
}

} // verus!
