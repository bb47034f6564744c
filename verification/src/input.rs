//! Key presses, as far as the client reads them.

use vstd::prelude::*;

verus! {

/// Which key was pressed.
#[derive(Debug, Clone, Copy, PartialEq, Eq, Structural)]
pub enum KeyCode {
    Backspace,
    Enter,
    Left,
    Right,
    Up,
    Down,
    Home,
    End,
    PageUp,
    PageDown,
    Tab,
    BackTab,
    Delete,
    Insert,
    Esc,
    Char(char),
    /// Any other key.
    Other,
}

/// The modifier keys that are held down.
#[derive(Debug, Clone, Copy, PartialEq, Eq, Structural)]
pub struct KeyModifiers {
    pub shift: bool,
    pub control: bool,
    pub alt: bool,
    pub super_key: bool,
    pub hyper: bool,
    pub meta: bool,
}

/// Whether a key goes down, is held or goes up.
#[derive(Debug, Clone, Copy, PartialEq, Eq, Structural)]
pub enum KeyEventKind {
    Press,
    Repeat,
    Release,
}

/// A key event of the terminal.
#[derive(Debug, Clone, Copy, PartialEq, Eq, Structural)]
pub struct TerminalKey {
    pub code: KeyCode,
    pub modifiers: KeyModifiers,
    pub kind: KeyEventKind,
}

/// Whether no modifier but shift is held down.
pub open spec fn at_most_shift(m: KeyModifiers) -> bool {
    !m.control && !m.alt && !m.super_key && !m.hyper && !m.meta
}

impl KeyModifiers {
    /// No modifier.
    pub fn empty() -> (r: KeyModifiers)
        ensures
            at_most_shift(r),
            !r.shift,
    {
        KeyModifiers {
            shift: false,
            control: false,
            alt: false,
            super_key: false,
            hyper: false,
            meta: false,
        }
    }

    /// The control key alone.
    pub fn control() -> (r: KeyModifiers)
        ensures
            r == (KeyModifiers {
                shift: false,
                control: true,
                alt: false,
                super_key: false,
                hyper: false,
                meta: false,
            }),
    {
        KeyModifiers {
            shift: false,
            control: true,
            alt: false,
            super_key: false,
            hyper: false,
            meta: false,
        }
    }

    /// Whether no modifier but shift is held down.
    pub fn only_shift(&self) -> (r: bool)
        ensures
            r == at_most_shift(*self),
    {
        !self.control && !self.alt && !self.super_key && !self.hyper && !self.meta
    }
}

impl TerminalKey {
    /// The press of a key.
    pub fn new(code: KeyCode, modifiers: KeyModifiers) -> (r: TerminalKey)
        ensures
            r == (TerminalKey { code, modifiers, kind: KeyEventKind::Press }),
    {
        TerminalKey { code, modifiers, kind: KeyEventKind::Press }
    }

    /// Whether the key went down or is held.
    pub fn is_down(&self) -> (r: bool)
        ensures
            r == (self.kind != KeyEventKind::Release),
    {
        match self.kind {
            KeyEventKind::Press => true,
            KeyEventKind::Repeat => true,
            KeyEventKind::Release => false,
        }
    }
}

} // verus!
