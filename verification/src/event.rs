//! Input events: keys, mouse, resize, focus and paste.

use vstd::prelude::*;

verus! {

/// What a handler did with an event.
#[derive(Debug, Clone, Copy, PartialEq, Eq, Structural)]
pub enum EventResult {
    /// The event was processed.
    Handled,
    /// The event was not relevant.
    Ignored,
    /// The event was processed; stop propagation.
    Consumed,
}

/// A key on the keyboard.
#[derive(Clone, Copy, Debug, PartialEq, Eq, Structural)]
pub enum KeyCode {
    Char(char),
    Backspace,
    Enter,
    Left,
    Right,
    Up,
    Down,
    Home,
    End,
    PageUp,
    PageDown,
    Tab,
    BackTab,
    Delete,
    Insert,
    F(u8),
    Esc,
    Null,
}

/// A set of key modifiers, one bit each.
#[derive(Clone, Copy, Debug, PartialEq, Eq, Default, Structural)]
pub struct KeyModifiers {
    pub bits: u8,
}

impl KeyModifiers {
    pub fn shift() -> (m: KeyModifiers)
        ensures
            m.bits == 0x01u8,
    {
        KeyModifiers { bits: 0x01 }
    }

    pub fn control() -> (m: KeyModifiers)
        ensures
            m.bits == 0x02u8,
    {
        KeyModifiers { bits: 0x02 }
    }

    pub fn alt() -> (m: KeyModifiers)
        ensures
            m.bits == 0x04u8,
    {
        KeyModifiers { bits: 0x04 }
    }

    pub fn super_key() -> (m: KeyModifiers)
        ensures
            m.bits == 0x08u8,
    {
        KeyModifiers { bits: 0x08 }
    }

    pub fn hyper() -> (m: KeyModifiers)
        ensures
            m.bits == 0x10u8,
    {
        KeyModifiers { bits: 0x10 }
    }

    pub fn meta() -> (m: KeyModifiers)
        ensures
            m.bits == 0x20u8,
    {
        KeyModifiers { bits: 0x20 }
    }

    /// The empty set.
    pub fn empty() -> (m: KeyModifiers)
        ensures
            m.bits == 0,
    {
        KeyModifiers { bits: 0 }
    }

    /// Whether every bit of `other` is set in `self`.
    pub fn contains(&self, other: KeyModifiers) -> (r: bool)
        ensures
            r == (self.bits & other.bits == other.bits),
    {
        self.bits & other.bits == other.bits
    }

    /// The union of the two sets.
    pub fn union(&self, other: KeyModifiers) -> (m: KeyModifiers)
        ensures
            m.bits == (self.bits | other.bits),
    {
        KeyModifiers { bits: self.bits | other.bits }
    }

    /// Whether no bit is set.
    pub fn is_empty(&self) -> (r: bool)
        ensures
            r == (self.bits == 0),
    {
        self.bits == 0
    }
}

/// A key press with its modifiers.
#[derive(Clone, Copy, Debug, PartialEq, Eq, Structural)]
pub struct KeyEvent {
    pub code: KeyCode,
    pub modifiers: KeyModifiers,
}

impl KeyEvent {
    pub fn new(code: KeyCode, modifiers: KeyModifiers) -> (r: KeyEvent)
        ensures
            r == (KeyEvent { code, modifiers }),
    {
        KeyEvent { code, modifiers }
    }
}

#[derive(Clone, Copy, Debug, PartialEq, Eq, Structural)]
pub enum MouseButton {
    Left,
    Right,
    Middle,
}

#[derive(Clone, Copy, Debug, PartialEq, Eq, Structural)]
pub enum MouseEventKind {
    Down(MouseButton),
    Up(MouseButton),
    Drag(MouseButton),
    Moved,
    ScrollDown,
    ScrollUp,
}

/// A mouse event at a cell position.
#[derive(Clone, Copy, Debug, PartialEq, Eq, Structural)]
pub struct MouseEvent {
    pub kind: MouseEventKind,
    pub x: u16,
    pub y: u16,
    pub modifiers: KeyModifiers,
}

/// One event delivered by the backend.
#[derive(Clone, Debug, PartialEq)]
pub enum Event {
    Key(KeyEvent),
    Mouse(MouseEvent),
    Resize(u16, u16),
    FocusGained,
    FocusLost,
    Paste(String),
}

} // verus!
