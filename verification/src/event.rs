//! Terminal input as the manager reads it.
use vstd::prelude::*;

verus! {

/// A key of the keyboard, as far as the manager tells keys apart.
#[derive(Debug, Clone, Copy, PartialEq, Eq, Structural)]
pub enum KeyCode {
    Up,
    Down,
    PageUp,
    PageDown,
    Home,
    End,
    Tab,
    BackTab,
    Enter,
    Char(char),
    /// Any other key.
    Other,
}

/// The modifier keys held with a key press.
#[derive(Debug, Clone, Copy, PartialEq, Eq, Structural)]
pub struct KeyModifiers {
    pub control: bool,
}

/// An input event.
#[derive(Debug, Clone, Copy, PartialEq, Eq, Structural)]
pub enum Event {
    Key(KeyCode, KeyModifiers),
    /// Left mouse button click at (column, row).
    Mouse(u16, u16),
    /// Mouse wheel up at (column, row).
    ScrollUp(u16, u16),
    /// Mouse wheel down at (column, row).
    ScrollDown(u16, u16),
    Tick,
}

} // verus!
