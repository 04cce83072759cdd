//! The input vocabulary: the closed set of abstract input subjects that
//! actions can target.

use vstd::prelude::*;

verus! {

/// A symbolic keyboard key, independent of any platform key-code table.
#[derive(Debug, Clone, Copy, PartialEq, Eq, Hash, Structural)]
pub enum Key {
    Alt,
    Shift,
    Control,
    F1,
    F2,
    F3,
    F4,
    F5,
    F6,
    F7,
    F8,
    F9,
    F10,
    F11,
    F12,
    CapsLock,
    End,
    Home,
    PageUp,
    PageDown,
    Escape,
    Enter,
    Space,
    Tab,
    Backspace,
    Delete,
    UpArrow,
    DownArrow,
    LeftArrow,
    RightArrow,
}

/// A mouse button.
#[derive(Debug, Clone, Copy, PartialEq, Eq, Hash, Structural)]
pub enum MouseButton {
    Left,
    Middle,
    Right,
    /// Also known as the forward button.
    X1,
    /// Also known as the backward button.
    X2,
}

/// The absolute pointer position subject.
#[derive(Debug, Clone, Copy, PartialEq, Eq, Hash, Structural)]
pub struct MousePosition;

/// The scroll-wheel subject.
#[derive(Debug, Clone, Copy, PartialEq, Eq, Hash, Structural)]
pub struct MouseScroll;

} // verus!
