//! The Windows virtual-key table.
//!
//! Every [`VirtualKey`] maps to exactly one platform key code, the mapping
//! is stable, and distinct keys map to distinct codes, so the code can be
//! mapped back to the key. The table is a compatibility-sensitive lookup,
//! not business logic: the values are the documented Windows virtual-key
//! constants.

use vstd::prelude::*;

verus! {

/// A key as the Windows key table names it.
#[derive(Debug, Clone, Copy, PartialEq, Eq, Hash, Structural)]
pub enum VirtualKey {
    Alt,
    Shift,
    Control,
    F1,
    F2,
    F3,
    F4,
    F5,
    F6,
    F7,
    F8,
    F9,
    F10,
    F11,
    F12,
    CapsLock,
    End,
    Home,
    PageUp,
    PageDown,
    Escape,
    Enter,
    Space,
    Tab,
    Backspace,
    Delete,
    UpArrow,
    DownArrow,
    LeftArrow,
    RightArrow,
    LeftShift,
    RightShift,
    LeftControl,
    RightControl,
    LeftAlt,
    RightAlt,
    Insert,
    PrintScreen,
    NumLock,
    ScrollLock,
}

/// The platform code of a key.
pub open spec fn spec_virtual_key_code(key: VirtualKey) -> u16 {
    match key {
        VirtualKey::Alt => 0x12,
        VirtualKey::Shift => 0x10,
        VirtualKey::Control => 0x11,
        VirtualKey::F1 => 0x70,
        VirtualKey::F2 => 0x71,
        VirtualKey::F3 => 0x72,
        VirtualKey::F4 => 0x73,
        VirtualKey::F5 => 0x74,
        VirtualKey::F6 => 0x75,
        VirtualKey::F7 => 0x76,
        VirtualKey::F8 => 0x77,
        VirtualKey::F9 => 0x78,
        VirtualKey::F10 => 0x79,
        VirtualKey::F11 => 0x7A,
        VirtualKey::F12 => 0x7B,
        VirtualKey::CapsLock => 0x14,
        VirtualKey::End => 0x23,
        VirtualKey::Home => 0x24,
        VirtualKey::PageUp => 0x21,
        VirtualKey::PageDown => 0x22,
        VirtualKey::Escape => 0x1B,
        VirtualKey::Enter => 0x0D,
        VirtualKey::Space => 0x20,
        VirtualKey::Tab => 0x09,
        VirtualKey::Backspace => 0x08,
        VirtualKey::Delete => 0x2E,
        VirtualKey::UpArrow => 0x26,
        VirtualKey::DownArrow => 0x28,
        VirtualKey::LeftArrow => 0x25,
        VirtualKey::RightArrow => 0x27,
        VirtualKey::LeftShift => 0xA0,
        VirtualKey::RightShift => 0xA1,
        VirtualKey::LeftControl => 0xA2,
        VirtualKey::RightControl => 0xA3,
        VirtualKey::LeftAlt => 0xA4,
        VirtualKey::RightAlt => 0xA5,
        VirtualKey::Insert => 0x2D,
        VirtualKey::PrintScreen => 0x2C,
        VirtualKey::NumLock => 0x90,
        VirtualKey::ScrollLock => 0x91,
    }
}

/// The key a platform code names, if it is in the table.
pub open spec fn spec_virtual_key_from_code(code: u16) -> Option<VirtualKey> {
    match code {
        0x12 => Option::Some(VirtualKey::Alt),
        0x10 => Option::Some(VirtualKey::Shift),
        0x11 => Option::Some(VirtualKey::Control),
        0x70 => Option::Some(VirtualKey::F1),
        0x71 => Option::Some(VirtualKey::F2),
        0x72 => Option::Some(VirtualKey::F3),
        0x73 => Option::Some(VirtualKey::F4),
        0x74 => Option::Some(VirtualKey::F5),
        0x75 => Option::Some(VirtualKey::F6),
        0x76 => Option::Some(VirtualKey::F7),
        0x77 => Option::Some(VirtualKey::F8),
        0x78 => Option::Some(VirtualKey::F9),
        0x79 => Option::Some(VirtualKey::F10),
        0x7A => Option::Some(VirtualKey::F11),
        0x7B => Option::Some(VirtualKey::F12),
        0x14 => Option::Some(VirtualKey::CapsLock),
        0x23 => Option::Some(VirtualKey::End),
        0x24 => Option::Some(VirtualKey::Home),
        0x21 => Option::Some(VirtualKey::PageUp),
        0x22 => Option::Some(VirtualKey::PageDown),
        0x1B => Option::Some(VirtualKey::Escape),
        0x0D => Option::Some(VirtualKey::Enter),
        0x20 => Option::Some(VirtualKey::Space),
        0x09 => Option::Some(VirtualKey::Tab),
        0x08 => Option::Some(VirtualKey::Backspace),
        0x2E => Option::Some(VirtualKey::Delete),
        0x26 => Option::Some(VirtualKey::UpArrow),
        0x28 => Option::Some(VirtualKey::DownArrow),
        0x25 => Option::Some(VirtualKey::LeftArrow),
        0x27 => Option::Some(VirtualKey::RightArrow),
        0xA0 => Option::Some(VirtualKey::LeftShift),
        0xA1 => Option::Some(VirtualKey::RightShift),
        0xA2 => Option::Some(VirtualKey::LeftControl),
        0xA3 => Option::Some(VirtualKey::RightControl),
        0xA4 => Option::Some(VirtualKey::LeftAlt),
        0xA5 => Option::Some(VirtualKey::RightAlt),
        0x2D => Option::Some(VirtualKey::Insert),
        0x2C => Option::Some(VirtualKey::PrintScreen),
        0x90 => Option::Some(VirtualKey::NumLock),
        0x91 => Option::Some(VirtualKey::ScrollLock),
        _ => Option::None,
    }
}

impl VirtualKey {
    /// The platform code of this key.
    #[verifier::when_used_as_spec(spec_code_method)]
    pub fn code(&self) -> (r: u16)
        ensures
            r == spec_virtual_key_code(*self),
    {
        match self {
            VirtualKey::Alt => 0x12,
            VirtualKey::Shift => 0x10,
            VirtualKey::Control => 0x11,
            VirtualKey::F1 => 0x70,
            VirtualKey::F2 => 0x71,
            VirtualKey::F3 => 0x72,
            VirtualKey::F4 => 0x73,
            VirtualKey::F5 => 0x74,
            VirtualKey::F6 => 0x75,
            VirtualKey::F7 => 0x76,
            VirtualKey::F8 => 0x77,
            VirtualKey::F9 => 0x78,
            VirtualKey::F10 => 0x79,
            VirtualKey::F11 => 0x7A,
            VirtualKey::F12 => 0x7B,
            VirtualKey::CapsLock => 0x14,
            VirtualKey::End => 0x23,
            VirtualKey::Home => 0x24,
            VirtualKey::PageUp => 0x21,
            VirtualKey::PageDown => 0x22,
            VirtualKey::Escape => 0x1B,
            VirtualKey::Enter => 0x0D,
            VirtualKey::Space => 0x20,
            VirtualKey::Tab => 0x09,
            VirtualKey::Backspace => 0x08,
            VirtualKey::Delete => 0x2E,
            VirtualKey::UpArrow => 0x26,
            VirtualKey::DownArrow => 0x28,
            VirtualKey::LeftArrow => 0x25,
            VirtualKey::RightArrow => 0x27,
            VirtualKey::LeftShift => 0xA0,
            VirtualKey::RightShift => 0xA1,
            VirtualKey::LeftControl => 0xA2,
            VirtualKey::RightControl => 0xA3,
            VirtualKey::LeftAlt => 0xA4,
            VirtualKey::RightAlt => 0xA5,
            VirtualKey::Insert => 0x2D,
            VirtualKey::PrintScreen => 0x2C,
            VirtualKey::NumLock => 0x90,
            VirtualKey::ScrollLock => 0x91,
        }
    }

    pub open spec fn spec_code_method(&self) -> u16 {
        spec_virtual_key_code(*self)
    }
}

/// Look a platform code up in the table.
pub fn virtual_key_from_code(code: u16) -> (r: Option<VirtualKey>)
    ensures
        r == spec_virtual_key_from_code(code),
{
    match code {
        0x12 => Option::Some(VirtualKey::Alt),
        0x10 => Option::Some(VirtualKey::Shift),
        0x11 => Option::Some(VirtualKey::Control),
        0x70 => Option::Some(VirtualKey::F1),
        0x71 => Option::Some(VirtualKey::F2),
        0x72 => Option::Some(VirtualKey::F3),
        0x73 => Option::Some(VirtualKey::F4),
        0x74 => Option::Some(VirtualKey::F5),
        0x75 => Option::Some(VirtualKey::F6),
        0x76 => Option::Some(VirtualKey::F7),
        0x77 => Option::Some(VirtualKey::F8),
        0x78 => Option::Some(VirtualKey::F9),
        0x79 => Option::Some(VirtualKey::F10),
        0x7A => Option::Some(VirtualKey::F11),
        0x7B => Option::Some(VirtualKey::F12),
        0x14 => Option::Some(VirtualKey::CapsLock),
        0x23 => Option::Some(VirtualKey::End),
        0x24 => Option::Some(VirtualKey::Home),
        0x21 => Option::Some(VirtualKey::PageUp),
        0x22 => Option::Some(VirtualKey::PageDown),
        0x1B => Option::Some(VirtualKey::Escape),
        0x0D => Option::Some(VirtualKey::Enter),
        0x20 => Option::Some(VirtualKey::Space),
        0x09 => Option::Some(VirtualKey::Tab),
        0x08 => Option::Some(VirtualKey::Backspace),
        0x2E => Option::Some(VirtualKey::Delete),
        0x26 => Option::Some(VirtualKey::UpArrow),
        0x28 => Option::Some(VirtualKey::DownArrow),
        0x25 => Option::Some(VirtualKey::LeftArrow),
        0x27 => Option::Some(VirtualKey::RightArrow),
        0xA0 => Option::Some(VirtualKey::LeftShift),
        0xA1 => Option::Some(VirtualKey::RightShift),
        0xA2 => Option::Some(VirtualKey::LeftControl),
        0xA3 => Option::Some(VirtualKey::RightControl),
        0xA4 => Option::Some(VirtualKey::LeftAlt),
        0xA5 => Option::Some(VirtualKey::RightAlt),
        0x2D => Option::Some(VirtualKey::Insert),
        0x2C => Option::Some(VirtualKey::PrintScreen),
        0x90 => Option::Some(VirtualKey::NumLock),
        0x91 => Option::Some(VirtualKey::ScrollLock),
        _ => Option::None,
    }
}

/// The table maps distinct keys to distinct codes: looking a key's own code
/// up yields that key again.
pub proof fn lemma_virtual_key_code_round_trip(key: VirtualKey)
    ensures
        spec_virtual_key_from_code(spec_virtual_key_code(key)) == Option::Some(key),
{
}

} // verus!
