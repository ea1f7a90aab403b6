//! Key-combination descriptors.
//!
//! A hotkey is identified, before registration, by a set of modifier keys
//! plus one physical key code.  Modifiers are a bit mask; key codes are
//! opaque tokens whose meaning the host binds to physical keys.

use vstd::prelude::*;

verus! {

/// Modifier bit: the Alt (Option) key.
pub const MOD_ALT: u32 = 1;

/// Modifier bit: the Control key.
pub const MOD_CONTROL: u32 = 2;

/// Modifier bit: the Shift key.
pub const MOD_SHIFT: u32 = 4;

/// Modifier bit: the Super (Command / Windows) key.
pub const MOD_SUPER: u32 = 8;

/// Key-code token for the physical key A.
pub const KEY_A: u32 = 97;

/// Key-code token for the physical key O.
pub const KEY_O: u32 = 111;

/// Key-code token for the physical key P.
pub const KEY_P: u32 = 112;

/// An immutable value identifying a key combination: a set of modifier
/// keys (a bit mask over the `MOD_*` constants) plus one physical key
/// code.  Equality is structural.
#[derive(Clone, Copy, PartialEq, Eq, Structural, Debug)]
pub struct HotkeyDescriptor {
    /// Bit mask of modifier keys.
    pub modifiers: u32,
    /// Token naming the physical key.
    pub key_code: u32,
}

impl HotkeyDescriptor {
    /// Builds the descriptor for the given modifier mask and key code.
    pub fn new(modifiers: u32, key_code: u32) -> (d: HotkeyDescriptor)
        ensures
            d == (HotkeyDescriptor { modifiers, key_code }),
    {
        HotkeyDescriptor { modifiers, key_code }
    }
}

} // verus!
