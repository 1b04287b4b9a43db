//! Key symbols and the modifier bitmask of the ibus protocol.
//!
//! Key events arrive as an X11 key symbol together with a 32-bit modifier
//! mask (`ibus/src/ibustypes.h`). Only a handful of bits matter to the key
//! state machine: the shift and "special" modifier bits decide whether a
//! letter starts a composition, and the release bit tells key-up from
//! key-down.
use vstd::prelude::*;

verus! {

// X11 key symbol values (`IBUS_KEY_*` constants equal the `XK_*` values).
pub const KEY_A_LOWER: u32 = 0x61;

pub const KEY_Z_LOWER: u32 = 0x7a;

pub const KEY_A_UPPER: u32 = 0x41;

pub const KEY_Z_UPPER: u32 = 0x5a;

pub const KEY_0: u32 = 0x30;

pub const KEY_9: u32 = 0x39;

pub const KEY_SPACE: u32 = 0x20;

pub const KEY_RETURN: u32 = 0xff0d;

pub const KEY_ESCAPE: u32 = 0xff1b;

pub const KEY_BACKSPACE: u32 = 0xff08;

pub const KEY_DELETE: u32 = 0xffff;

pub const KEY_LEFT: u32 = 0xff51;

pub const KEY_UP: u32 = 0xff52;

pub const KEY_RIGHT: u32 = 0xff53;

pub const KEY_DOWN: u32 = 0xff54;

// Modifier bits of the ibus modifier mask.
pub const MASK_SHIFT: u32 = 0x1;

pub const MASK_CONTROL: u32 = 0x4;

pub const MASK_MOD1: u32 = 0x8;

pub const MASK_MOD4: u32 = 0x40;

pub const MASK_SUPER: u32 = 0x4000000;

pub const MASK_HYPER: u32 = 0x8000000;

pub const MASK_META: u32 = 0x10000000;

pub const MASK_RELEASE: u32 = 0x40000000;

/// The ibus modifier state: a raw 32-bit mask.
#[derive(Debug, Clone, Copy, PartialEq, Eq, Structural)]
pub struct IBusModifierState {
    pub raw: u32,
}

/// Whether `mask` has any of the modifier bits set which indicate that the
/// keypress is a keybinding rather than typed text: control, mod1 (alt),
/// mod4, super, hyper or meta.
pub open spec fn spec_has_special_modifiers(mask: u32) -> bool {
    mask & (MASK_CONTROL | MASK_MOD1 | MASK_MOD4 | MASK_SUPER | MASK_HYPER | MASK_META) != 0
}

/// Whether `mask` has the shift bit set.
pub open spec fn spec_shift(mask: u32) -> bool {
    mask & MASK_SHIFT != 0
}

/// Whether `mask` describes a key release.
pub open spec fn spec_is_keyup(mask: u32) -> bool {
    mask & MASK_RELEASE != 0
}

/// Whether `mask` describes a key press.
pub open spec fn spec_is_keydown(mask: u32) -> bool {
    !spec_is_keyup(mask)
}

impl IBusModifierState {
    /// Wraps a raw modifier mask.
    pub fn new_with_raw_value(raw: u32) -> (r: Self)
        ensures
            r.raw == raw,
    {
        IBusModifierState { raw }
    }

    /// The raw modifier mask.
    pub fn raw_value(self) -> (r: u32)
        ensures
            r == self.raw,
    {
        self.raw
    }

    /// The shift modifier is active.
    pub fn shift(self) -> (r: bool)
        ensures
            r == spec_shift(self.raw),
    {
        self.raw & MASK_SHIFT != 0
    }

    /// True when modifiers are pressed which indicate that this keypress is a
    /// keybinding and would typically not be used to type text.
    ///
    /// Modifiers considered: control, mod1, mod4, super, hyper, meta.
    pub fn has_special_modifiers(self) -> (r: bool)
        ensures
            r == spec_has_special_modifiers(self.raw),
    {
        self.raw & (MASK_CONTROL | MASK_MOD1 | MASK_MOD4 | MASK_SUPER | MASK_HYPER | MASK_META)
            != 0
    }

    /// True when this keyboard event is caused by releasing a key.
    pub fn is_keyup(self) -> (r: bool)
        ensures
            r == spec_is_keyup(self.raw),
    {
        self.raw & MASK_RELEASE != 0
    }

    /// True when this keyboard event is caused by pressing a key.
    pub fn is_keydown(self) -> (r: bool)
        ensures
            r == spec_is_keydown(self.raw),
    {
        !self.is_keyup()
    }
}

} // verus!
