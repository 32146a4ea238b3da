//! Classification of raw key codes into semantic key categories.
//!
//! Classification is a pure function of the raw key code, a snapshot of the
//! modifier state, and the host-translated fallback character; it performs no
//! host calls itself.

use vstd::prelude::*;

verus! {

/// Virtual key codes of the keys the classifier distinguishes.
pub const VK_BACK: u16 = 0x08;
pub const VK_TAB: u16 = 0x09;
pub const VK_RETURN: u16 = 0x0D;
pub const VK_SHIFT: u16 = 0x10;
pub const VK_CONTROL: u16 = 0x11;
pub const VK_MENU: u16 = 0x12;
pub const VK_CAPITAL: u16 = 0x14;
pub const VK_SPACE: u16 = 0x20;
pub const VK_0: u16 = 0x30;
pub const VK_9: u16 = 0x39;
pub const VK_A: u16 = 0x41;
pub const VK_Z: u16 = 0x5A;
pub const VK_LWIN: u16 = 0x5B;
pub const VK_RWIN: u16 = 0x5C;
pub const VK_NUMPAD0: u16 = 0x60;
pub const VK_NUMPAD9: u16 = 0x69;
pub const VK_DECIMAL: u16 = 0x6E;
pub const VK_LSHIFT: u16 = 0xA0;
pub const VK_RSHIFT: u16 = 0xA1;
pub const VK_LCONTROL: u16 = 0xA2;
pub const VK_RCONTROL: u16 = 0xA3;
pub const VK_LMENU: u16 = 0xA4;
pub const VK_RMENU: u16 = 0xA5;
pub const VK_OEM_PERIOD: u16 = 0xBE;

/// The semantic category of one keystroke, with its payload character.
#[derive(Clone, Copy, Debug, PartialEq, Eq, Structural)]
pub enum KeyClass {
    /// A letter that feeds the transliteration buffer.
    CompositeConvertible(u8),
    /// A character converted on its own when no composition is live.
    FreeConvertible(u8),
    /// A numeric-pad digit or the numeric-pad decimal point.
    NumPad(u8),
    /// A key the table does not know; carries the host-translated character.
    Unprocessed(u8),
    Backspace,
    Delimiter,
    Modifier,
}

/// A snapshot of the ambient modifier state at the time of the keystroke.
#[derive(Clone, Copy, Debug, PartialEq, Eq, Structural)]
pub struct ModifierState {
    pub caps_locked: bool,
    pub shifted: bool,
    pub ctrled: bool,
    pub alted: bool,
    pub metaed: bool,
}

/// Whether the key itself is one of the modifier keys.
pub open spec fn spec_is_modifier_key(key: u16) -> bool {
    ||| key == VK_SHIFT
    ||| key == VK_LSHIFT
    ||| key == VK_RSHIFT
    ||| key == VK_CONTROL
    ||| key == VK_LCONTROL
    ||| key == VK_RCONTROL
    ||| key == VK_MENU
    ||| key == VK_LMENU
    ||| key == VK_RMENU
    ||| key == VK_LWIN
    ||| key == VK_RWIN
}

/// The character a digit key yields: shift remaps the digit row to the
/// standard shifted symbol row, unshifted keeps the digit itself.
pub open spec fn spec_digit_char(shifted: bool, digit: u8) -> u8 {
    if shifted {
        if digit == 0x31 {
            0x21  // '!'
        } else if digit == 0x32 {
            0x40  // '@'
        } else if digit == 0x33 {
            0x23  // '#'
        } else if digit == 0x34 {
            0x24  // '$'
        } else if digit == 0x35 {
            0x25  // '%'
        } else if digit == 0x36 {
            0x5E  // '^'
        } else if digit == 0x37 {
            0x26  // '&'
        } else if digit == 0x38 {
            0x2A  // '*'
        } else if digit == 0x39 {
            0x28  // '('
        } else {
            0x29  // ')'
        }
    } else {
        digit
    }
}

/// The classification rules, in priority order: modifiers, letters, the digit
/// row, the period key, the numeric pad, delimiters, backspace, and last the
/// host-translated fallback character (no translation means delimiter).
///
/// Letter case combines caps-lock and shift with a logical OR: either one
/// yields the uppercase letter.
pub open spec fn spec_classify(key: u16, mods: ModifierState, translated: u16) -> KeyClass {
    if mods.ctrled || mods.alted || mods.metaed || spec_is_modifier_key(key) {
        KeyClass::Modifier
    } else if VK_A <= key && key <= VK_Z {
        if mods.caps_locked || mods.shifted {
            KeyClass::CompositeConvertible(key as u8)
        } else {
            KeyClass::CompositeConvertible((key + 0x20) as u8)
        }
    } else if VK_0 <= key && key <= VK_9 {
        KeyClass::FreeConvertible(spec_digit_char(mods.shifted, key as u8))
    } else if key == VK_OEM_PERIOD {
        KeyClass::FreeConvertible(0x2E)
    } else if VK_NUMPAD0 <= key && key <= VK_NUMPAD9 {
        KeyClass::NumPad(((key - VK_NUMPAD0) + 0x30) as u8)
    } else if key == VK_DECIMAL {
        KeyClass::NumPad(0x2E)
    } else if key == VK_TAB || key == VK_SPACE || key == VK_RETURN {
        KeyClass::Delimiter
    } else if key == VK_BACK {
        KeyClass::Backspace
    } else if translated == 0 {
        KeyClass::Delimiter
    } else {
        KeyClass::Unprocessed((translated & 0xFF) as u8)
    }
}

impl KeyClass {
    /// Classify one keystroke. Deterministic for a fixed key code, modifier
    /// snapshot and host-translated character: the result is exactly
    /// `spec_classify` of the three inputs.
    pub fn classify(key: u16, mods: ModifierState, translated: u16) -> (r: KeyClass)
        ensures
            r == spec_classify(key, mods, translated),
    {
        if mods.ctrled || mods.alted || mods.metaed || is_modifier_key(key) {
            KeyClass::Modifier
        } else if VK_A <= key && key <= VK_Z {
            let upper = key as u8;
            if mods.caps_locked || mods.shifted {
                KeyClass::CompositeConvertible(upper)
            } else {
                KeyClass::CompositeConvertible(upper + 0x20)
            }
        } else if VK_0 <= key && key <= VK_9 {
            KeyClass::FreeConvertible(digit_char(mods.shifted, key as u8))
        } else if key == VK_OEM_PERIOD {
            KeyClass::FreeConvertible(0x2E)
        } else if VK_NUMPAD0 <= key && key <= VK_NUMPAD9 {
            KeyClass::NumPad((key - VK_NUMPAD0) as u8 + 0x30)
        } else if key == VK_DECIMAL {
            KeyClass::NumPad(0x2E)
        } else if key == VK_TAB || key == VK_SPACE || key == VK_RETURN {
            KeyClass::Delimiter
        } else if key == VK_BACK {
            KeyClass::Backspace
        } else if translated == 0 {
            KeyClass::Delimiter
        } else {
            KeyClass::Unprocessed((translated & 0xFF) as u8)
        }
    }
}

fn is_modifier_key(key: u16) -> (r: bool)
    ensures
        r == spec_is_modifier_key(key),
{
    key == VK_SHIFT || key == VK_LSHIFT || key == VK_RSHIFT || key == VK_CONTROL
        || key == VK_LCONTROL || key == VK_RCONTROL || key == VK_MENU || key == VK_LMENU
        || key == VK_RMENU || key == VK_LWIN || key == VK_RWIN
}

fn digit_char(shifted: bool, digit: u8) -> (r: u8)
    ensures
        r == spec_digit_char(shifted, digit),
{
    if shifted {
        if digit == 0x31 {
            0x21
        } else if digit == 0x32 {
            0x40
        } else if digit == 0x33 {
            0x23
        } else if digit == 0x34 {
            0x24
        } else if digit == 0x35 {
            0x25
        } else if digit == 0x36 {
            0x5E
        } else if digit == 0x37 {
            0x26
        } else if digit == 0x38 {
            0x2A
        } else if digit == 0x39 {
            0x28
        } else {
            0x29
        }
    } else {
        digit
    }
}

} // verus!
