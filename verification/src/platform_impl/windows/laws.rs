//! What the keyboard functions of the Windows backend are for, stated over all inputs.

use vstd::prelude::*;

use crate::event::LogicalKey;
use crate::platform_impl::windows::vkey::{
    lemma_vkey_key_injective, text_key, VK_OEM_1, VK_OEM_2, VK_OEM_3, VK_OEM_4, VK_OEM_5,
    VK_OEM_6, VK_OEM_7, vkey_key, OemKeyChars, VK_CONTROL, VK_F1, VK_F24, VK_MENU,
    VK_NUMPAD0, VK_NUMPAD9, VK_PAUSE, VK_SHIFT,
};
use crate::event::{ALT_BITS, CTRL_BITS, LOGO_BITS, MODIFIERS_ALL_BITS, SHIFT_BITS};
use crate::platform_impl::windows::event::{
    extended_key, filtered_side, first_utf16_char, key_char, key_message, key_mods, lparam_extended, lparam_repeat, lparam_scancode, modifiers_of_side,
    ModifierKeyStates, LALT_BITS, LCTRL_BITS, LLOGO_BITS, LSHIFT_BITS, RALT_BITS, RCTRL_BITS,
    RLOGO_BITS, RSHIFT_BITS,
};

verus! {

/// The scancode of a key message is read from bits 16 to 23 of its `lparam` alone: two
/// messages that agree there have the same scancode, whatever their other bits.
pub proof fn lemma_scancode_reads_its_byte_only(l1: isize, l2: isize)
    requires
        l1 & 0x00FF_0000 == l2 & 0x00FF_0000,
    ensures
        lparam_scancode(l1) == lparam_scancode(l2),
{
    assert((l1 >> 16u32) & 0xff == (l2 >> 16u32) & 0xff) by (bit_vector)
        requires
            l1 & 0x00FF_0000 == l2 & 0x00FF_0000,
    ;
}

/// The scancode is the value of that byte: an `lparam` that holds the scancode `s` in bits
/// 16 to 23 and nothing else reports `s`.
pub proof fn lemma_scancode_is_its_byte(s: u8, l: isize)
    requires
        l == s * 0x10000,
    ensures
        lparam_scancode(l) == s,
{
    assert((l >> 16u32) & 0xff == s) by (bit_vector)
        requires
            l == s * 0x10000,
    ;
}

/// Whether a key message is for an extended key is read from bit 24 of its `lparam`
/// alone: two messages that agree on that bit agree on it, whatever their other bits, such
/// as the previous-state and transition bits 30 and 31 of a repeat or a release.
pub proof fn lemma_extended_reads_bit_24_only(l1: isize, l2: isize)
    requires
        l1 & 0x0100_0000 == l2 & 0x0100_0000,
    ensures
        lparam_extended(l1) == lparam_extended(l2),
{
}

/// Setting bit 24 makes a message extended, and clearing it makes it not extended.
pub proof fn lemma_extended_is_bit_24(l: isize)
    ensures
        lparam_extended(l | 0x0100_0000),
        !lparam_extended(l & !0x0100_0000),
{
    assert((l | 0x0100_0000) & 0x0100_0000 != 0) by (bit_vector);
    assert((l & !0x0100_0000) & 0x0100_0000 == 0) by (bit_vector);
}

/// Whether a key message repeats is read from its repeat count, bits 0 to 14 of its
/// `lparam`, alone.
pub proof fn lemma_repeat_reads_its_count_only(l1: isize, l2: isize)
    requires
        l1 & 0x7FFF == l2 & 0x7FFF,
    ensures
        lparam_repeat(l1) == lparam_repeat(l2),
{
}

/// A message repeats exactly when its repeat count is not zero: a count of `n` in bits 0 to
/// 14 and nothing else repeats when `n` is at least one.
pub proof fn lemma_repeat_is_a_nonzero_count(n: u16)
    requires
        n < 0x8000,
    ensures
        lparam_repeat(n as isize) == (n != 0),
{
    let l: isize = n as isize;
    assert((l & 0x7FFF != 0) == (n != 0)) by (bit_vector)
        requires
            l == n as isize,
            n < 0x8000,
    ;
}

/// What a key message reports depends on bits 0 to 24 of its `lparam` only: a repeat or a
/// release of a key (bits 30 and 31 set) reports the same key as its first press.
pub proof fn lemma_key_message_reads_low_bits(
    wparam: usize,
    l1: isize,
    l2: isize,
    shift_vkey: u32,
    chars: OemKeyChars,
)
    requires
        l1 & 0x01FF_FFFF == l2 & 0x01FF_FFFF,
    ensures
        key_message(wparam, l1, shift_vkey, chars) == key_message(wparam, l2, shift_vkey, chars),
{
    assert(l1 & 0x00FF_0000 == l2 & 0x00FF_0000 && l1 & 0x0100_0000 == l2 & 0x0100_0000 && l1
        & 0x7FFF == l2 & 0x7FFF) by (bit_vector)
        requires
            l1 & 0x01FF_FFFF == l2 & 0x01FF_FFFF,
    ;
    lemma_scancode_reads_its_byte_only(l1, l2);
    lemma_extended_reads_bit_24_only(l1, l2);
    lemma_repeat_reads_its_count_only(l1, l2);
}

/// Sided flags with left and right swapped.
pub open spec fn mirrored_side(side: u32) -> u32 {
    ((side & (LSHIFT_BITS | LCTRL_BITS | LALT_BITS | LLOGO_BITS)) >> 1u32) | ((side & (RSHIFT_BITS
        | RCTRL_BITS | RALT_BITS | RLOGO_BITS)) << 1u32)
}

/// A modifier is held when its key is held on either side, and only then; no other
/// modifier bit is ever set.
pub proof fn lemma_modifier_held_on_either_side(side: u32)
    ensures
        (modifiers_of_side(side) & SHIFT_BITS != 0) == (side & LSHIFT_BITS != 0 || side
            & RSHIFT_BITS != 0),
        (modifiers_of_side(side) & CTRL_BITS != 0) == (side & LCTRL_BITS != 0 || side & RCTRL_BITS
            != 0),
        (modifiers_of_side(side) & ALT_BITS != 0) == (side & LALT_BITS != 0 || side & RALT_BITS
            != 0),
        (modifiers_of_side(side) & LOGO_BITS != 0) == (side & LLOGO_BITS != 0 || side & RLOGO_BITS
            != 0),
        modifiers_of_side(side) & !MODIFIERS_ALL_BITS == 0,
{
    let m = modifiers_of_side(side);
    assert(
        (m & SHIFT_BITS != 0) == (side & LSHIFT_BITS != 0 || side & RSHIFT_BITS != 0)
        && (m & CTRL_BITS != 0) == (side & LCTRL_BITS != 0 || side & RCTRL_BITS != 0)
        && (m & ALT_BITS != 0) == (side & LALT_BITS != 0 || side & RALT_BITS != 0)
        && (m & LOGO_BITS != 0) == (side & LLOGO_BITS != 0 || side & RLOGO_BITS != 0)
        && m & !MODIFIERS_ALL_BITS == 0
    ) by (bit_vector)
        requires
            m == (if side & (LSHIFT_BITS | RSHIFT_BITS) != 0 {
                SHIFT_BITS
            } else {
                0
            }) | (if side & (LCTRL_BITS | RCTRL_BITS) != 0 {
                CTRL_BITS
            } else {
                0
            }) | (if side & (LALT_BITS | RALT_BITS) != 0 {
                ALT_BITS
            } else {
                0
            }) | (if side & (LLOGO_BITS | RLOGO_BITS) != 0 {
                LOGO_BITS
            } else {
                0
            }),
    ;
}

/// Which side a key is held on does not change the modifiers: swapping left and right
/// gives the same modifiers.
pub proof fn lemma_modifiers_ignore_side(side: u32)
    ensures
        modifiers_of_side(mirrored_side(side)) == modifiers_of_side(side),
{
    let n = mirrored_side(side);
    lemma_modifier_held_on_either_side(side);
    lemma_modifier_held_on_either_side(n);
    let m1 = modifiers_of_side(side);
    let m2 = modifiers_of_side(n);
    assert(m1 == m2) by (bit_vector)
        requires
            n == ((side & (LSHIFT_BITS | LCTRL_BITS | LALT_BITS | LLOGO_BITS)) >> 1u32) | ((side
                & (RSHIFT_BITS | RCTRL_BITS | RALT_BITS | RLOGO_BITS)) << 1u32),
            (m1 & SHIFT_BITS != 0) == (side & LSHIFT_BITS != 0 || side & RSHIFT_BITS != 0),
            (m1 & CTRL_BITS != 0) == (side & LCTRL_BITS != 0 || side & RCTRL_BITS != 0),
            (m1 & ALT_BITS != 0) == (side & LALT_BITS != 0 || side & RALT_BITS != 0),
            (m1 & LOGO_BITS != 0) == (side & LLOGO_BITS != 0 || side & RLOGO_BITS != 0),
            m1 & !MODIFIERS_ALL_BITS == 0,
            (m2 & SHIFT_BITS != 0) == (n & LSHIFT_BITS != 0 || n & RSHIFT_BITS != 0),
            (m2 & CTRL_BITS != 0) == (n & LCTRL_BITS != 0 || n & RCTRL_BITS != 0),
            (m2 & ALT_BITS != 0) == (n & LALT_BITS != 0 || n & RALT_BITS != 0),
            (m2 & LOGO_BITS != 0) == (n & LLOGO_BITS != 0 || n & RLOGO_BITS != 0),
            m2 & !MODIFIERS_ALL_BITS == 0,
    ;
}

/// From key states: shift and the logo modifier are held when either key of theirs is
/// down; control and alt when their key is down, unless AltGr is held on a layout that has
/// it; no other modifier bit is set.
pub proof fn lemma_key_mods_from_keys_down(keys: ModifierKeyStates, uses_altgr: bool)
    ensures
        (key_mods(keys, uses_altgr) & SHIFT_BITS != 0) == (keys.shift < 0),
        (key_mods(keys, uses_altgr) & CTRL_BITS != 0) == (keys.control < 0 && !(uses_altgr
            && keys.rmenu < 0)),
        (key_mods(keys, uses_altgr) & ALT_BITS != 0) == (keys.menu < 0 && !(uses_altgr
            && keys.rmenu < 0)),
        (key_mods(keys, uses_altgr) & LOGO_BITS != 0) == (keys.lwin < 0 || keys.rwin < 0),
        key_mods(keys, uses_altgr) & !MODIFIERS_ALL_BITS == 0,
{
    let shift = keys.shift < 0;
    let ctrl = keys.control < 0 && !(uses_altgr && keys.rmenu < 0);
    let alt = keys.menu < 0 && !(uses_altgr && keys.rmenu < 0);
    let logo = keys.lwin < 0 || keys.rwin < 0;
    let m = key_mods(keys, uses_altgr);
    assert((m & SHIFT_BITS != 0) == shift && (m & CTRL_BITS != 0) == ctrl && (m & ALT_BITS != 0)
        == alt && (m & LOGO_BITS != 0) == logo && m & !MODIFIERS_ALL_BITS == 0) by (bit_vector)
        requires
            m == (if shift {
                SHIFT_BITS
            } else {
                0
            }) | (if ctrl {
                CTRL_BITS
            } else {
                0
            }) | (if alt {
                ALT_BITS
            } else {
                0
            }) | (if logo {
                LOGO_BITS
            } else {
                0
            }),
    ;
}

/// The two logo keys count alike: swapping the states of the left and the right logo key
/// gives the same modifiers.
pub proof fn lemma_key_mods_ignore_logo_side(keys: ModifierKeyStates, uses_altgr: bool)
    ensures
        key_mods((ModifierKeyStates { lwin: keys.rwin, rwin: keys.lwin, ..keys }), uses_altgr)
            == key_mods(keys, uses_altgr),
{
}

/// Every key other than shift, control and alt keeps its code and scancode, unless its
/// scancode is that of Pause or Scroll Lock (0x45, 0x46) or it is the doubled Pause message
/// (Pause with scancode 0x1D): whether it is extended changes nothing for it.
pub proof fn lemma_other_keys_pass_through(
    vkey: i32,
    scancode: u32,
    extended: bool,
    shift_vkey: u32,
)
    requires
        vkey != VK_SHIFT,
        vkey != VK_CONTROL,
        vkey != VK_MENU,
        scancode != 0x45,
        scancode != 0x46,
        !(scancode == 0x1D && vkey == VK_PAUSE),
    ensures
        extended_key(vkey, scancode, extended, shift_vkey) == Some((vkey, scancode)),
{
}

/// The extended flag only tells the sides of control and alt apart and Pause from Scroll
/// Lock under scancode 0x46; for every other message it changes nothing.
pub proof fn lemma_extended_flag_matters_only_for_sides(
    vkey: i32,
    scancode: u32,
    shift_vkey: u32,
)
    requires
        vkey != VK_CONTROL,
        vkey != VK_MENU,
        scancode != 0x46 || vkey == VK_SHIFT,
    ensures
        extended_key(vkey, scancode, true, shift_vkey) == extended_key(
            vkey,
            scancode,
            false,
            shift_vkey,
        ),
{
}

/// The layout's answer for the shift scancode is only read for the generic shift code.
pub proof fn lemma_shift_answer_read_for_shift_only(
    vkey: i32,
    scancode: u32,
    extended: bool,
    s1: u32,
    s2: u32,
)
    requires
        vkey != VK_SHIFT,
    ensures
        extended_key(vkey, scancode, extended, s1) == extended_key(vkey, scancode, extended, s2),
{
}

/// The character printed on a punctuation key that the layout decides.
pub open spec fn punctuation_char(k: LogicalKey) -> Option<char> {
    match k {
        LogicalKey::Semicolon => Some(';'),
        LogicalKey::Slash => Some('/'),
        LogicalKey::Grave => Some('`'),
        LogicalKey::LBracket => Some('['),
        LogicalKey::RBracket => Some(']'),
        LogicalKey::Apostrophe => Some('\''),
        LogicalKey::Backslash => Some('\\'),
        _ => None,
    }
}

/// A character code of the layout is read without its top bits: the dead-key bit 15 and
/// anything above it change nothing.
pub proof fn lemma_text_key_ignores_top_bits(c: u32)
    ensures
        text_key(c) == text_key(c & 0x7FFF),
{
    assert((c & 0x7FFF) & 0x7FFF == c & 0x7FFF) by (bit_vector);
}

/// A layout key is a punctuation key only for that key's own character: when a character
/// code names a key, the key's character is that code.
pub proof fn lemma_text_key_is_its_char(c: u32)
    ensures
        text_key(c) matches Some(k) ==> (punctuation_char(k) matches Some(ch) && ch as u32 == c
            & 0x7FFF),
{
}

/// Every punctuation key is named by its own character, with or without the dead-key bit.
pub proof fn lemma_punctuation_char_names_its_key(k: LogicalKey, c: u32)
    requires
        punctuation_char(k) matches Some(ch) && ch as u32 == c & 0x7FFF,
    ensures
        text_key(c) == Some(k),
{
}

/// The label printed on a digit or letter key of the main block.
pub open spec fn key_label(k: LogicalKey) -> Option<char> {
    match k {
        LogicalKey::Key0 => Some('0'),
        LogicalKey::Key1 => Some('1'),
        LogicalKey::Key2 => Some('2'),
        LogicalKey::Key3 => Some('3'),
        LogicalKey::Key4 => Some('4'),
        LogicalKey::Key5 => Some('5'),
        LogicalKey::Key6 => Some('6'),
        LogicalKey::Key7 => Some('7'),
        LogicalKey::Key8 => Some('8'),
        LogicalKey::Key9 => Some('9'),
        LogicalKey::A => Some('A'),
        LogicalKey::B => Some('B'),
        LogicalKey::C => Some('C'),
        LogicalKey::D => Some('D'),
        LogicalKey::E => Some('E'),
        LogicalKey::F => Some('F'),
        LogicalKey::G => Some('G'),
        LogicalKey::H => Some('H'),
        LogicalKey::I => Some('I'),
        LogicalKey::J => Some('J'),
        LogicalKey::K => Some('K'),
        LogicalKey::L => Some('L'),
        LogicalKey::M => Some('M'),
        LogicalKey::N => Some('N'),
        LogicalKey::O => Some('O'),
        LogicalKey::P => Some('P'),
        LogicalKey::Q => Some('Q'),
        LogicalKey::R => Some('R'),
        LogicalKey::S => Some('S'),
        LogicalKey::T => Some('T'),
        LogicalKey::U => Some('U'),
        LogicalKey::V => Some('V'),
        LogicalKey::W => Some('W'),
        LogicalKey::X => Some('X'),
        LogicalKey::Y => Some('Y'),
        LogicalKey::Z => Some('Z'),
        _ => None,
    }
}

/// The digit of a number-pad key.
pub open spec fn numpad_digit(k: LogicalKey) -> Option<int> {
    match k {
        LogicalKey::Numpad0 => Some(0),
        LogicalKey::Numpad1 => Some(1),
        LogicalKey::Numpad2 => Some(2),
        LogicalKey::Numpad3 => Some(3),
        LogicalKey::Numpad4 => Some(4),
        LogicalKey::Numpad5 => Some(5),
        LogicalKey::Numpad6 => Some(6),
        LogicalKey::Numpad7 => Some(7),
        LogicalKey::Numpad8 => Some(8),
        LogicalKey::Numpad9 => Some(9),
        _ => None,
    }
}

/// The number of a function key.
pub open spec fn function_number(k: LogicalKey) -> Option<int> {
    match k {
        LogicalKey::F1 => Some(1),
        LogicalKey::F2 => Some(2),
        LogicalKey::F3 => Some(3),
        LogicalKey::F4 => Some(4),
        LogicalKey::F5 => Some(5),
        LogicalKey::F6 => Some(6),
        LogicalKey::F7 => Some(7),
        LogicalKey::F8 => Some(8),
        LogicalKey::F9 => Some(9),
        LogicalKey::F10 => Some(10),
        LogicalKey::F11 => Some(11),
        LogicalKey::F12 => Some(12),
        LogicalKey::F13 => Some(13),
        LogicalKey::F14 => Some(14),
        LogicalKey::F15 => Some(15),
        LogicalKey::F16 => Some(16),
        LogicalKey::F17 => Some(17),
        LogicalKey::F18 => Some(18),
        LogicalKey::F19 => Some(19),
        LogicalKey::F20 => Some(20),
        LogicalKey::F21 => Some(21),
        LogicalKey::F22 => Some(22),
        LogicalKey::F23 => Some(23),
        LogicalKey::F24 => Some(24),
        _ => None,
    }
}

/// The code of a digit or letter key is the code of the character printed on it.
pub proof fn lemma_letter_and_digit_codes(vkey: i32, chars: OemKeyChars)
    requires
        0x30 <= vkey <= 0x39 || 0x41 <= vkey <= 0x5A,
    ensures
        vkey_key(vkey, chars) matches Some(k) && key_label(k) matches Some(ch) && ch as i32
            == vkey,
{
}

/// A key with a digit or letter label comes only from the code of that character.
pub proof fn lemma_labelled_key_code(vkey: i32, chars: OemKeyChars)
    requires
        vkey_key(vkey, chars) matches Some(k) && key_label(k) is Some,
    ensures
        vkey_key(vkey, chars) matches Some(k) && key_label(k) matches Some(ch) && vkey
            == ch as i32,
{
    let k = vkey_key(vkey, chars)->0;
    let code = key_label(k)->0 as i32;
    assert(0x30 <= code <= 0x39 || 0x41 <= code <= 0x5A);
    lemma_letter_and_digit_codes(code, chars);
    lemma_vkey_key_injective(code, vkey, chars);
}

/// The number-pad digit keys come in order from `VK_NUMPAD0`.
pub proof fn lemma_numpad_codes(vkey: i32, chars: OemKeyChars)
    requires
        VK_NUMPAD0 <= vkey <= VK_NUMPAD9,
    ensures
        vkey_key(vkey, chars) matches Some(k) && numpad_digit(k) == Some(vkey - VK_NUMPAD0),
{
}

/// The function keys come in order: `F1` has code `VK_F1` and `F24` has code `VK_F24`.
pub proof fn lemma_function_key_codes(vkey: i32, chars: OemKeyChars)
    requires
        VK_F1 <= vkey <= VK_F24,
    ensures
        vkey_key(vkey, chars) matches Some(k) && function_number(k) == Some(vkey - VK_F1 + 1),
{
}

/// A UTF-16 code unit that is not a surrogate is a character of its own, whatever follows
/// it: control characters such as Enter, Tab and Escape included.
pub proof fn lemma_utf16_single_unit(u0: u16, u1: u16)
    requires
        u0 < 0xD800 || u0 > 0xDFFF,
    ensures
        first_utf16_char(u0, u1) matches Some(c) && c as u32 == u0,
{
}

/// A high surrogate followed by a low one is a character beyond the basic plane, whose
/// UTF-16 encoding is that pair again.
pub proof fn lemma_utf16_surrogate_pair(u0: u16, u1: u16)
    requires
        0xD800 <= u0 <= 0xDBFF,
        0xDC00 <= u1 <= 0xDFFF,
    ensures
        first_utf16_char(u0, u1) matches Some(c) && 0x10000 <= c as u32 <= 0x10FFFF && (c as u32
            - 0x10000) / 0x400 == u0 - 0xD800 && (c as u32 - 0x10000) % 0x400 == u1 - 0xDC00,
{
    let h = u0 - 0xD800;
    let l = u1 - 0xDC00;
    assert(0 <= h * 0x400 <= 0x3FF * 0x400) by (nonlinear_arith)
        requires
            0 <= h <= 0x3FF,
    ;
    assert((h * 0x400 + l) / 0x400 == h && (h * 0x400 + l) % 0x400 == l) by (nonlinear_arith)
        requires
            0 <= h <= 0x3FF,
            0 <= l <= 0x3FF,
    ;
}

/// A surrogate that is not the start of a pair types nothing.
pub proof fn lemma_utf16_unpaired_surrogate(u0: u16, u1: u16)
    requires
        0xD800 <= u0 <= 0xDFFF,
        !(u0 <= 0xDBFF && 0xDC00 <= u1 <= 0xDFFF),
    ensures
        first_utf16_char(u0, u1) is None,
{
}

/// A control or alt message comes out as the right-hand key when it is extended and as the
/// left-hand key otherwise; a shift message comes out as the key that the layout maps its
/// scancode to.
pub proof fn lemma_modifier_messages_name_their_side(
    scancode: u32,
    extended: bool,
    shift_vkey: u32,
    chars: OemKeyChars,
)
    ensures
        extended_key(VK_CONTROL, scancode, extended, shift_vkey) matches Some((v, s)) && s
            == scancode && vkey_key(v, chars) == Some(
            if extended {
                LogicalKey::RControl
            } else {
                LogicalKey::LControl
            },
        ),
        extended_key(VK_MENU, scancode, extended, shift_vkey) matches Some((v, s)) && s == scancode
            && vkey_key(v, chars) == Some(
            if extended {
                LogicalKey::RAlt
            } else {
                LogicalKey::LAlt
            },
        ),
        extended_key(VK_SHIFT, scancode, extended, shift_vkey) matches Some((v, s)) && s
            == scancode && vkey_key(v, chars) == vkey_key(shift_vkey as i32, chars),
{
}

/// Pause and Scroll Lock are told apart by scancode: scancode 0x45 is Pause, and scancode
/// 0x46 is Pause (reported with scancode 0x45) when extended and Scroll Lock otherwise,
/// whatever code the message carried, unless it is a modifier.
pub proof fn lemma_pause_and_scroll_lock(vkey: i32, extended: bool, shift_vkey: u32, chars: OemKeyChars)
    requires
        vkey != VK_SHIFT,
        vkey != VK_CONTROL,
        vkey != VK_MENU,
    ensures
        extended_key(vkey, 0x45, extended, shift_vkey) matches Some((v, s)) && s == 0x45
            && vkey_key(v, chars) == Some(LogicalKey::Pause),
        extended_key(vkey, 0x46, true, shift_vkey) matches Some((v, s)) && s == 0x45 && vkey_key(
            v,
            chars,
        ) == Some(LogicalKey::Pause),
        extended_key(vkey, 0x46, false, shift_vkey) matches Some((v, s)) && s == 0x46
            && vkey_key(v, chars) == Some(LogicalKey::Scroll),
{
}

/// While AltGr is held on a layout that has it, filtering drops both control and both alt
/// flags and keeps each shift and logo flag as it was; otherwise it keeps every flag.
pub proof fn lemma_filter_flag_by_flag(side: u32, uses_altgr: bool)
    ensures
        ({
            let f = filtered_side(side, uses_altgr);
            let altgr = uses_altgr && side & RALT_BITS != 0;
            &&& (f & LCTRL_BITS != 0) == (side & LCTRL_BITS != 0 && !altgr)
            &&& (f & RCTRL_BITS != 0) == (side & RCTRL_BITS != 0 && !altgr)
            &&& (f & LALT_BITS != 0) == (side & LALT_BITS != 0 && !altgr)
            &&& (f & RALT_BITS != 0) == (side & RALT_BITS != 0 && !altgr)
            &&& (f & LSHIFT_BITS != 0) == (side & LSHIFT_BITS != 0)
            &&& (f & RSHIFT_BITS != 0) == (side & RSHIFT_BITS != 0)
            &&& (f & LLOGO_BITS != 0) == (side & LLOGO_BITS != 0)
            &&& (f & RLOGO_BITS != 0) == (side & RLOGO_BITS != 0)
            &&& f & !side == 0
        }),
{
    let f = filtered_side(side, uses_altgr);
    let altgr = uses_altgr && side & RALT_BITS != 0;
    assert(side & RALT_BITS == RALT_BITS <==> side & RALT_BITS != 0) by (bit_vector);
    assert(
        (f & LCTRL_BITS != 0) == (side & LCTRL_BITS != 0 && !altgr)
        && (f & RCTRL_BITS != 0) == (side & RCTRL_BITS != 0 && !altgr)
        && (f & LALT_BITS != 0) == (side & LALT_BITS != 0 && !altgr)
        && (f & RALT_BITS != 0) == (side & RALT_BITS != 0 && !altgr)
        && (f & LSHIFT_BITS != 0) == (side & LSHIFT_BITS != 0)
        && (f & RSHIFT_BITS != 0) == (side & RSHIFT_BITS != 0)
        && (f & LLOGO_BITS != 0) == (side & LLOGO_BITS != 0)
        && (f & RLOGO_BITS != 0) == (side & RLOGO_BITS != 0)
        && f & !side == 0
    ) by (bit_vector)
        requires
            f == if altgr {
                side & !0b011011000u32
            } else {
                side
            },
            altgr == (uses_altgr && side & RALT_BITS != 0),
    ;
}

/// A key types a character exactly when `ToUnicodeEx` wrote at least one code unit (it
/// returns zero for no text and a negative count for a dead key) and the text starts with a
/// whole character: a code unit that is not a surrogate, or a surrogate pair.
pub proof fn lemma_key_char_needs_text(len: i32, buffer: Seq<u16>)
    ensures
        key_char(len, buffer) is Some <==> (len >= 1 && (buffer[0] < 0xD800 || buffer[0] > 0xDFFF
            || (buffer[0] <= 0xDBFF && 0xDC00 <= buffer[1] <= 0xDFFF))),
        len >= 1 && (buffer[0] < 0xD800 || buffer[0] > 0xDFFF) ==> (key_char(len, buffer) matches Some(
            c,
        ) && c as u32 == buffer[0]),
{
}

/// Each layout-dependent key takes its meaning from what the layout maps that very key to.
pub proof fn lemma_oem_keys_follow_layout(chars: OemKeyChars)
    ensures
        vkey_key(VK_OEM_1, chars) == text_key(chars.oem_1),
        vkey_key(VK_OEM_2, chars) == text_key(chars.oem_2),
        vkey_key(VK_OEM_3, chars) == text_key(chars.oem_3),
        vkey_key(VK_OEM_4, chars) == text_key(chars.oem_4),
        vkey_key(VK_OEM_5, chars) == text_key(chars.oem_5),
        vkey_key(VK_OEM_6, chars) == text_key(chars.oem_6),
        vkey_key(VK_OEM_7, chars) == text_key(chars.oem_7),
{
}

} // verus!
