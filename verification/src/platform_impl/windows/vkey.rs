//! The Windows virtual-key codes and the logical keys they stand for.

use vstd::prelude::*;

use crate::event::LogicalKey;

verus! {

pub const VK_BACK: i32 = 0x08;
pub const VK_TAB: i32 = 0x09;
pub const VK_RETURN: i32 = 0x0D;
pub const VK_SHIFT: i32 = 0x10;
pub const VK_CONTROL: i32 = 0x11;
pub const VK_MENU: i32 = 0x12;
pub const VK_PAUSE: i32 = 0x13;
pub const VK_CAPITAL: i32 = 0x14;
pub const VK_KANA: i32 = 0x15;
pub const VK_KANJI: i32 = 0x19;
pub const VK_ESCAPE: i32 = 0x1B;
pub const VK_CONVERT: i32 = 0x1C;
pub const VK_NONCONVERT: i32 = 0x1D;
pub const VK_SPACE: i32 = 0x20;
pub const VK_PRIOR: i32 = 0x21;
pub const VK_NEXT: i32 = 0x22;
pub const VK_END: i32 = 0x23;
pub const VK_HOME: i32 = 0x24;
pub const VK_LEFT: i32 = 0x25;
pub const VK_UP: i32 = 0x26;
pub const VK_RIGHT: i32 = 0x27;
pub const VK_DOWN: i32 = 0x28;
pub const VK_SNAPSHOT: i32 = 0x2C;
pub const VK_INSERT: i32 = 0x2D;
pub const VK_DELETE: i32 = 0x2E;
pub const VK_LWIN: i32 = 0x5B;
pub const VK_RWIN: i32 = 0x5C;
pub const VK_APPS: i32 = 0x5D;
pub const VK_SLEEP: i32 = 0x5F;
pub const VK_NUMPAD0: i32 = 0x60;
pub const VK_NUMPAD1: i32 = 0x61;
pub const VK_NUMPAD2: i32 = 0x62;
pub const VK_NUMPAD3: i32 = 0x63;
pub const VK_NUMPAD4: i32 = 0x64;
pub const VK_NUMPAD5: i32 = 0x65;
pub const VK_NUMPAD6: i32 = 0x66;
pub const VK_NUMPAD7: i32 = 0x67;
pub const VK_NUMPAD8: i32 = 0x68;
pub const VK_NUMPAD9: i32 = 0x69;
pub const VK_MULTIPLY: i32 = 0x6A;
pub const VK_ADD: i32 = 0x6B;
pub const VK_SUBTRACT: i32 = 0x6D;
pub const VK_DECIMAL: i32 = 0x6E;
pub const VK_DIVIDE: i32 = 0x6F;
pub const VK_F1: i32 = 0x70;
pub const VK_F2: i32 = 0x71;
pub const VK_F3: i32 = 0x72;
pub const VK_F4: i32 = 0x73;
pub const VK_F5: i32 = 0x74;
pub const VK_F6: i32 = 0x75;
pub const VK_F7: i32 = 0x76;
pub const VK_F8: i32 = 0x77;
pub const VK_F9: i32 = 0x78;
pub const VK_F10: i32 = 0x79;
pub const VK_F11: i32 = 0x7A;
pub const VK_F12: i32 = 0x7B;
pub const VK_F13: i32 = 0x7C;
pub const VK_F14: i32 = 0x7D;
pub const VK_F15: i32 = 0x7E;
pub const VK_F16: i32 = 0x7F;
pub const VK_F17: i32 = 0x80;
pub const VK_F18: i32 = 0x81;
pub const VK_F19: i32 = 0x82;
pub const VK_F20: i32 = 0x83;
pub const VK_F21: i32 = 0x84;
pub const VK_F22: i32 = 0x85;
pub const VK_F23: i32 = 0x86;
pub const VK_F24: i32 = 0x87;
pub const VK_NUMLOCK: i32 = 0x90;
pub const VK_SCROLL: i32 = 0x91;
pub const VK_LSHIFT: i32 = 0xA0;
pub const VK_RSHIFT: i32 = 0xA1;
pub const VK_LCONTROL: i32 = 0xA2;
pub const VK_RCONTROL: i32 = 0xA3;
pub const VK_LMENU: i32 = 0xA4;
pub const VK_RMENU: i32 = 0xA5;
pub const VK_BROWSER_BACK: i32 = 0xA6;
pub const VK_BROWSER_FORWARD: i32 = 0xA7;
pub const VK_BROWSER_REFRESH: i32 = 0xA8;
pub const VK_BROWSER_STOP: i32 = 0xA9;
pub const VK_BROWSER_SEARCH: i32 = 0xAA;
pub const VK_BROWSER_FAVORITES: i32 = 0xAB;
pub const VK_BROWSER_HOME: i32 = 0xAC;
pub const VK_VOLUME_MUTE: i32 = 0xAD;
pub const VK_VOLUME_DOWN: i32 = 0xAE;
pub const VK_VOLUME_UP: i32 = 0xAF;
pub const VK_MEDIA_NEXT_TRACK: i32 = 0xB0;
pub const VK_MEDIA_PREV_TRACK: i32 = 0xB1;
pub const VK_MEDIA_STOP: i32 = 0xB2;
pub const VK_MEDIA_PLAY_PAUSE: i32 = 0xB3;
pub const VK_LAUNCH_MAIL: i32 = 0xB4;
pub const VK_LAUNCH_MEDIA_SELECT: i32 = 0xB5;
pub const VK_OEM_1: i32 = 0xBA;
pub const VK_OEM_PLUS: i32 = 0xBB;
pub const VK_OEM_COMMA: i32 = 0xBC;
pub const VK_OEM_MINUS: i32 = 0xBD;
pub const VK_OEM_PERIOD: i32 = 0xBE;
pub const VK_OEM_2: i32 = 0xBF;
pub const VK_OEM_3: i32 = 0xC0;
pub const VK_OEM_4: i32 = 0xDB;
pub const VK_OEM_5: i32 = 0xDC;
pub const VK_OEM_6: i32 = 0xDD;
pub const VK_OEM_7: i32 = 0xDE;
pub const VK_OEM_102: i32 = 0xE2;

/// What the active keyboard layout maps the seven layout-dependent punctuation keys
/// (`VK_OEM_1` to `VK_OEM_7`) to: for each, the value that `MapVirtualKeyA` returns for it
/// with `MAPVK_VK_TO_CHAR`.
#[derive(Clone, Copy, Debug, PartialEq, Eq, Structural)]
pub struct OemKeyChars {
    pub oem_1: u32,
    pub oem_2: u32,
    pub oem_3: u32,
    pub oem_4: u32,
    pub oem_5: u32,
    pub oem_6: u32,
    pub oem_7: u32,
}

/// Whether `vkey` is one of the keys whose meaning depends on the keyboard layout.
pub open spec fn is_text_vkey(vkey: i32) -> bool {
    vkey == VK_OEM_1 || vkey == VK_OEM_2 || vkey == VK_OEM_3 || vkey == VK_OEM_4 || vkey
        == VK_OEM_5 || vkey == VK_OEM_6 || vkey == VK_OEM_7
}

/// The character code that the layout gives the layout-dependent key `vkey`.
pub open spec fn oem_char(chars: OemKeyChars, vkey: i32) -> u32 {
    if vkey == VK_OEM_1 {
        chars.oem_1
    } else if vkey == VK_OEM_2 {
        chars.oem_2
    } else if vkey == VK_OEM_3 {
        chars.oem_3
    } else if vkey == VK_OEM_4 {
        chars.oem_4
    } else if vkey == VK_OEM_5 {
        chars.oem_5
    } else if vkey == VK_OEM_6 {
        chars.oem_6
    } else {
        chars.oem_7
    }
}

/// The punctuation key that a character code of the layout names, if any. The code is
/// read without its top bit, which marks dead keys.
pub open spec fn text_key(char_code: u32) -> Option<LogicalKey> {
    let c = char_code & 0x7FFF;
    if c == ';' as u32 {
        Some(LogicalKey::Semicolon)
    } else if c == '/' as u32 {
        Some(LogicalKey::Slash)
    } else if c == '`' as u32 {
        Some(LogicalKey::Grave)
    } else if c == '[' as u32 {
        Some(LogicalKey::LBracket)
    } else if c == ']' as u32 {
        Some(LogicalKey::RBracket)
    } else if c == '\'' as u32 {
        Some(LogicalKey::Apostrophe)
    } else if c == '\\' as u32 {
        Some(LogicalKey::Backslash)
    } else {
        None
    }
}

/// The key of the digit `n` on the main row.
pub open spec fn digit_key(n: i32) -> LogicalKey
    recommends
        0 <= n < 10,
{
    match n {
        0 => LogicalKey::Key0,
        1 => LogicalKey::Key1,
        2 => LogicalKey::Key2,
        3 => LogicalKey::Key3,
        4 => LogicalKey::Key4,
        5 => LogicalKey::Key5,
        6 => LogicalKey::Key6,
        7 => LogicalKey::Key7,
        8 => LogicalKey::Key8,
        _ => LogicalKey::Key9,
    }
}

/// The key of the `n`-th letter of the alphabet, counted from zero.
pub open spec fn letter_key(n: i32) -> LogicalKey
    recommends
        0 <= n < 26,
{
    match n {
        0 => LogicalKey::A,
        1 => LogicalKey::B,
        2 => LogicalKey::C,
        3 => LogicalKey::D,
        4 => LogicalKey::E,
        5 => LogicalKey::F,
        6 => LogicalKey::G,
        7 => LogicalKey::H,
        8 => LogicalKey::I,
        9 => LogicalKey::J,
        10 => LogicalKey::K,
        11 => LogicalKey::L,
        12 => LogicalKey::M,
        13 => LogicalKey::N,
        14 => LogicalKey::O,
        15 => LogicalKey::P,
        16 => LogicalKey::Q,
        17 => LogicalKey::R,
        18 => LogicalKey::S,
        19 => LogicalKey::T,
        20 => LogicalKey::U,
        21 => LogicalKey::V,
        22 => LogicalKey::W,
        23 => LogicalKey::X,
        24 => LogicalKey::Y,
        _ => LogicalKey::Z,
    }
}

/// The key of the digit `n` on the number pad.
pub open spec fn numpad_key(n: i32) -> LogicalKey
    recommends
        0 <= n < 10,
{
    match n {
        0 => LogicalKey::Numpad0,
        1 => LogicalKey::Numpad1,
        2 => LogicalKey::Numpad2,
        3 => LogicalKey::Numpad3,
        4 => LogicalKey::Numpad4,
        5 => LogicalKey::Numpad5,
        6 => LogicalKey::Numpad6,
        7 => LogicalKey::Numpad7,
        8 => LogicalKey::Numpad8,
        _ => LogicalKey::Numpad9,
    }
}

/// The function key `F(n + 1)`.
pub open spec fn function_key(n: i32) -> LogicalKey
    recommends
        0 <= n < 24,
{
    match n {
        0 => LogicalKey::F1,
        1 => LogicalKey::F2,
        2 => LogicalKey::F3,
        3 => LogicalKey::F4,
        4 => LogicalKey::F5,
        5 => LogicalKey::F6,
        6 => LogicalKey::F7,
        7 => LogicalKey::F8,
        8 => LogicalKey::F9,
        9 => LogicalKey::F10,
        10 => LogicalKey::F11,
        11 => LogicalKey::F12,
        12 => LogicalKey::F13,
        13 => LogicalKey::F14,
        14 => LogicalKey::F15,
        15 => LogicalKey::F16,
        16 => LogicalKey::F17,
        17 => LogicalKey::F18,
        18 => LogicalKey::F19,
        19 => LogicalKey::F20,
        20 => LogicalKey::F21,
        21 => LogicalKey::F22,
        22 => LogicalKey::F23,
        _ => LogicalKey::F24,
    }
}

/// The keys that have a code of their own outside the runs of digits, letters, number-pad
/// digits and function keys.
pub open spec fn named_vkey_key(vkey: i32) -> Option<LogicalKey> {
    match vkey {
        VK_BACK => Some(LogicalKey::Back),
        VK_TAB => Some(LogicalKey::Tab),
        VK_RETURN => Some(LogicalKey::Return),
        VK_LSHIFT => Some(LogicalKey::LShift),
        VK_RSHIFT => Some(LogicalKey::RShift),
        VK_LCONTROL => Some(LogicalKey::LControl),
        VK_RCONTROL => Some(LogicalKey::RControl),
        VK_LMENU => Some(LogicalKey::LAlt),
        VK_RMENU => Some(LogicalKey::RAlt),
        VK_PAUSE => Some(LogicalKey::Pause),
        VK_CAPITAL => Some(LogicalKey::Capital),
        VK_KANA => Some(LogicalKey::Kana),
        VK_KANJI => Some(LogicalKey::Kanji),
        VK_ESCAPE => Some(LogicalKey::Escape),
        VK_CONVERT => Some(LogicalKey::Convert),
        VK_NONCONVERT => Some(LogicalKey::NoConvert),
        VK_SPACE => Some(LogicalKey::Space),
        VK_PRIOR => Some(LogicalKey::PageUp),
        VK_NEXT => Some(LogicalKey::PageDown),
        VK_END => Some(LogicalKey::End),
        VK_HOME => Some(LogicalKey::Home),
        VK_LEFT => Some(LogicalKey::Left),
        VK_UP => Some(LogicalKey::Up),
        VK_RIGHT => Some(LogicalKey::Right),
        VK_DOWN => Some(LogicalKey::Down),
        VK_SNAPSHOT => Some(LogicalKey::Snapshot),
        VK_INSERT => Some(LogicalKey::Insert),
        VK_DELETE => Some(LogicalKey::Delete),
        VK_LWIN => Some(LogicalKey::LWin),
        VK_RWIN => Some(LogicalKey::RWin),
        VK_APPS => Some(LogicalKey::Apps),
        VK_SLEEP => Some(LogicalKey::Sleep),
        VK_MULTIPLY => Some(LogicalKey::Multiply),
        VK_ADD => Some(LogicalKey::Add),
        VK_SUBTRACT => Some(LogicalKey::Subtract),
        VK_DECIMAL => Some(LogicalKey::Decimal),
        VK_DIVIDE => Some(LogicalKey::Divide),
        VK_NUMLOCK => Some(LogicalKey::Numlock),
        VK_SCROLL => Some(LogicalKey::Scroll),
        VK_BROWSER_BACK => Some(LogicalKey::NavigateBackward),
        VK_BROWSER_FORWARD => Some(LogicalKey::NavigateForward),
        VK_BROWSER_REFRESH => Some(LogicalKey::WebRefresh),
        VK_BROWSER_STOP => Some(LogicalKey::WebStop),
        VK_BROWSER_SEARCH => Some(LogicalKey::WebSearch),
        VK_BROWSER_FAVORITES => Some(LogicalKey::WebFavorites),
        VK_BROWSER_HOME => Some(LogicalKey::WebHome),
        VK_VOLUME_MUTE => Some(LogicalKey::Mute),
        VK_VOLUME_DOWN => Some(LogicalKey::VolumeDown),
        VK_VOLUME_UP => Some(LogicalKey::VolumeUp),
        VK_MEDIA_NEXT_TRACK => Some(LogicalKey::NextTrack),
        VK_MEDIA_PREV_TRACK => Some(LogicalKey::PrevTrack),
        VK_MEDIA_STOP => Some(LogicalKey::MediaStop),
        VK_MEDIA_PLAY_PAUSE => Some(LogicalKey::PlayPause),
        VK_LAUNCH_MAIL => Some(LogicalKey::Mail),
        VK_LAUNCH_MEDIA_SELECT => Some(LogicalKey::MediaSelect),
        VK_OEM_PLUS => Some(LogicalKey::Equals),
        VK_OEM_COMMA => Some(LogicalKey::Comma),
        VK_OEM_MINUS => Some(LogicalKey::Minus),
        VK_OEM_PERIOD => Some(LogicalKey::Period),
        VK_OEM_102 => Some(LogicalKey::OEM102),
        _ => None,
    }
}

/// The logical key of the virtual-key code `vkey`, where `chars` tells what the
/// layout-dependent keys stand for.
pub open spec fn vkey_key(vkey: i32, chars: OemKeyChars) -> Option<LogicalKey> {
    if 0x30 <= vkey <= 0x39 {
        Some(digit_key((vkey - 0x30) as i32))
    } else if 0x41 <= vkey <= 0x5A {
        Some(letter_key((vkey - 0x41) as i32))
    } else if VK_NUMPAD0 <= vkey <= VK_NUMPAD9 {
        Some(numpad_key((vkey - VK_NUMPAD0) as i32))
    } else if VK_F1 <= vkey <= VK_F24 {
        Some(function_key((vkey - VK_F1) as i32))
    } else if is_text_vkey(vkey) {
        text_key(oem_char(chars, vkey))
    } else {
        named_vkey_key(vkey)
    }
}

/// The punctuation key that the character code `char_code` of the active layout names.
pub fn map_text_keys(char_code: u32) -> (k: Option<LogicalKey>)
    ensures
        k == text_key(char_code),
{
    let c = char_code & 0x7FFF;
    if c == 0x3B {
        Some(LogicalKey::Semicolon)
    } else if c == 0x2F {
        Some(LogicalKey::Slash)
    } else if c == 0x60 {
        Some(LogicalKey::Grave)
    } else if c == 0x5B {
        Some(LogicalKey::LBracket)
    } else if c == 0x5D {
        Some(LogicalKey::RBracket)
    } else if c == 0x27 {
        Some(LogicalKey::Apostrophe)
    } else if c == 0x5C {
        Some(LogicalKey::Backslash)
    } else {
        None
    }
}

/// The logical key of the virtual-key code `vkey`, or `None` for a code without one.
pub fn vkey_to_winit_vkey(vkey: i32, chars: &OemKeyChars) -> (k: Option<LogicalKey>)
    ensures
        k == vkey_key(vkey, *chars),
{
    // VK_* codes are documented here https://msdn.microsoft.com/en-us/library/windows/desktop/dd375731(v=vs.85).aspx
    match vkey {
        VK_BACK => Some(LogicalKey::Back),
        VK_TAB => Some(LogicalKey::Tab),
        VK_RETURN => Some(LogicalKey::Return),
        VK_LSHIFT => Some(LogicalKey::LShift),
        VK_RSHIFT => Some(LogicalKey::RShift),
        VK_LCONTROL => Some(LogicalKey::LControl),
        VK_RCONTROL => Some(LogicalKey::RControl),
        VK_LMENU => Some(LogicalKey::LAlt),
        VK_RMENU => Some(LogicalKey::RAlt),
        VK_PAUSE => Some(LogicalKey::Pause),
        VK_CAPITAL => Some(LogicalKey::Capital),
        VK_KANA => Some(LogicalKey::Kana),
        VK_KANJI => Some(LogicalKey::Kanji),
        VK_ESCAPE => Some(LogicalKey::Escape),
        VK_CONVERT => Some(LogicalKey::Convert),
        VK_NONCONVERT => Some(LogicalKey::NoConvert),
        VK_SPACE => Some(LogicalKey::Space),
        VK_PRIOR => Some(LogicalKey::PageUp),
        VK_NEXT => Some(LogicalKey::PageDown),
        VK_END => Some(LogicalKey::End),
        VK_HOME => Some(LogicalKey::Home),
        VK_LEFT => Some(LogicalKey::Left),
        VK_UP => Some(LogicalKey::Up),
        VK_RIGHT => Some(LogicalKey::Right),
        VK_DOWN => Some(LogicalKey::Down),
        VK_SNAPSHOT => Some(LogicalKey::Snapshot),
        VK_INSERT => Some(LogicalKey::Insert),
        VK_DELETE => Some(LogicalKey::Delete),
        0x30 => Some(LogicalKey::Key0),
        0x31 => Some(LogicalKey::Key1),
        0x32 => Some(LogicalKey::Key2),
        0x33 => Some(LogicalKey::Key3),
        0x34 => Some(LogicalKey::Key4),
        0x35 => Some(LogicalKey::Key5),
        0x36 => Some(LogicalKey::Key6),
        0x37 => Some(LogicalKey::Key7),
        0x38 => Some(LogicalKey::Key8),
        0x39 => Some(LogicalKey::Key9),
        0x41 => Some(LogicalKey::A),
        0x42 => Some(LogicalKey::B),
        0x43 => Some(LogicalKey::C),
        0x44 => Some(LogicalKey::D),
        0x45 => Some(LogicalKey::E),
        0x46 => Some(LogicalKey::F),
        0x47 => Some(LogicalKey::G),
        0x48 => Some(LogicalKey::H),
        0x49 => Some(LogicalKey::I),
        0x4A => Some(LogicalKey::J),
        0x4B => Some(LogicalKey::K),
        0x4C => Some(LogicalKey::L),
        0x4D => Some(LogicalKey::M),
        0x4E => Some(LogicalKey::N),
        0x4F => Some(LogicalKey::O),
        0x50 => Some(LogicalKey::P),
        0x51 => Some(LogicalKey::Q),
        0x52 => Some(LogicalKey::R),
        0x53 => Some(LogicalKey::S),
        0x54 => Some(LogicalKey::T),
        0x55 => Some(LogicalKey::U),
        0x56 => Some(LogicalKey::V),
        0x57 => Some(LogicalKey::W),
        0x58 => Some(LogicalKey::X),
        0x59 => Some(LogicalKey::Y),
        0x5A => Some(LogicalKey::Z),
        VK_LWIN => Some(LogicalKey::LWin),
        VK_RWIN => Some(LogicalKey::RWin),
        VK_APPS => Some(LogicalKey::Apps),
        VK_SLEEP => Some(LogicalKey::Sleep),
        VK_NUMPAD0 => Some(LogicalKey::Numpad0),
        VK_NUMPAD1 => Some(LogicalKey::Numpad1),
        VK_NUMPAD2 => Some(LogicalKey::Numpad2),
        VK_NUMPAD3 => Some(LogicalKey::Numpad3),
        VK_NUMPAD4 => Some(LogicalKey::Numpad4),
        VK_NUMPAD5 => Some(LogicalKey::Numpad5),
        VK_NUMPAD6 => Some(LogicalKey::Numpad6),
        VK_NUMPAD7 => Some(LogicalKey::Numpad7),
        VK_NUMPAD8 => Some(LogicalKey::Numpad8),
        VK_NUMPAD9 => Some(LogicalKey::Numpad9),
        VK_MULTIPLY => Some(LogicalKey::Multiply),
        VK_ADD => Some(LogicalKey::Add),
        VK_SUBTRACT => Some(LogicalKey::Subtract),
        VK_DECIMAL => Some(LogicalKey::Decimal),
        VK_DIVIDE => Some(LogicalKey::Divide),
        VK_F1 => Some(LogicalKey::F1),
        VK_F2 => Some(LogicalKey::F2),
        VK_F3 => Some(LogicalKey::F3),
        VK_F4 => Some(LogicalKey::F4),
        VK_F5 => Some(LogicalKey::F5),
        VK_F6 => Some(LogicalKey::F6),
        VK_F7 => Some(LogicalKey::F7),
        VK_F8 => Some(LogicalKey::F8),
        VK_F9 => Some(LogicalKey::F9),
        VK_F10 => Some(LogicalKey::F10),
        VK_F11 => Some(LogicalKey::F11),
        VK_F12 => Some(LogicalKey::F12),
        VK_F13 => Some(LogicalKey::F13),
        VK_F14 => Some(LogicalKey::F14),
        VK_F15 => Some(LogicalKey::F15),
        VK_F16 => Some(LogicalKey::F16),
        VK_F17 => Some(LogicalKey::F17),
        VK_F18 => Some(LogicalKey::F18),
        VK_F19 => Some(LogicalKey::F19),
        VK_F20 => Some(LogicalKey::F20),
        VK_F21 => Some(LogicalKey::F21),
        VK_F22 => Some(LogicalKey::F22),
        VK_F23 => Some(LogicalKey::F23),
        VK_F24 => Some(LogicalKey::F24),
        VK_NUMLOCK => Some(LogicalKey::Numlock),
        VK_SCROLL => Some(LogicalKey::Scroll),
        VK_BROWSER_BACK => Some(LogicalKey::NavigateBackward),
        VK_BROWSER_FORWARD => Some(LogicalKey::NavigateForward),
        VK_BROWSER_REFRESH => Some(LogicalKey::WebRefresh),
        VK_BROWSER_STOP => Some(LogicalKey::WebStop),
        VK_BROWSER_SEARCH => Some(LogicalKey::WebSearch),
        VK_BROWSER_FAVORITES => Some(LogicalKey::WebFavorites),
        VK_BROWSER_HOME => Some(LogicalKey::WebHome),
        VK_VOLUME_MUTE => Some(LogicalKey::Mute),
        VK_VOLUME_DOWN => Some(LogicalKey::VolumeDown),
        VK_VOLUME_UP => Some(LogicalKey::VolumeUp),
        VK_MEDIA_NEXT_TRACK => Some(LogicalKey::NextTrack),
        VK_MEDIA_PREV_TRACK => Some(LogicalKey::PrevTrack),
        VK_MEDIA_STOP => Some(LogicalKey::MediaStop),
        VK_MEDIA_PLAY_PAUSE => Some(LogicalKey::PlayPause),
        VK_LAUNCH_MAIL => Some(LogicalKey::Mail),
        VK_LAUNCH_MEDIA_SELECT => Some(LogicalKey::MediaSelect),
        VK_OEM_PLUS => Some(LogicalKey::Equals),
        VK_OEM_COMMA => Some(LogicalKey::Comma),
        VK_OEM_MINUS => Some(LogicalKey::Minus),
        VK_OEM_PERIOD => Some(LogicalKey::Period),
        VK_OEM_1 => map_text_keys(chars.oem_1),
        VK_OEM_2 => map_text_keys(chars.oem_2),
        VK_OEM_3 => map_text_keys(chars.oem_3),
        VK_OEM_4 => map_text_keys(chars.oem_4),
        VK_OEM_5 => map_text_keys(chars.oem_5),
        VK_OEM_6 => map_text_keys(chars.oem_6),
        VK_OEM_7 => map_text_keys(chars.oem_7),
        VK_OEM_102 => Some(LogicalKey::OEM102),
        _ => None,
    }
}

/// The virtual-key code that stands for `k`, for the keys that have a fixed code; `None`
/// for the punctuation keys whose code depends on the layout.
pub open spec fn logical_key_vkey(k: LogicalKey) -> Option<i32> {
    match k {
        LogicalKey::Back => Some(VK_BACK),
        LogicalKey::Tab => Some(VK_TAB),
        LogicalKey::Return => Some(VK_RETURN),
        LogicalKey::LShift => Some(VK_LSHIFT),
        LogicalKey::RShift => Some(VK_RSHIFT),
        LogicalKey::LControl => Some(VK_LCONTROL),
        LogicalKey::RControl => Some(VK_RCONTROL),
        LogicalKey::LAlt => Some(VK_LMENU),
        LogicalKey::RAlt => Some(VK_RMENU),
        LogicalKey::Pause => Some(VK_PAUSE),
        LogicalKey::Capital => Some(VK_CAPITAL),
        LogicalKey::Kana => Some(VK_KANA),
        LogicalKey::Kanji => Some(VK_KANJI),
        LogicalKey::Escape => Some(VK_ESCAPE),
        LogicalKey::Convert => Some(VK_CONVERT),
        LogicalKey::NoConvert => Some(VK_NONCONVERT),
        LogicalKey::Space => Some(VK_SPACE),
        LogicalKey::PageUp => Some(VK_PRIOR),
        LogicalKey::PageDown => Some(VK_NEXT),
        LogicalKey::End => Some(VK_END),
        LogicalKey::Home => Some(VK_HOME),
        LogicalKey::Left => Some(VK_LEFT),
        LogicalKey::Up => Some(VK_UP),
        LogicalKey::Right => Some(VK_RIGHT),
        LogicalKey::Down => Some(VK_DOWN),
        LogicalKey::Snapshot => Some(VK_SNAPSHOT),
        LogicalKey::Insert => Some(VK_INSERT),
        LogicalKey::Delete => Some(VK_DELETE),
        LogicalKey::Key0 => Some(0x30),
        LogicalKey::Key1 => Some(0x31),
        LogicalKey::Key2 => Some(0x32),
        LogicalKey::Key3 => Some(0x33),
        LogicalKey::Key4 => Some(0x34),
        LogicalKey::Key5 => Some(0x35),
        LogicalKey::Key6 => Some(0x36),
        LogicalKey::Key7 => Some(0x37),
        LogicalKey::Key8 => Some(0x38),
        LogicalKey::Key9 => Some(0x39),
        LogicalKey::A => Some(0x41),
        LogicalKey::B => Some(0x42),
        LogicalKey::C => Some(0x43),
        LogicalKey::D => Some(0x44),
        LogicalKey::E => Some(0x45),
        LogicalKey::F => Some(0x46),
        LogicalKey::G => Some(0x47),
        LogicalKey::H => Some(0x48),
        LogicalKey::I => Some(0x49),
        LogicalKey::J => Some(0x4A),
        LogicalKey::K => Some(0x4B),
        LogicalKey::L => Some(0x4C),
        LogicalKey::M => Some(0x4D),
        LogicalKey::N => Some(0x4E),
        LogicalKey::O => Some(0x4F),
        LogicalKey::P => Some(0x50),
        LogicalKey::Q => Some(0x51),
        LogicalKey::R => Some(0x52),
        LogicalKey::S => Some(0x53),
        LogicalKey::T => Some(0x54),
        LogicalKey::U => Some(0x55),
        LogicalKey::V => Some(0x56),
        LogicalKey::W => Some(0x57),
        LogicalKey::X => Some(0x58),
        LogicalKey::Y => Some(0x59),
        LogicalKey::Z => Some(0x5A),
        LogicalKey::LWin => Some(VK_LWIN),
        LogicalKey::RWin => Some(VK_RWIN),
        LogicalKey::Apps => Some(VK_APPS),
        LogicalKey::Sleep => Some(VK_SLEEP),
        LogicalKey::Numpad0 => Some(VK_NUMPAD0),
        LogicalKey::Numpad1 => Some(VK_NUMPAD1),
        LogicalKey::Numpad2 => Some(VK_NUMPAD2),
        LogicalKey::Numpad3 => Some(VK_NUMPAD3),
        LogicalKey::Numpad4 => Some(VK_NUMPAD4),
        LogicalKey::Numpad5 => Some(VK_NUMPAD5),
        LogicalKey::Numpad6 => Some(VK_NUMPAD6),
        LogicalKey::Numpad7 => Some(VK_NUMPAD7),
        LogicalKey::Numpad8 => Some(VK_NUMPAD8),
        LogicalKey::Numpad9 => Some(VK_NUMPAD9),
        LogicalKey::Multiply => Some(VK_MULTIPLY),
        LogicalKey::Add => Some(VK_ADD),
        LogicalKey::Subtract => Some(VK_SUBTRACT),
        LogicalKey::Decimal => Some(VK_DECIMAL),
        LogicalKey::Divide => Some(VK_DIVIDE),
        LogicalKey::F1 => Some(VK_F1),
        LogicalKey::F2 => Some(VK_F2),
        LogicalKey::F3 => Some(VK_F3),
        LogicalKey::F4 => Some(VK_F4),
        LogicalKey::F5 => Some(VK_F5),
        LogicalKey::F6 => Some(VK_F6),
        LogicalKey::F7 => Some(VK_F7),
        LogicalKey::F8 => Some(VK_F8),
        LogicalKey::F9 => Some(VK_F9),
        LogicalKey::F10 => Some(VK_F10),
        LogicalKey::F11 => Some(VK_F11),
        LogicalKey::F12 => Some(VK_F12),
        LogicalKey::F13 => Some(VK_F13),
        LogicalKey::F14 => Some(VK_F14),
        LogicalKey::F15 => Some(VK_F15),
        LogicalKey::F16 => Some(VK_F16),
        LogicalKey::F17 => Some(VK_F17),
        LogicalKey::F18 => Some(VK_F18),
        LogicalKey::F19 => Some(VK_F19),
        LogicalKey::F20 => Some(VK_F20),
        LogicalKey::F21 => Some(VK_F21),
        LogicalKey::F22 => Some(VK_F22),
        LogicalKey::F23 => Some(VK_F23),
        LogicalKey::F24 => Some(VK_F24),
        LogicalKey::Numlock => Some(VK_NUMLOCK),
        LogicalKey::Scroll => Some(VK_SCROLL),
        LogicalKey::NavigateBackward => Some(VK_BROWSER_BACK),
        LogicalKey::NavigateForward => Some(VK_BROWSER_FORWARD),
        LogicalKey::WebRefresh => Some(VK_BROWSER_REFRESH),
        LogicalKey::WebStop => Some(VK_BROWSER_STOP),
        LogicalKey::WebSearch => Some(VK_BROWSER_SEARCH),
        LogicalKey::WebFavorites => Some(VK_BROWSER_FAVORITES),
        LogicalKey::WebHome => Some(VK_BROWSER_HOME),
        LogicalKey::Mute => Some(VK_VOLUME_MUTE),
        LogicalKey::VolumeDown => Some(VK_VOLUME_DOWN),
        LogicalKey::VolumeUp => Some(VK_VOLUME_UP),
        LogicalKey::NextTrack => Some(VK_MEDIA_NEXT_TRACK),
        LogicalKey::PrevTrack => Some(VK_MEDIA_PREV_TRACK),
        LogicalKey::MediaStop => Some(VK_MEDIA_STOP),
        LogicalKey::PlayPause => Some(VK_MEDIA_PLAY_PAUSE),
        LogicalKey::Mail => Some(VK_LAUNCH_MAIL),
        LogicalKey::MediaSelect => Some(VK_LAUNCH_MEDIA_SELECT),
        LogicalKey::Equals => Some(VK_OEM_PLUS),
        LogicalKey::Comma => Some(VK_OEM_COMMA),
        LogicalKey::Minus => Some(VK_OEM_MINUS),
        LogicalKey::Period => Some(VK_OEM_PERIOD),
        LogicalKey::OEM102 => Some(VK_OEM_102),
        _ => None,
    }
}

/// A code that has a fixed logical key is the code of that key.
pub proof fn lemma_vkey_key_fixed_code(vkey: i32, chars: OemKeyChars)
    requires
        !is_text_vkey(vkey),
        vkey_key(vkey, chars) is Some,
    ensures
        logical_key_vkey(vkey_key(vkey, chars)->0) == Some(vkey),
{
}

/// The logical key of a layout-dependent key is one of the punctuation keys.
pub proof fn lemma_vkey_key_text_code(vkey: i32, chars: OemKeyChars)
    requires
        is_text_vkey(vkey),
        vkey_key(vkey, chars) is Some,
    ensures
        logical_key_vkey(vkey_key(vkey, chars)->0) is None,
{
}

/// Two different codes never give the same logical key, unless both are layout-dependent
/// punctuation keys, whose meaning the layout decides.
pub proof fn lemma_vkey_key_injective(v1: i32, v2: i32, chars: OemKeyChars)
    requires
        vkey_key(v1, chars) is Some,
        vkey_key(v1, chars) == vkey_key(v2, chars),
        !(is_text_vkey(v1) && is_text_vkey(v2)),
    ensures
        v1 == v2,
{
    if is_text_vkey(v1) {
        lemma_vkey_key_text_code(v1, chars);
        lemma_vkey_key_fixed_code(v2, chars);
    } else if is_text_vkey(v2) {
        lemma_vkey_key_fixed_code(v1, chars);
        lemma_vkey_key_text_code(v2, chars);
    } else {
        lemma_vkey_key_fixed_code(v1, chars);
        lemma_vkey_key_fixed_code(v2, chars);
    }
}

} // verus!
