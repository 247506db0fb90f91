use winit::event::{LogicalKey, ModifiersState};
use winit::platform_impl::windows::event::{
    altgr_keyboard_state, altgr_probe_next, altgr_probe_start, decode_key_char,
    empty_keyboard_state, get_key_mods, get_pressed_keys, handle_extended_keys, key_pressed,
    key_scancode, process_key_params, vkey_to_winit_vkey, AltGrCache, AltGrProbe,
    ModifierKeyStates, ModifiersStateSide,
};
use winit::platform_impl::windows::vkey::{map_text_keys, OemKeyChars};

const DOWN: i16 = -128; // 0xFF80: high-order bit set
const UP: i16 = 1; // toggled but not down

fn us_layout() -> OemKeyChars {
    OemKeyChars {
        oem_1: ';' as u32,
        oem_2: '/' as u32,
        oem_3: '`' as u32,
        oem_4: '[' as u32,
        oem_5: '\\' as u32,
        oem_6: ']' as u32,
        oem_7: '\'' as u32,
    }
}

fn no_keys() -> ModifierKeyStates {
    ModifierKeyStates { shift: 0, control: 0, menu: 0, lwin: 0, rwin: 0, rmenu: 0 }
}

#[test]
fn modifier_flag_bits() {
    assert_eq!(ModifiersState::shift().bits(), 0b100);
    assert_eq!(ModifiersState::ctrl().bits(), 0b100 << 3);
    assert_eq!(ModifiersState::alt().bits(), 0b100 << 6);
    assert_eq!(ModifiersState::logo().bits(), 0b100 << 9);
    assert_eq!(ModifiersStateSide::lshift().bits(), 0b010);
    assert_eq!(ModifiersStateSide::rshift().bits(), 0b001);
    assert_eq!(ModifiersStateSide::lctrl().bits(), 0b010 << 3);
    assert_eq!(ModifiersStateSide::rctrl().bits(), 0b001 << 3);
    assert_eq!(ModifiersStateSide::lalt().bits(), 0b010 << 6);
    assert_eq!(ModifiersStateSide::ralt().bits(), 0b001 << 6);
    assert_eq!(ModifiersStateSide::llogo().bits(), 0b010 << 9);
    assert_eq!(ModifiersStateSide::rlogo().bits(), 0b001 << 9);
    assert_eq!(ModifiersState::default(), ModifiersState::empty());
    assert_eq!(ModifiersStateSide::from_bits_truncate(u32::MAX).bits(), 0b011011011011);
    assert_eq!(ModifiersState::from_bits_truncate(u32::MAX).bits(), 0b100100100100);
}

#[test]
fn modifiers_state_set_and_query() {
    let mut m = ModifiersState::empty();
    m.set(ModifiersState::ctrl(), true);
    m.set(ModifiersState::alt(), true);
    assert!(m.contains(ModifiersState::ctrl()));
    assert!(m.intersects(ModifiersState::alt()));
    assert!(!m.intersects(ModifiersState::shift()));
    m.set(ModifiersState::ctrl(), false);
    assert_eq!(m, ModifiersState::alt());
}

#[test]
fn key_state_high_bit() {
    assert!(key_pressed(DOWN));
    assert!(key_pressed(i16::MIN));
    assert!(key_pressed(-1));
    assert!(!key_pressed(UP));
    assert!(!key_pressed(0));
    assert!(!key_pressed(i16::MAX));
}

#[test]
fn side_flags_merge_into_modifiers() {
    let side = ModifiersStateSide::rshift().union(ModifiersStateSide::lalt());
    let m = ModifiersState::from(side);
    assert_eq!(m.bits(), ModifiersState::shift().bits() | ModifiersState::alt().bits());
    let all = ModifiersStateSide::from_bits_truncate(u32::MAX);
    let m: ModifiersState = all.into();
    assert_eq!(m.bits(), 0b100100100100);
    assert_eq!(ModifiersState::from(ModifiersStateSide::empty()), ModifiersState::empty());
    assert_eq!(ModifiersState::from(ModifiersStateSide::rlogo()), ModifiersState::logo());
}

#[test]
fn filter_out_altgr_clears_ctrl_and_alt() {
    let side = ModifiersStateSide::ralt()
        .union(ModifiersStateSide::lctrl())
        .union(ModifiersStateSide::lshift());
    assert_eq!(side.filter_out_altgr(true), ModifiersStateSide::lshift());
    assert_eq!(side.filter_out_altgr(false), side);
    // Without the right alt key nothing is filtered.
    let side = ModifiersStateSide::lalt().union(ModifiersStateSide::rctrl());
    assert_eq!(side.filter_out_altgr(true), side);
}

#[test]
fn filter_out_altgr_is_idempotent() {
    for bits in 0..(1u32 << 12) {
        let side = ModifiersStateSide::from_bits_truncate(bits);
        for uses in [false, true] {
            let once = side.filter_out_altgr(uses);
            assert_eq!(once.filter_out_altgr(uses), once);
            assert_eq!(once.bits() & !side.bits(), 0);
        }
    }
}

#[test]
fn altgr_leaves_no_ctrl_alt_modifier() {
    let side = ModifiersStateSide::ralt().union(ModifiersStateSide::rctrl());
    let m = ModifiersState::from(side.filter_out_altgr(true));
    assert!(!m.intersects(ModifiersState::ctrl()));
    assert!(!m.intersects(ModifiersState::alt()));
}

#[test]
fn key_mods_from_key_states() {
    let mut keys = no_keys();
    assert_eq!(get_key_mods(&keys, false), ModifiersState::empty());
    keys.shift = DOWN;
    keys.rwin = DOWN;
    let m = get_key_mods(&keys, false);
    assert_eq!(m.bits(), ModifiersState::shift().bits() | ModifiersState::logo().bits());
    // AltGr held on a layout that has it: Ctrl and Alt do not count.
    let keys = ModifierKeyStates { shift: 0, control: DOWN, menu: DOWN, lwin: 0, rwin: 0, rmenu: DOWN };
    assert_eq!(get_key_mods(&keys, true), ModifiersState::empty());
    let m = get_key_mods(&keys, false);
    assert_eq!(m.bits(), ModifiersState::ctrl().bits() | ModifiersState::alt().bits());
    // Toggled keys are not held.
    let keys = ModifierKeyStates { shift: UP, control: UP, menu: UP, lwin: UP, rwin: UP, rmenu: UP };
    assert_eq!(get_key_mods(&keys, true), ModifiersState::empty());
}

#[test]
fn key_mods_agree_with_side_flags() {
    for bits in 0..(1u32 << 12) {
        let side = ModifiersStateSide::from_bits_truncate(bits);
        let b = side.bits();
        let st = |held: bool| if held { DOWN } else { 0 };
        let keys = ModifierKeyStates {
            shift: st(b & 0b011 != 0),
            control: st(b & (0b011 << 3) != 0),
            menu: st(b & (0b011 << 6) != 0),
            rmenu: st(b & (0b001 << 6) != 0),
            lwin: st(b & (0b010 << 9) != 0),
            rwin: st(b & (0b001 << 9) != 0),
        };
        for uses in [false, true] {
            assert_eq!(
                ModifiersState::from(side.filter_out_altgr(uses)),
                get_key_mods(&keys, uses)
            );
        }
    }
}

#[test]
fn pressed_keys_are_the_high_bit_entries() {
    let mut state = [0u8; 256];
    state[0x10] = 0x80;
    state[0x41] = 0x81;
    state[0x42] = 0x01; // toggled only
    state[0xFF] = 0xFF;
    assert_eq!(get_pressed_keys(&state), vec![0x10, 0x41, 0xFF]);
    assert_eq!(get_pressed_keys(&[0u8; 256]), Vec::<i32>::new());
    let all = get_pressed_keys(&[0x80u8; 256]);
    assert_eq!(all, (0..256).collect::<Vec<i32>>());
}

#[test]
fn key_char_decoding() {
    let mut buf = [0u16; 5];
    buf[0] = 'a' as u16;
    assert_eq!(decode_key_char(1, &buf), Some('a'));
    assert_eq!(decode_key_char(0, &buf), None);
    assert_eq!(decode_key_char(-1, &buf), None);
    // A surrogate pair: U+1F600.
    let buf = [0xD83D, 0xDE00, 0, 0, 0];
    assert_eq!(decode_key_char(2, &buf), Some('\u{1F600}'));
    // An unpaired high surrogate.
    let buf = [0xD83D, 0x0041, 0, 0, 0];
    assert_eq!(decode_key_char(2, &buf), None);
    // A lone low surrogate.
    let buf = [0xDE00, 0, 0, 0, 0];
    assert_eq!(decode_key_char(1, &buf), None);
    // The last pair in the supplementary planes.
    let buf = [0xDBFF, 0xDFFF, 0, 0, 0];
    assert_eq!(decode_key_char(2, &buf), Some('\u{10FFFF}'));
    let buf = [0xE9, 0, 0, 0, 0];
    assert_eq!(decode_key_char(1, &buf), Some('é'));
}

#[test]
fn keyboard_states_for_the_altgr_test() {
    let empty = empty_keyboard_state();
    assert!(empty.iter().all(|&b| b == 0));
    let altgr = altgr_keyboard_state();
    for (i, &b) in altgr.iter().enumerate() {
        if i == 0x11 || i == 0x12 {
            assert_eq!(b, 0x80);
        } else {
            assert_eq!(b, 0);
        }
    }
}

fn run_altgr_test(typed: &dyn Fn(u32) -> (Option<char>, Option<char>)) -> (bool, u32) {
    let mut probes = 0;
    let mut step = altgr_probe_start();
    loop {
        match step {
            AltGrProbe::Probe(v_key) => {
                probes += 1;
                let (noaltgr, altgr) = typed(v_key);
                step = altgr_probe_next(v_key, noaltgr, altgr);
            }
            AltGrProbe::Decided(b) => return (b, probes),
        }
    }
}

#[test]
fn altgr_test_decides() {
    // A layout where AltGr changes nothing: all keys are tried.
    assert_eq!(run_altgr_test(&|v| (char::from_u32(v), char::from_u32(v))), (false, 256));
    // AltGr types nothing: no difference.
    assert_eq!(run_altgr_test(&|v| (char::from_u32(v), None)), (false, 256));
    // The 'E' key types '€' with AltGr: the test stops there.
    assert_eq!(
        run_altgr_test(&|v| if v == 0x45 { (Some('e'), Some('€')) } else { (None, None) }),
        (true, 0x46)
    );
    // The last key decides.
    assert_eq!(
        run_altgr_test(&|v| if v == 255 { (Some('a'), Some('b')) } else { (None, None) }),
        (true, 256)
    );
    assert_eq!(altgr_probe_next(3, Some('x'), Some('x')), AltGrProbe::Probe(4));
    assert_eq!(altgr_probe_next(255, None, Some('x')), AltGrProbe::Decided(false));
}

#[test]
fn altgr_cache_remembers_the_active_layout() {
    let mut cache = AltGrCache::new();
    // The null layout is the one seen at first.
    assert_eq!(cache.activate(0), Some(false));
    assert_eq!(cache.activate(0x0409_0409), None);
    cache.remember(true);
    assert_eq!(cache.activate(0x0409_0409), Some(true));
    assert_eq!(cache.activate(0x0409_0409), Some(true));
    assert_eq!(cache.activate(0x0407_0407), None);
    cache.remember(false);
    assert_eq!(cache.activate(0x0407_0407), Some(false));
    assert_eq!(cache.activate(0x0409_0409), None);
}

#[test]
fn extended_keys_tell_sides() {
    // Control and alt, left and right.
    assert_eq!(handle_extended_keys(0x11, 0x1D, false, 0), Some((0xA2, 0x1D)));
    assert_eq!(handle_extended_keys(0x11, 0x1D, true, 0), Some((0xA3, 0x1D)));
    assert_eq!(handle_extended_keys(0x12, 0x38, false, 0), Some((0xA4, 0x38)));
    assert_eq!(handle_extended_keys(0x12, 0x38, true, 0), Some((0xA5, 0x38)));
    // Shift: the side comes from the layout.
    assert_eq!(handle_extended_keys(0x10, 0x36, false, 0xA1), Some((0xA1, 0x36)));
    assert_eq!(handle_extended_keys(0x10, 0x2A, false, 0xA0), Some((0xA0, 0x2A)));
    // Pause arrives twice with raw input; the first is dropped.
    assert_eq!(handle_extended_keys(0x13, 0x1D, false, 0), None);
    assert_eq!(handle_extended_keys(0xFF, 0x45, false, 0), Some((0x13, 0x45)));
    // Pause and Scroll Lock with modifiers.
    assert_eq!(handle_extended_keys(0x07, 0x46, true, 0), Some((0x13, 0x45)));
    assert_eq!(handle_extended_keys(0x07, 0x46, false, 0), Some((0x91, 0x46)));
    // Scancode 0x1D with another key is kept.
    assert_eq!(handle_extended_keys(0x41, 0x1D, false, 0), Some((0x41, 0x1D)));
    assert_eq!(handle_extended_keys(0x41, 0x1E, true, 0), Some((0x41, 0x1E)));
}

#[test]
fn key_message_parameters() {
    let layout = us_layout();
    // Right control, extended, repeated once.
    let lparam: isize = (0x1D << 16) | (1 << 24) | 1;
    assert_eq!(key_scancode(lparam), 0x1D);
    assert_eq!(
        process_key_params(0x11, lparam, 0, &layout),
        Some((0x1D, Some(LogicalKey::RControl), true))
    );
    // Right shift, first press.
    let lparam: isize = 0x36 << 16;
    assert_eq!(
        process_key_params(0x10, lparam, 0xA1, &layout),
        Some((0x36, Some(LogicalKey::RShift), false))
    );
    // A key release message has the top bits set.
    let lparam = 0xC01E_0001u32 as i32 as isize;
    assert_eq!(key_scancode(lparam), 0x1E);
    assert_eq!(
        process_key_params(0x41, lparam, 0, &layout),
        Some((0x1E, Some(LogicalKey::A), true))
    );
    // The doubled Pause message is dropped.
    let lparam: isize = 0x1D << 16;
    assert_eq!(process_key_params(0x13, lparam, 0, &layout), None);
    // A code without a logical key.
    let lparam: isize = 0x70 << 16;
    assert_eq!(process_key_params(0x07, lparam, 0, &layout), Some((0x70, None, false)));
    // The high bits of wparam are dropped, as with a cast to c_int.
    let lparam: isize = 0x1E << 16;
    assert_eq!(
        process_key_params(0x1_0000_0041, lparam, 0, &layout),
        Some((0x1E, Some(LogicalKey::A), false))
    );
}

#[test]
fn virtual_key_codes() {
    let layout = us_layout();
    let cases: &[(i32, LogicalKey)] = &[
        (0x08, LogicalKey::Back),
        (0x09, LogicalKey::Tab),
        (0x0D, LogicalKey::Return),
        (0x13, LogicalKey::Pause),
        (0x1B, LogicalKey::Escape),
        (0x20, LogicalKey::Space),
        (0x21, LogicalKey::PageUp),
        (0x22, LogicalKey::PageDown),
        (0x2C, LogicalKey::Snapshot),
        (0x30, LogicalKey::Key0),
        (0x39, LogicalKey::Key9),
        (0x41, LogicalKey::A),
        (0x5A, LogicalKey::Z),
        (0x5B, LogicalKey::LWin),
        (0x60, LogicalKey::Numpad0),
        (0x69, LogicalKey::Numpad9),
        (0x6B, LogicalKey::Add),
        (0x70, LogicalKey::F1),
        (0x87, LogicalKey::F24),
        (0x90, LogicalKey::Numlock),
        (0xA6, LogicalKey::NavigateBackward),
        (0xAD, LogicalKey::Mute),
        (0xB5, LogicalKey::MediaSelect),
        (0xBB, LogicalKey::Equals),
        (0xBE, LogicalKey::Period),
        (0xE2, LogicalKey::OEM102),
        (0xBA, LogicalKey::Semicolon),
        (0xBF, LogicalKey::Slash),
        (0xC0, LogicalKey::Grave),
        (0xDB, LogicalKey::LBracket),
        (0xDC, LogicalKey::Backslash),
        (0xDD, LogicalKey::RBracket),
        (0xDE, LogicalKey::Apostrophe),
    ];
    for &(code, key) in cases {
        assert_eq!(vkey_to_winit_vkey(code, &layout), Some(key), "code {:#x}", code);
    }
    for code in [0x00, 0x01, 0x0C, 0x10, 0x11, 0x12, 0x29, 0x3A, 0x40, 0x5E, 0x6C, 0x88, 0xB6, 0xDF, 0xFE, -1, 0x100] {
        assert_eq!(vkey_to_winit_vkey(code, &layout), None, "code {:#x}", code);
    }
}

#[test]
fn virtual_key_codes_are_one_to_one() {
    let layout = us_layout();
    let mut seen: Vec<(LogicalKey, i32)> = Vec::new();
    for code in -4..0x110 {
        if let Some(k) = vkey_to_winit_vkey(code, &layout) {
            assert!(seen.iter().all(|&(k2, _)| k2 != k), "code {:#x}", code);
            seen.push((k, code));
        }
    }
    assert_eq!(seen.len(), 137);
}

#[test]
fn text_keys_follow_the_layout() {
    // A German layout has 'ü' on VK_OEM_1 and '#' on VK_OEM_2: neither is a key of its own.
    let de = OemKeyChars { oem_1: 'Ü' as u32, oem_2: '#' as u32, oem_3: 'Ö' as u32, oem_4: 0x8000 | '´' as u32, oem_5: '^' as u32, oem_6: '+' as u32, oem_7: 'Ä' as u32 };
    assert_eq!(vkey_to_winit_vkey(0xBA, &de), None);
    assert_eq!(vkey_to_winit_vkey(0xBF, &de), None);
    // The dead-key bit is ignored.
    assert_eq!(map_text_keys(0x8000 | ';' as u32), Some(LogicalKey::Semicolon));
    assert_eq!(map_text_keys('[' as u32), Some(LogicalKey::LBracket));
    assert_eq!(map_text_keys(']' as u32), Some(LogicalKey::RBracket));
    assert_eq!(map_text_keys('\'' as u32), Some(LogicalKey::Apostrophe));
    assert_eq!(map_text_keys('\\' as u32), Some(LogicalKey::Backslash));
    assert_eq!(map_text_keys('`' as u32), Some(LogicalKey::Grave));
    assert_eq!(map_text_keys('/' as u32), Some(LogicalKey::Slash));
    assert_eq!(map_text_keys(0), None);
    assert_eq!(map_text_keys('a' as u32), None);
    // Two layout keys on the same character give the same key.
    let same = OemKeyChars { oem_1: ';' as u32, oem_2: ';' as u32, ..us_layout() };
    assert_eq!(vkey_to_winit_vkey(0xBA, &same), vkey_to_winit_vkey(0xBF, &same));
}

#[test]
fn side_flag_operations() {
    let all = ModifiersStateSide::all();
    assert_eq!(all.bits(), 0b011011011011);
    assert!(all.is_all());
    assert!(!all.is_empty());
    assert!(ModifiersStateSide::default().is_empty());
    assert_eq!(ModifiersStateSide::default(), ModifiersStateSide::empty());
    assert_eq!(ModifiersStateSide::from_bits(0b010), Some(ModifiersStateSide::lshift()));
    assert_eq!(ModifiersStateSide::from_bits(0b100), None);
    assert_eq!(ModifiersStateSide::from_bits(0), Some(ModifiersStateSide::empty()));

    let ctrl = ModifiersStateSide::lctrl().union(ModifiersStateSide::rctrl());
    let mut s = ModifiersStateSide::lshift();
    s.insert(ctrl);
    assert_eq!(s.bits(), 0b010 | 0b011000);
    s.remove(ModifiersStateSide::lctrl());
    assert_eq!(s, ModifiersStateSide::lshift().union(ModifiersStateSide::rctrl()));
    s.toggle(ctrl);
    assert_eq!(s, ModifiersStateSide::lshift().union(ModifiersStateSide::lctrl()));
    s.set(ModifiersStateSide::lshift(), false);
    assert_eq!(s, ModifiersStateSide::lctrl());
    s.set(ModifiersStateSide::rlogo(), true);
    assert_eq!(s, ModifiersStateSide::lctrl().union(ModifiersStateSide::rlogo()));
    assert_eq!(s.difference(ModifiersStateSide::lctrl()), ModifiersStateSide::rlogo());
    assert_eq!(
        s.symmetric_difference(ctrl),
        ModifiersStateSide::rctrl().union(ModifiersStateSide::rlogo())
    );
    assert_eq!(all.complement(), ModifiersStateSide::empty());
    assert!(all.filter_out_altgr(true).intersection(ctrl).is_empty());
}

#[test]
fn altgr_answer_depends_on_the_layout_only() {
    // Layout 1 has AltGr, layout 2 has not; queries in any order give each its answer.
    let answer_of = |layout: usize| layout == 1;
    let mut cache = AltGrCache::new();
    let mut query = |layout: usize| match cache.activate(layout) {
        Some(b) => b,
        None => {
            let b = answer_of(layout);
            cache.remember(b);
            b
        }
    };
    let run = [1usize, 2, 2, 1, 1, 2, 1];
    for layout in run {
        assert_eq!(query(layout), answer_of(layout));
    }
}

#[test]
fn side_flag_operators() {
    let ls = ModifiersStateSide::lshift();
    let ra = ModifiersStateSide::ralt();
    let lc = ModifiersStateSide::lctrl();
    assert_eq!((ls | ra).bits(), 0b010 | (0b001 << 6));
    assert_eq!((ls | ra) & ra, ra);
    assert_eq!((ls | ra) ^ (ra | lc), ls | lc);
    assert_eq!((ls | ra | lc) - ra, ls | lc);
    assert_eq!((!ls).bits(), 0b011011011001);
    assert_eq!(!ModifiersStateSide::all(), ModifiersStateSide::empty());
    // The original's AltGr filter, written with the operators.
    let side = ls | ra | lc;
    let mask = lc | ModifiersStateSide::rctrl() | ModifiersStateSide::lalt() | ra;
    assert_eq!(side.filter_out_altgr(true), side & !mask);
}
