//! Keyboard input on Windows: modifier keys, key messages and the AltGr test of a layout.
//!
//! The functions here compute on what the system reports (the state of a key, the
//! parameters of a key message, what a layout maps a key to); reading those values from
//! the system is left to the caller.

use vstd::prelude::*;

use crate::event::{
    LogicalKey, ModifiersState, ALT_BITS, CTRL_BITS, LOGO_BITS, SHIFT_BITS,
};
use crate::platform_impl::windows::vkey::{
    vkey_key, OemKeyChars, VK_CONTROL, VK_LCONTROL, VK_LMENU, VK_MENU, VK_PAUSE, VK_RCONTROL,
    VK_RMENU, VK_SCROLL, VK_SHIFT,
};

pub use crate::platform_impl::windows::vkey::vkey_to_winit_vkey;

verus! {

/// The bit of the left shift key in `ModifiersStateSide`.
pub const LSHIFT_BITS: u32 = 0b010;
/// The bit of the right shift key in `ModifiersStateSide`.
pub const RSHIFT_BITS: u32 = 0b001;
/// The bit of the left control key in `ModifiersStateSide`.
pub const LCTRL_BITS: u32 = 0b010000;
/// The bit of the right control key in `ModifiersStateSide`.
pub const RCTRL_BITS: u32 = 0b001000;
/// The bit of the left alt key in `ModifiersStateSide`.
pub const LALT_BITS: u32 = 0b010000000;
/// The bit of the right alt key in `ModifiersStateSide`.
pub const RALT_BITS: u32 = 0b001000000;
/// The bit of the left logo key in `ModifiersStateSide`.
pub const LLOGO_BITS: u32 = 0b010000000000;
/// The bit of the right logo key in `ModifiersStateSide`.
pub const RLOGO_BITS: u32 = 0b001000000000;
/// The bits of all flags that `ModifiersStateSide` knows.
pub const SIDE_ALL_BITS: u32 = 0b011011011011;
/// The control and alt bits of both sides: what an AltGr press also sets.
pub const ALTGR_MASK_BITS: u32 = 0b011011000;

/// Which modifier keys are held, telling left from right.
#[derive(Clone, Copy, Debug, PartialEq, Eq, Hash, Structural)]
pub struct ModifiersStateSide {
    bits: u32,
}

impl View for ModifiersStateSide {
    type V = u32;

    closed spec fn view(&self) -> u32 {
        self.bits
    }
}

impl ModifiersStateSide {
    /// Only the known flags are ever set.
    #[verifier::type_invariant]
    spec fn known_bits_only(self) -> bool {
        self.bits & !SIDE_ALL_BITS == 0
    }

    fn from_known_bits(bits: u32) -> (s: ModifiersStateSide)
        requires
            bits & !SIDE_ALL_BITS == 0,
        ensures
            s@ == bits,
    {
        ModifiersStateSide { bits }
    }

    /// No modifier held.
    pub fn empty() -> (s: ModifiersStateSide)
        ensures
            s@ == 0,
    {
        assert(0u32 & !SIDE_ALL_BITS == 0) by (bit_vector);
        ModifiersStateSide::from_known_bits(0)
    }

    /// The left shift key.
    pub fn lshift() -> (s: ModifiersStateSide)
        ensures
            s@ == LSHIFT_BITS,
    {
        assert(LSHIFT_BITS & !SIDE_ALL_BITS == 0) by (bit_vector);
        ModifiersStateSide::from_known_bits(LSHIFT_BITS)
    }

    /// The right shift key.
    pub fn rshift() -> (s: ModifiersStateSide)
        ensures
            s@ == RSHIFT_BITS,
    {
        assert(RSHIFT_BITS & !SIDE_ALL_BITS == 0) by (bit_vector);
        ModifiersStateSide::from_known_bits(RSHIFT_BITS)
    }

    /// The left control key.
    pub fn lctrl() -> (s: ModifiersStateSide)
        ensures
            s@ == LCTRL_BITS,
    {
        assert(LCTRL_BITS & !SIDE_ALL_BITS == 0) by (bit_vector);
        ModifiersStateSide::from_known_bits(LCTRL_BITS)
    }

    /// The right control key.
    pub fn rctrl() -> (s: ModifiersStateSide)
        ensures
            s@ == RCTRL_BITS,
    {
        assert(RCTRL_BITS & !SIDE_ALL_BITS == 0) by (bit_vector);
        ModifiersStateSide::from_known_bits(RCTRL_BITS)
    }

    /// The left alt key.
    pub fn lalt() -> (s: ModifiersStateSide)
        ensures
            s@ == LALT_BITS,
    {
        assert(LALT_BITS & !SIDE_ALL_BITS == 0) by (bit_vector);
        ModifiersStateSide::from_known_bits(LALT_BITS)
    }

    /// The right alt key (AltGr on layouts that have it).
    pub fn ralt() -> (s: ModifiersStateSide)
        ensures
            s@ == RALT_BITS,
    {
        assert(RALT_BITS & !SIDE_ALL_BITS == 0) by (bit_vector);
        ModifiersStateSide::from_known_bits(RALT_BITS)
    }

    /// The left logo key.
    pub fn llogo() -> (s: ModifiersStateSide)
        ensures
            s@ == LLOGO_BITS,
    {
        assert(LLOGO_BITS & !SIDE_ALL_BITS == 0) by (bit_vector);
        ModifiersStateSide::from_known_bits(LLOGO_BITS)
    }

    /// The right logo key.
    pub fn rlogo() -> (s: ModifiersStateSide)
        ensures
            s@ == RLOGO_BITS,
    {
        assert(RLOGO_BITS & !SIDE_ALL_BITS == 0) by (bit_vector);
        ModifiersStateSide::from_known_bits(RLOGO_BITS)
    }

    /// The raw bits.
    pub fn bits(&self) -> (b: u32)
        ensures
            b == self@,
    {
        self.bits
    }

    /// The flags whose bits are set in `bits`; unknown bits are dropped.
    pub fn from_bits_truncate(bits: u32) -> (s: ModifiersStateSide)
        ensures
            s@ == bits & SIDE_ALL_BITS,
    {
        let b = bits & SIDE_ALL_BITS;
        assert(b & !SIDE_ALL_BITS == 0) by (bit_vector)
            requires
                b == bits & SIDE_ALL_BITS,
        ;
        ModifiersStateSide::from_known_bits(b)
    }

    /// Whether every flag of `other` is set in `self`.
    pub fn contains(&self, other: ModifiersStateSide) -> (b: bool)
        ensures
            b == (self@ & other@ == other@),
    {
        self.bits & other.bits == other.bits
    }

    /// Whether `self` and `other` share a flag.
    pub fn intersects(&self, other: ModifiersStateSide) -> (b: bool)
        ensures
            b == (self@ & other@ != 0),
    {
        self.bits & other.bits != 0
    }

    /// The flags set in either.
    pub fn union(self, other: ModifiersStateSide) -> (s: ModifiersStateSide)
        ensures
            s@ == self@ | other@,
    {
        proof {
            use_type_invariant(self);
            use_type_invariant(other);
        }
        let (x, y) = (self.bits, other.bits);
        let b = x | y;
        assert(b & !SIDE_ALL_BITS == 0) by (bit_vector)
            requires
                b == x | y,
                x & !SIDE_ALL_BITS == 0,
                y & !SIDE_ALL_BITS == 0,
        ;
        ModifiersStateSide::from_known_bits(b)
    }

    /// The flags set in both.
    pub fn intersection(self, other: ModifiersStateSide) -> (s: ModifiersStateSide)
        ensures
            s@ == self@ & other@,
    {
        proof {
            use_type_invariant(self);
        }
        let (x, y) = (self.bits, other.bits);
        let b = x & y;
        assert(b & !SIDE_ALL_BITS == 0) by (bit_vector)
            requires
                b == x & y,
                x & !SIDE_ALL_BITS == 0,
        ;
        ModifiersStateSide::from_known_bits(b)
    }

    /// The known flags that are not set in `self`.
    pub fn complement(self) -> (s: ModifiersStateSide)
        ensures
            s@ == !self@ & SIDE_ALL_BITS,
    {
        ModifiersStateSide::from_bits_truncate(!self.bits)
    }

    /// Every known flag.
    pub fn all() -> (s: ModifiersStateSide)
        ensures
            s@ == SIDE_ALL_BITS,
    {
        assert(SIDE_ALL_BITS & !SIDE_ALL_BITS == 0) by (bit_vector);
        ModifiersStateSide::from_known_bits(SIDE_ALL_BITS)
    }

    /// The flags whose bits are `bits`, or `None` when `bits` has a bit of no known flag.
    pub fn from_bits(bits: u32) -> (s: Option<ModifiersStateSide>)
        ensures
            s == (if bits & !SIDE_ALL_BITS == 0 {
                Some(ModifiersStateSide::from_view(bits))
            } else {
                None
            }),
    {
        if bits & !SIDE_ALL_BITS == 0 {
            Some(ModifiersStateSide::from_known_bits(bits))
        } else {
            None
        }
    }

    /// The flags whose bits are `bits`.
    pub closed spec fn from_view(bits: u32) -> ModifiersStateSide {
        ModifiersStateSide { bits }
    }

    /// A value of `ModifiersStateSide` is its bits.
    pub proof fn lemma_from_view(bits: u32, s: ModifiersStateSide)
        ensures
            ModifiersStateSide::from_view(bits)@ == bits,
            ModifiersStateSide::from_view(s@) == s,
    {
    }

    /// Whether no flag is set.
    pub fn is_empty(&self) -> (b: bool)
        ensures
            b == (self@ == 0),
    {
        self.bits == 0
    }

    /// Whether every known flag is set.
    pub fn is_all(&self) -> (b: bool)
        ensures
            b == (self@ == SIDE_ALL_BITS),
    {
        self.bits == SIDE_ALL_BITS
    }

    /// The flags set in `self` and not in `other`.
    pub fn difference(self, other: ModifiersStateSide) -> (s: ModifiersStateSide)
        ensures
            s@ == self@ & !other@,
    {
        proof {
            use_type_invariant(self);
        }
        let (x, y) = (self.bits, other.bits);
        let b = x & !y;
        assert(b & !SIDE_ALL_BITS == 0) by (bit_vector)
            requires
                b == x & !y,
                x & !SIDE_ALL_BITS == 0,
        ;
        ModifiersStateSide::from_known_bits(b)
    }

    /// The flags set in exactly one of `self` and `other`.
    pub fn symmetric_difference(self, other: ModifiersStateSide) -> (s: ModifiersStateSide)
        ensures
            s@ == self@ ^ other@,
    {
        proof {
            use_type_invariant(self);
            use_type_invariant(other);
        }
        let (x, y) = (self.bits, other.bits);
        let b = x ^ y;
        assert(b & !SIDE_ALL_BITS == 0) by (bit_vector)
            requires
                b == x ^ y,
                x & !SIDE_ALL_BITS == 0,
                y & !SIDE_ALL_BITS == 0,
        ;
        ModifiersStateSide::from_known_bits(b)
    }

    /// Sets the flags of `other`.
    pub fn insert(&mut self, other: ModifiersStateSide)
        ensures
            final(self)@ == old(self)@ | other@,
    {
        *self = self.union(other);
    }

    /// Clears the flags of `other`.
    pub fn remove(&mut self, other: ModifiersStateSide)
        ensures
            final(self)@ == old(self)@ & !other@,
    {
        *self = self.difference(other);
    }

    /// Flips the flags of `other`.
    pub fn toggle(&mut self, other: ModifiersStateSide)
        ensures
            final(self)@ == old(self)@ ^ other@,
    {
        *self = self.symmetric_difference(other);
    }

    /// Sets the flags of `other` when `value` holds, clears them otherwise.
    pub fn set(&mut self, other: ModifiersStateSide, value: bool)
        ensures
            final(self)@ == if value {
                old(self)@ | other@
            } else {
                old(self)@ & !other@
            },
    {
        if value {
            self.insert(other);
        } else {
            self.remove(other);
        }
    }

    /// Leaves out the control and alt keys when the right alt key is held and the layout
    /// has an AltGr key in its place (`uses_altgr`): such a layout reports AltGr as
    /// Ctrl+Alt, which are then not held as modifiers.
    pub fn filter_out_altgr(&self, uses_altgr: bool) -> (s: ModifiersStateSide)
        ensures
            s@ == filtered_side(self@, uses_altgr),
    {
        proof {
            use_type_invariant(self);
        }
        match uses_altgr && self.contains(ModifiersStateSide::ralt()) {
            false => *self,
            true => {
                let mask = ModifiersStateSide::lctrl() | ModifiersStateSide::rctrl()
                    | ModifiersStateSide::lalt() | ModifiersStateSide::ralt();
                // `!` is spelt out: Verus takes the prefix form only on integers.
                let s = *self & std::ops::Not::not(mask);
                proof {
                    // Each operator's result is the value whose bits its spec gives.
                    ModifiersStateSide::lemma_from_view(LCTRL_BITS | RCTRL_BITS, mask);
                    ModifiersStateSide::lemma_from_view(LCTRL_BITS | RCTRL_BITS | LALT_BITS, mask);
                    ModifiersStateSide::lemma_from_view(ALTGR_MASK_BITS, mask);
                    ModifiersStateSide::lemma_from_view(!ALTGR_MASK_BITS & SIDE_ALL_BITS, s);
                    assert(LCTRL_BITS | RCTRL_BITS | LALT_BITS | RALT_BITS == ALTGR_MASK_BITS)
                        by (bit_vector);
                }
                let x = self.bits;
                assert(x & (!(LCTRL_BITS | RCTRL_BITS | LALT_BITS | RALT_BITS) & SIDE_ALL_BITS)
                    == x & !ALTGR_MASK_BITS) by (bit_vector)
                    requires
                        x & !SIDE_ALL_BITS == 0,
                ;
                s
            },
        }
    }
}

/// The sided flags `side` without control and alt when the right alt key is held on a
/// layout that has an AltGr key.
pub open spec fn filtered_side(side: u32, uses_altgr: bool) -> u32 {
    if uses_altgr && side & RALT_BITS == RALT_BITS {
        side & !ALTGR_MASK_BITS
    } else {
        side
    }
}

impl std::ops::BitOr for ModifiersStateSide {
    type Output = ModifiersStateSide;

    /// The flags set in either.
    fn bitor(self, rhs: ModifiersStateSide) -> (s: ModifiersStateSide) {
        let s = self.union(rhs);
        proof {
            ModifiersStateSide::lemma_from_view(s@, s);
        }
        s
    }
}

impl vstd::std_specs::ops::BitOrSpecImpl for ModifiersStateSide {
    open spec fn obeys_bitor_spec() -> bool {
        true
    }

    open spec fn bitor_req(self, rhs: ModifiersStateSide) -> bool {
        true
    }

    open spec fn bitor_spec(self, rhs: ModifiersStateSide) -> ModifiersStateSide {
        ModifiersStateSide::from_view(self@ | rhs@)
    }
}

impl std::ops::BitAnd for ModifiersStateSide {
    type Output = ModifiersStateSide;

    /// The flags set in both.
    fn bitand(self, rhs: ModifiersStateSide) -> (s: ModifiersStateSide) {
        let s = self.intersection(rhs);
        proof {
            ModifiersStateSide::lemma_from_view(s@, s);
        }
        s
    }
}

impl vstd::std_specs::ops::BitAndSpecImpl for ModifiersStateSide {
    open spec fn obeys_bitand_spec() -> bool {
        true
    }

    open spec fn bitand_req(self, rhs: ModifiersStateSide) -> bool {
        true
    }

    open spec fn bitand_spec(self, rhs: ModifiersStateSide) -> ModifiersStateSide {
        ModifiersStateSide::from_view(self@ & rhs@)
    }
}

impl std::ops::BitXor for ModifiersStateSide {
    type Output = ModifiersStateSide;

    /// The flags set in exactly one of the two.
    fn bitxor(self, rhs: ModifiersStateSide) -> (s: ModifiersStateSide) {
        let s = self.symmetric_difference(rhs);
        proof {
            ModifiersStateSide::lemma_from_view(s@, s);
        }
        s
    }
}

impl vstd::std_specs::ops::BitXorSpecImpl for ModifiersStateSide {
    open spec fn obeys_bitxor_spec() -> bool {
        true
    }

    open spec fn bitxor_req(self, rhs: ModifiersStateSide) -> bool {
        true
    }

    open spec fn bitxor_spec(self, rhs: ModifiersStateSide) -> ModifiersStateSide {
        ModifiersStateSide::from_view(self@ ^ rhs@)
    }
}

impl std::ops::Sub for ModifiersStateSide {
    type Output = ModifiersStateSide;

    /// The flags set in the left one and not in the right one.
    fn sub(self, rhs: ModifiersStateSide) -> (s: ModifiersStateSide) {
        let s = self.difference(rhs);
        proof {
            ModifiersStateSide::lemma_from_view(s@, s);
        }
        s
    }
}

impl vstd::std_specs::ops::SubSpecImpl for ModifiersStateSide {
    open spec fn obeys_sub_spec() -> bool {
        true
    }

    open spec fn sub_req(self, rhs: ModifiersStateSide) -> bool {
        true
    }

    open spec fn sub_spec(self, rhs: ModifiersStateSide) -> ModifiersStateSide {
        ModifiersStateSide::from_view(self@ & !rhs@)
    }
}

impl std::ops::Not for ModifiersStateSide {
    type Output = ModifiersStateSide;

    /// The known flags that are not set.
    fn not(self) -> (s: ModifiersStateSide) {
        let s = self.complement();
        proof {
            ModifiersStateSide::lemma_from_view(s@, s);
        }
        s
    }
}

impl vstd::std_specs::ops::NotSpecImpl for ModifiersStateSide {
    open spec fn obeys_not_spec() -> bool {
        true
    }

    open spec fn not_req(self) -> bool {
        true
    }

    open spec fn not_spec(self) -> ModifiersStateSide {
        ModifiersStateSide::from_view(!self@ & SIDE_ALL_BITS)
    }
}

impl Default for ModifiersStateSide {
    /// No flag set.
    fn default() -> (s: ModifiersStateSide)
        ensures
            s@ == 0,
    {
        ModifiersStateSide::empty()
    }
}

/// The modifier bits that the sided flags `side` amount to: a modifier is held when it is
/// held on either side.
pub open spec fn modifiers_of_side(side: u32) -> u32 {
    (if side & (LSHIFT_BITS | RSHIFT_BITS) != 0 {
        SHIFT_BITS
    } else {
        0
    }) | (if side & (LCTRL_BITS | RCTRL_BITS) != 0 {
        CTRL_BITS
    } else {
        0
    }) | (if side & (LALT_BITS | RALT_BITS) != 0 {
        ALT_BITS
    } else {
        0
    }) | (if side & (LLOGO_BITS | RLOGO_BITS) != 0 {
        LOGO_BITS
    } else {
        0
    })
}

impl From<ModifiersStateSide> for ModifiersState {
    fn from(side: ModifiersStateSide) -> (state: ModifiersState) {
        let mut state = ModifiersState::default();
        state.set(
            ModifiersState::shift(),
            side.intersects(ModifiersStateSide::lshift().union(ModifiersStateSide::rshift())),
        );
        state.set(
            ModifiersState::ctrl(),
            side.intersects(ModifiersStateSide::lctrl().union(ModifiersStateSide::rctrl())),
        );
        state.set(
            ModifiersState::alt(),
            side.intersects(ModifiersStateSide::lalt().union(ModifiersStateSide::ralt())),
        );
        state.set(
            ModifiersState::logo(),
            side.intersects(ModifiersStateSide::llogo().union(ModifiersStateSide::rlogo())),
        );
        proof {
            let b = side@;
            let s0 = 0u32;
            let s1 = if b & (LSHIFT_BITS | RSHIFT_BITS) != 0 { s0 | SHIFT_BITS } else { s0 & !SHIFT_BITS };
            let s2 = if b & (LCTRL_BITS | RCTRL_BITS) != 0 { s1 | CTRL_BITS } else { s1 & !CTRL_BITS };
            let s3 = if b & (LALT_BITS | RALT_BITS) != 0 { s2 | ALT_BITS } else { s2 & !ALT_BITS };
            let s4 = if b & (LLOGO_BITS | RLOGO_BITS) != 0 { s3 | LOGO_BITS } else { s3 & !LOGO_BITS };
            assert(s4 == modifiers_of_side(b)) by (bit_vector)
                requires
                    s0 == 0u32,
                    s1 == if b & (LSHIFT_BITS | RSHIFT_BITS) != 0 { s0 | SHIFT_BITS } else { s0 & !SHIFT_BITS },
                    s2 == if b & (LCTRL_BITS | RCTRL_BITS) != 0 { s1 | CTRL_BITS } else { s1 & !CTRL_BITS },
                    s3 == if b & (LALT_BITS | RALT_BITS) != 0 { s2 | ALT_BITS } else { s2 & !ALT_BITS },
                    s4 == if b & (LLOGO_BITS | RLOGO_BITS) != 0 { s3 | LOGO_BITS } else { s3 & !LOGO_BITS },
            ;
            ModifiersState::lemma_from_view(s4, state);
        }
        state
    }
}

impl vstd::std_specs::convert::FromSpecImpl<ModifiersStateSide> for ModifiersState {
    open spec fn obeys_from_spec() -> bool {
        true
    }

    open spec fn from_spec(side: ModifiersStateSide) -> ModifiersState {
        ModifiersState::from_view(modifiers_of_side(side@))
    }
}

/// Whether a key is down, by the state that `GetKeyState` reports for it: the high-order
/// bit is set while the key is down.
pub fn key_pressed(key_state: i16) -> (down: bool)
    ensures
        down == (key_state < 0),
{
    let high: i16 = i16::MIN;
    assert((key_state & high == high) == (key_state < 0)) by (bit_vector)
        requires
            high == i16::MIN,
    ;
    (key_state & high) == high
}

/// The states that `GetKeyState` reports for the keys that make up the modifiers.
#[derive(Clone, Copy, Debug, PartialEq, Eq, Structural)]
pub struct ModifierKeyStates {
    /// Either shift key (`VK_SHIFT`).
    pub shift: i16,
    /// Either control key (`VK_CONTROL`).
    pub control: i16,
    /// Either alt key (`VK_MENU`).
    pub menu: i16,
    /// The left logo key (`VK_LWIN`).
    pub lwin: i16,
    /// The right logo key (`VK_RWIN`).
    pub rwin: i16,
    /// The right alt key (`VK_RMENU`).
    pub rmenu: i16,
}

/// The modifier bits held, given the key states and whether the layout has an AltGr key.
/// While AltGr is down on such a layout, control and alt do not count as held.
pub open spec fn key_mods(keys: ModifierKeyStates, uses_altgr: bool) -> u32 {
    let altgr_down = uses_altgr && keys.rmenu < 0;
    (if keys.shift < 0 {
        SHIFT_BITS
    } else {
        0
    }) | (if keys.control < 0 && !altgr_down {
        CTRL_BITS
    } else {
        0
    }) | (if keys.menu < 0 && !altgr_down {
        ALT_BITS
    } else {
        0
    }) | (if keys.lwin < 0 || keys.rwin < 0 {
        LOGO_BITS
    } else {
        0
    })
}

/// The modifiers held, from the key states that the system reports and whether the active
/// layout has an AltGr key.
pub fn get_key_mods(keys: &ModifierKeyStates, uses_altgr: bool) -> (mods: ModifiersState)
    ensures
        mods@ == key_mods(*keys, uses_altgr),
{
    let filter_out_altgr = uses_altgr && key_pressed(keys.rmenu);

    let mut mods = ModifiersState::empty();
    let shift = key_pressed(keys.shift);
    mods.set(ModifiersState::shift(), shift);
    let ctrl = key_pressed(keys.control) && !filter_out_altgr;
    mods.set(ModifiersState::ctrl(), ctrl);
    let alt = key_pressed(keys.menu) && !filter_out_altgr;
    mods.set(ModifiersState::alt(), alt);
    let logo = key_pressed(keys.lwin) || key_pressed(keys.rwin);
    mods.set(ModifiersState::logo(), logo);
    proof {
        let s0 = 0u32;
        let s1 = if shift { s0 | SHIFT_BITS } else { s0 & !SHIFT_BITS };
        let s2 = if ctrl { s1 | CTRL_BITS } else { s1 & !CTRL_BITS };
        let s3 = if alt { s2 | ALT_BITS } else { s2 & !ALT_BITS };
        let s4 = if logo { s3 | LOGO_BITS } else { s3 & !LOGO_BITS };
        assert(s4 == (if shift { SHIFT_BITS } else { 0 }) | (if ctrl { CTRL_BITS } else { 0 }) | (
        if alt {
            ALT_BITS
        } else {
            0
        }) | (if logo {
            LOGO_BITS
        } else {
            0
        })) by (bit_vector)
            requires
                s0 == 0u32,
                s1 == if shift { s0 | SHIFT_BITS } else { s0 & !SHIFT_BITS },
                s2 == if ctrl { s1 | CTRL_BITS } else { s1 & !CTRL_BITS },
                s3 == if alt { s2 | ALT_BITS } else { s2 & !ALT_BITS },
                s4 == if logo { s3 | LOGO_BITS } else { s3 & !LOGO_BITS },
        ;
    }
    mods
}

/// The virtual-key code and scancode of a key message once left and right are told apart,
/// or `None` for a message that only doubles another. `shift_vkey` is what the layout maps
/// the scancode to with `MAPVK_VSC_TO_VK_EX`; it tells the two shift keys apart.
pub open spec fn extended_key(vkey: i32, scancode: u32, extended: bool, shift_vkey: u32) -> Option<
    (i32, u32),
> {
    if vkey == VK_SHIFT {
        Some((shift_vkey as i32, scancode))
    } else if vkey == VK_CONTROL {
        Some((if extended { VK_RCONTROL } else { VK_LCONTROL }, scancode))
    } else if vkey == VK_MENU {
        Some((if extended { VK_RMENU } else { VK_LMENU }, scancode))
    } else if scancode == 0x1D && vkey == VK_PAUSE {
        // With raw input, Pause arrives twice: first with scancode 0x1D...
        None
    } else if scancode == 0x45 {
        // ...then with scancode 0x45 and a code that does not match.
        Some((VK_PAUSE, scancode))
    } else if scancode == 0x46 {
        // Pause and Scroll Lock share a scancode when modifiers are held.
        if extended {
            Some((VK_PAUSE, 0x45))
        } else {
            Some((VK_SCROLL, scancode))
        }
    } else {
        Some((vkey, scancode))
    }
}

/// Tells left from right for the modifier keys and sorts out Pause and Scroll Lock.
/// `shift_vkey` is what the layout maps `scancode` to with `MAPVK_VSC_TO_VK_EX`; it is
/// only read when `vkey` is `VK_SHIFT`.
pub fn handle_extended_keys(vkey: i32, scancode: u32, extended: bool, shift_vkey: u32) -> (r:
    Option<(i32, u32)>)
    ensures
        r == extended_key(vkey, scancode, extended, shift_vkey),
{
    // Welcome to hell https://blog.molecular-matters.com/2011/09/05/properly-handling-keyboard-input/
    let mut scancode = scancode;
    let vkey = match vkey {
        VK_SHIFT => shift_vkey as i32,
        VK_CONTROL => {
            if extended {
                VK_RCONTROL
            } else {
                VK_LCONTROL
            }
        },
        VK_MENU => {
            if extended {
                VK_RMENU
            } else {
                VK_LMENU
            }
        },
        _ => {
            match scancode {
                0x1D if vkey == VK_PAUSE => return None,
                0x45 => VK_PAUSE,
                0x46 => {
                    if extended {
                        scancode = 0x45;
                        VK_PAUSE
                    } else {
                        VK_SCROLL
                    }
                },
                _ => vkey,
            }
        },
    };
    Some((vkey, scancode))
}

/// The scancode of a key message: bits 16 to 23 of its `lparam`.
pub open spec fn lparam_scancode(lparam: isize) -> u32 {
    ((lparam >> 16u32) & 0xff) as u32
}

/// Whether a key message is for an extended key: bit 24 of its `lparam`.
pub open spec fn lparam_extended(lparam: isize) -> bool {
    lparam & 0x01000000 != 0
}

/// Whether a key message repeats a key held down: its repeat count, bits 0 to 14 of its
/// `lparam`, is not zero.
pub open spec fn lparam_repeat(lparam: isize) -> bool {
    lparam & 0x7fff != 0
}

/// What a key message with parameters `wparam` and `lparam` reports: its scancode, its
/// logical key and whether it repeats, or `None` for a message to drop.
pub open spec fn key_message(wparam: usize, lparam: isize, shift_vkey: u32, chars: OemKeyChars) -> Option<
    (u32, Option<LogicalKey>, bool),
> {
    match extended_key(
        wparam as i32,
        lparam_scancode(lparam),
        lparam_extended(lparam),
        shift_vkey,
    ) {
        Some((vkey, scancode)) => Some((scancode, vkey_key(vkey, chars), lparam_repeat(lparam))),
        None => None,
    }
}

/// A scancode read from a key message fits in a byte, and so does every scancode that a
/// key message reports back.
pub proof fn lemma_key_message_scancode_is_a_byte(lparam: isize, wparam: usize, shift_vkey: u32)
    ensures
        lparam_scancode(lparam) < 0x100,
        extended_key(
            wparam as i32,
            lparam_scancode(lparam),
            lparam_extended(lparam),
            shift_vkey,
        ) matches Some((_, s)) ==> s < 0x100,
{
    let field = (lparam >> 16u32) & 0xff;
    assert(0 <= field < 0x100) by (bit_vector)
        requires
            field == (lparam >> 16u32) & 0xff,
    ;
}

/// The scancode of a key message, from its `lparam`.
pub fn key_scancode(lparam: isize) -> (scancode: u32)
    ensures
        scancode == lparam_scancode(lparam),
{
    ((lparam >> 16u32) & 0xff) as u32
}

/// What a key message with parameters `wparam` and `lparam` reports: its scancode, its
/// logical key and whether it repeats; `None` for a message to drop. `shift_vkey` is what
/// the layout maps the scancode to with `MAPVK_VSC_TO_VK_EX`, and `chars` what it maps the
/// layout-dependent keys to.
pub fn process_key_params(wparam: usize, lparam: isize, shift_vkey: u32, chars: &OemKeyChars) -> (r:
    Option<(u32, Option<LogicalKey>, bool)>)
    ensures
        r == key_message(wparam, lparam, shift_vkey, *chars),
{
    let scancode = key_scancode(lparam);
    let extended = (lparam & 0x01000000) != 0;
    let is_repeat = (lparam & 0x7fff) != 0;
    match handle_extended_keys(wparam as i32, scancode, extended, shift_vkey) {
        Some((vkey, scancode)) => Some((scancode, vkey_to_winit_vkey(vkey, chars), is_repeat)),
        None => None,
    }
}

/// Whether a key is down by its entry in the table that `GetKeyboardState` fills: the
/// high-order bit is set while the key is down.
pub open spec fn key_down(key_state: u8) -> bool {
    key_state >= 0x80
}

/// The codes below `n` of the keys down in `keyboard_state`, in increasing order.
pub open spec fn pressed_keys_below(keyboard_state: Seq<u8>, n: int) -> Seq<i32>
    decreases n,
{
    if n <= 0 {
        Seq::empty()
    } else {
        let below = pressed_keys_below(keyboard_state, n - 1);
        if key_down(keyboard_state[n - 1]) {
            below.push((n - 1) as i32)
        } else {
            below
        }
    }
}

/// The codes of the keys down in the table that `GetKeyboardState` fills, in increasing
/// order.
pub fn get_pressed_keys(keyboard_state: &[u8; 256]) -> (keys: Vec<i32>)
    ensures
        keys@ == pressed_keys_below(keyboard_state@, 256),
{
    let mut keys: Vec<i32> = Vec::new();
    let mut i: usize = 0;
    while i < 256
        invariant
            i <= 256,
            keys@ == pressed_keys_below(keyboard_state@, i as int),
        decreases 256 - i,
    {
        let p = keyboard_state[i];
        // whether or not a key is pressed is communicated via the high-order bit
        assert(((p & 0x80u8) != 0) == (p >= 0x80)) by (bit_vector);
        if (p & 0x80) != 0 {
            keys.push(i as i32);
        }
        i = i + 1;
    }
    keys
}

/// Whether `c` is the code of a Unicode scalar value, which a `char` holds.
pub open spec fn is_scalar_value(c: u32) -> bool {
    c < 0xD800 || (0xE000 <= c && c <= 0x10FFFF)
}

/// The character with code `c`, if `c` is a Unicode scalar value (`char::from_u32`).
#[verifier::external_body]
fn char_from_u32(c: u32) -> (r: Option<char>)
    ensures
        r == if is_scalar_value(c) {
            Some(c as char)
        } else {
            None
        },
{
    char::from_u32(c)
}

/// The first character of UTF-16 text that starts with the code units `u0` and `u1`, or
/// `None` when it starts with an unpaired surrogate.
pub open spec fn first_utf16_char(u0: u16, u1: u16) -> Option<char> {
    if u0 < 0xD800 || u0 > 0xDFFF {
        Some(u0 as char)
    } else if u0 <= 0xDBFF && 0xDC00 <= u1 && u1 <= 0xDFFF {
        Some((0x10000 + (u0 - 0xD800) * 0x400 + (u1 - 0xDC00)) as char)
    } else {
        None
    }
}

/// The character that a key types, given what `ToUnicodeEx` returned (`len`) and the text it
/// wrote (`buffer`): the first character of the text, when it wrote any.
pub open spec fn key_char(len: i32, buffer: Seq<u16>) -> Option<char> {
    if len >= 1 {
        first_utf16_char(buffer[0], buffer[1])
    } else {
        None
    }
}

/// The character that a key types, from what `ToUnicodeEx` returned: `len` is its result
/// and `buffer` the UTF-16 text it wrote. No character when it wrote none.
pub fn decode_key_char(len: i32, buffer: &[u16; 5]) -> (c: Option<char>)
    ensures
        c == key_char(len, buffer@),
{
    if len >= 1 {
        let u0 = buffer[0];
        if u0 < 0xD800 || u0 > 0xDFFF {
            char_from_u32(u0 as u32)
        } else if u0 <= 0xDBFF {
            let u1 = buffer[1];
            if 0xDC00 <= u1 && u1 <= 0xDFFF {
                let high = (u0 - 0xD800) as u32;
                let low = (u1 - 0xDC00) as u32;
                assert(high * 0x400 <= 0x3FF * 0x400) by (nonlinear_arith)
                    requires
                        high <= 0x3FF,
                ;
                char_from_u32(0x10000 + high * 0x400 + low)
            } else {
                None
            }
        } else {
            None
        }
    } else {
        None
    }
}

/// The keyboard state that stands for AltGr held: the system reports AltGr as Ctrl+Alt.
pub open spec fn altgr_state_entry(i: int) -> u8 {
    if i == VK_MENU || i == VK_CONTROL {
        0x80
    } else {
        0
    }
}

/// A keyboard state with no key down.
pub fn empty_keyboard_state() -> (state: [u8; 256])
    ensures
        forall|i: int| 0 <= i < 256 ==> state@[i] == 0,
{
    [0u8; 256]
}

/// A keyboard state with only Ctrl and Alt down, which is how the system sees AltGr.
pub fn altgr_keyboard_state() -> (state: [u8; 256])
    ensures
        forall|i: int| 0 <= i < 256 ==> state@[i] == altgr_state_entry(i),
{
    // AltGr is an alias for Ctrl+Alt for... some reason. Whatever it is, those are the keypresses
    // we have to emulate to do an AltGr test.
    let mut state = [0u8; 256];
    state[VK_MENU as usize] = 0x80;
    state[VK_CONTROL as usize] = 0x80;
    state
}

/// Whether a key types something else with AltGr held than without: it types a character
/// both ways, and they differ.
pub open spec fn altgr_changes(noaltgr: Option<char>, altgr: Option<char>) -> bool {
    noaltgr is Some && altgr is Some && noaltgr->0 != altgr->0
}

/// A step of the AltGr test of a layout, which goes over the virtual keys in order.
#[derive(Clone, Copy, Debug, PartialEq, Eq, Structural)]
pub enum AltGrProbe {
    /// Look up what the key with this code types, without and with AltGr.
    Probe(u32),
    /// The test is over: whether the layout has an AltGr key.
    Decided(bool),
}

/// What the test does after key `v_key` typed `noaltgr` without and `altgr` with AltGr.
pub open spec fn probe_step(v_key: u32, noaltgr: Option<char>, altgr: Option<char>) -> AltGrProbe {
    if altgr_changes(noaltgr, altgr) {
        AltGrProbe::Decided(true)
    } else if v_key >= 255 {
        AltGrProbe::Decided(false)
    } else {
        AltGrProbe::Probe((v_key + 1) as u32)
    }
}

/// Where the AltGr test of a layout starts: at the first virtual key.
pub fn altgr_probe_start() -> (p: AltGrProbe)
    ensures
        p == AltGrProbe::Probe(0),
{
    AltGrProbe::Probe(0)
}

/// The next step of the AltGr test, after key `v_key` typed `noaltgr` without and `altgr`
/// with AltGr: the layout uses AltGr as soon as a key types two different characters, and
/// does not when no key up to the last one does.
pub fn altgr_probe_next(v_key: u32, noaltgr: Option<char>, altgr: Option<char>) -> (p: AltGrProbe)
    requires
        v_key <= 255,
    ensures
        p == probe_step(v_key, noaltgr, altgr),
{
    if let (Some(noaltgr), Some(altgr)) = (noaltgr, altgr) {
        if noaltgr != altgr {
            return AltGrProbe::Decided(true);
        }
    }
    if v_key == 255 {
        AltGrProbe::Decided(false)
    } else {
        AltGrProbe::Probe(v_key + 1)
    }
}

/// The outcome of the AltGr test from key `v_key` on, where `typed[k]` is what key `k`
/// types without and with AltGr.
pub open spec fn probe_run(typed: Seq<(Option<char>, Option<char>)>, v_key: int) -> bool
    decreases 256 - v_key,
{
    if v_key < 0 || v_key > 255 {
        false
    } else if altgr_changes(typed[v_key].0, typed[v_key].1) {
        true
    } else {
        probe_run(typed, v_key + 1)
    }
}

/// What the AltGr test remembers between calls: the layout it last saw and its answer
/// for the layout it last finished.
#[derive(Clone, Copy, Debug, PartialEq, Eq, Structural)]
pub struct AltGrCache {
    active_layout: usize,
    uses_altgr: bool,
}

impl View for AltGrCache {
    /// The handle of the active layout and the remembered answer.
    type V = (usize, bool);

    closed spec fn view(&self) -> (usize, bool) {
        (self.active_layout, self.uses_altgr)
    }
}

/// The cache once `layout` is made the active layout; the answer is kept.
pub open spec fn cache_activated(cache: (usize, bool), layout: usize) -> (usize, bool) {
    (layout, cache.1)
}

/// What making `layout` active answers: the remembered answer when `layout` already was the
/// active layout, else nothing, and the test has to be run.
pub open spec fn cache_answer(cache: (usize, bool), layout: usize) -> Option<bool> {
    if cache.0 == layout {
        Some(cache.1)
    } else {
        None
    }
}

/// The cache once the answer `uses_altgr` is remembered for the active layout.
pub open spec fn cache_remembered(cache: (usize, bool), uses_altgr: bool) -> (usize, bool) {
    (cache.0, uses_altgr)
}

impl AltGrCache {
    /// No layout seen yet (the null handle) and no AltGr.
    pub fn new() -> (c: AltGrCache)
        ensures
            c@ == (0usize, false),
    {
        AltGrCache { active_layout: 0, uses_altgr: false }
    }

    /// Makes `layout` the active layout, and gives the remembered answer when it already was.
    pub fn activate(&mut self, layout: usize) -> (answer: Option<bool>)
        ensures
            final(self)@ == cache_activated(old(self)@, layout),
            answer == cache_answer(old(self)@, layout),
    {
        let old_layout = self.active_layout;
        self.active_layout = layout;
        if layout == old_layout {
            Some(self.uses_altgr)
        } else {
            None
        }
    }

    /// Remembers `uses_altgr` as the answer for the active layout.
    pub fn remember(&mut self, uses_altgr: bool)
        ensures
            final(self)@ == cache_remembered(old(self)@, uses_altgr),
    {
        self.uses_altgr = uses_altgr;
    }
}

/// Once the answer for a layout is remembered, making that layout active again gives the
/// answer back without running the test; and so it does for as long as it stays active.
pub proof fn lemma_cache_remembers(cache: (usize, bool), layout: usize, uses_altgr: bool)
    ensures
        cache_answer(cache_remembered(cache_activated(cache, layout), uses_altgr), layout) == Some(
            uses_altgr,
        ),
        cache_activated(cache_remembered(cache_activated(cache, layout), uses_altgr), layout)
            == cache_remembered(cache_activated(cache, layout), uses_altgr),
{
}

/// A layout other than the active one is never answered from the cache.
pub proof fn lemma_cache_new_layout_runs_test(cache: (usize, bool), layout: usize)
    requires
        cache.0 != layout,
    ensures
        cache_answer(cache, layout) is None,
{
}

/// The answer of the AltGr test for a layout whose keys type `typed[k]` without and with
/// AltGr, key by key.
pub open spec fn altgr_test_answer(typed: Seq<(Option<char>, Option<char>)>) -> bool {
    probe_run(typed, 0)
}

/// Whether the cache holds the test's answer for the layout it remembers, where the keys
/// of layout `l` type `typed(l)`. The null handle, which the cache starts from, is left out.
pub open spec fn cache_faithful(
    cache: (usize, bool),
    typed: spec_fn(usize) -> Seq<(Option<char>, Option<char>)>,
) -> bool {
    cache.0 != 0 ==> cache.1 == altgr_test_answer(typed(cache.0))
}

/// One query of whether the active layout `layout` has an AltGr key: the cache is asked
/// first, and when it has no answer the test is run and its answer remembered. Gives the
/// cache after the query and the answer.
pub open spec fn altgr_query(
    cache: (usize, bool),
    layout: usize,
    typed: spec_fn(usize) -> Seq<(Option<char>, Option<char>)>,
) -> ((usize, bool), bool) {
    match cache_answer(cache, layout) {
        Some(b) => (cache_activated(cache, layout), b),
        None => {
            let answer = altgr_test_answer(typed(layout));
            (cache_remembered(cache_activated(cache, layout), answer), answer)
        },
    }
}

/// The answers of a run of queries, one per layout in `layouts`, from the cache `cache`.
pub open spec fn altgr_queries(
    cache: (usize, bool),
    layouts: Seq<usize>,
    typed: spec_fn(usize) -> Seq<(Option<char>, Option<char>)>,
) -> Seq<bool>
    decreases layouts.len(),
{
    if layouts.len() == 0 {
        Seq::empty()
    } else {
        let (next, answer) = altgr_query(cache, layouts[0], typed);
        seq![answer] + altgr_queries(next, layouts.drop_first(), typed)
    }
}

/// A query keeps the cache faithful to the test, and for a layout other than the null
/// handle it answers what the test answers for that layout, served from the cache or not.
pub proof fn lemma_altgr_query_faithful(
    cache: (usize, bool),
    layout: usize,
    typed: spec_fn(usize) -> Seq<(Option<char>, Option<char>)>,
)
    requires
        cache_faithful(cache, typed),
    ensures
        cache_faithful(altgr_query(cache, layout, typed).0, typed),
        layout != 0 ==> altgr_query(cache, layout, typed).1 == altgr_test_answer(typed(layout)),
{
}

/// Over any run of queries from a new cache, with any layouts in between, each query for a
/// layout other than the null handle answers the test's result for that layout: the answer
/// depends on the active layout only.
pub proof fn lemma_altgr_queries_depend_on_layout_only(
    cache: (usize, bool),
    layouts: Seq<usize>,
    typed: spec_fn(usize) -> Seq<(Option<char>, Option<char>)>,
)
    requires
        cache_faithful(cache, typed),
    ensures
        altgr_queries(cache, layouts, typed).len() == layouts.len(),
        forall|i: int|
            0 <= i < layouts.len() && layouts[i] != 0 ==> #[trigger] altgr_queries(
                cache,
                layouts,
                typed,
            )[i] == altgr_test_answer(typed(layouts[i])),
    decreases layouts.len(),
{
    if layouts.len() > 0 {
        let (next, answer) = altgr_query(cache, layouts[0], typed);
        lemma_altgr_query_faithful(cache, layouts[0], typed);
        lemma_altgr_queries_depend_on_layout_only(next, layouts.drop_first(), typed);
        let rest = altgr_queries(next, layouts.drop_first(), typed);
        assert forall|i: int|
            0 <= i < layouts.len() && layouts[i] != 0 implies #[trigger] altgr_queries(
            cache,
            layouts,
            typed,
        )[i] == altgr_test_answer(typed(layouts[i])) by {
            if i > 0 {
                assert(layouts.drop_first()[i - 1] == layouts[i]);
                assert(altgr_queries(cache, layouts, typed)[i] == rest[i - 1]);
            }
        }
    }
}

/// Two queries in a run, from a new cache, made while the same layout is active give the
/// same answer, whatever layouts were queried in between.
pub proof fn lemma_altgr_same_layout_same_answer(
    layouts: Seq<usize>,
    typed: spec_fn(usize) -> Seq<(Option<char>, Option<char>)>,
    i: int,
    j: int,
)
    requires
        0 <= i < layouts.len(),
        0 <= j < layouts.len(),
        layouts[i] == layouts[j],
        layouts[i] != 0,
    ensures
        altgr_queries((0usize, false), layouts, typed)[i] == altgr_queries(
            (0usize, false),
            layouts,
            typed,
        )[j],
{
    lemma_altgr_queries_depend_on_layout_only((0usize, false), layouts, typed);
}

/// A new cache is faithful to every layout's test.
pub proof fn lemma_new_cache_faithful(typed: spec_fn(usize) -> Seq<(Option<char>, Option<char>)>)
    ensures
        cache_faithful((0usize, false), typed),
{
}

/// Telling AltGr apart is done once: filtering flags already filtered changes nothing.
pub proof fn lemma_filter_out_altgr_idempotent(side: u32, uses_altgr: bool)
    ensures
        filtered_side(filtered_side(side, uses_altgr), uses_altgr) == filtered_side(
            side,
            uses_altgr,
        ),
{
    let f = filtered_side(side, uses_altgr);
    if uses_altgr && side & RALT_BITS == RALT_BITS {
        assert(f == side & !ALTGR_MASK_BITS);
        assert((side & !ALTGR_MASK_BITS) & RALT_BITS != RALT_BITS) by (bit_vector);
    }
}

/// Filtering only ever takes flags away, and it takes away exactly control and alt, on
/// both sides, while AltGr is held on a layout that has it; the other flags stay.
pub proof fn lemma_filter_out_altgr_removes_only_altgr(side: u32, uses_altgr: bool)
    ensures
        filtered_side(side, uses_altgr) & !side == 0,
        filtered_side(side, uses_altgr) & !ALTGR_MASK_BITS == side & !ALTGR_MASK_BITS,
        uses_altgr && side & RALT_BITS == RALT_BITS ==> filtered_side(side, uses_altgr)
            & ALTGR_MASK_BITS == 0,
        !(uses_altgr && side & RALT_BITS == RALT_BITS) ==> filtered_side(side, uses_altgr)
            == side,
{
    assert((side & !ALTGR_MASK_BITS) & !side == 0) by (bit_vector);
    assert(side & !side == 0) by (bit_vector);
    assert((side & !ALTGR_MASK_BITS) & !ALTGR_MASK_BITS == side & !ALTGR_MASK_BITS)
        by (bit_vector);
    assert((side & !ALTGR_MASK_BITS) & ALTGR_MASK_BITS == 0) by (bit_vector);
}

/// While AltGr is held on a layout that has it, the modifiers of the filtered flags hold
/// neither control nor alt.
pub proof fn lemma_altgr_holds_no_ctrl_alt(side: u32)
    requires
        side & RALT_BITS == RALT_BITS,
    ensures
        modifiers_of_side(filtered_side(side, true)) & (CTRL_BITS | ALT_BITS) == 0,
{
    let f = side & !ALTGR_MASK_BITS;
    assert(modifiers_of_side(f) & (CTRL_BITS | ALT_BITS) == 0) by (bit_vector)
        requires
            f == side & !ALTGR_MASK_BITS,
    ;
}

/// Whether the sided flags `side` say the same keys are down as the key states `keys`.
pub open spec fn side_matches_keys(side: u32, keys: ModifierKeyStates) -> bool {
    &&& (side & (LSHIFT_BITS | RSHIFT_BITS) != 0) == (keys.shift < 0)
    &&& (side & (LCTRL_BITS | RCTRL_BITS) != 0) == (keys.control < 0)
    &&& (side & (LALT_BITS | RALT_BITS) != 0) == (keys.menu < 0)
    &&& (side & RALT_BITS != 0) == (keys.rmenu < 0)
    &&& (side & LLOGO_BITS != 0) == (keys.lwin < 0)
    &&& (side & RLOGO_BITS != 0) == (keys.rwin < 0)
}

/// The two ways to find the modifiers agree: from the key states (`get_key_mods`), and
/// from the sided flags of the same keys, filtered for AltGr and then merged
/// (`filter_out_altgr`, then `ModifiersState::from`).
pub proof fn lemma_key_mods_agree_with_side(side: u32, keys: ModifierKeyStates, uses_altgr: bool)
    requires
        side_matches_keys(side, keys),
    ensures
        modifiers_of_side(filtered_side(side, uses_altgr)) == key_mods(keys, uses_altgr),
{
    let shift = keys.shift < 0;
    let ctrl = keys.control < 0;
    let alt = keys.menu < 0;
    let ralt = keys.rmenu < 0;
    let lwin = keys.lwin < 0;
    let rwin = keys.rwin < 0;
    let f = filtered_side(side, uses_altgr);
    assert(side & RALT_BITS == RALT_BITS <==> side & RALT_BITS != 0) by (bit_vector);
    assert(modifiers_of_side(f) == (if shift { SHIFT_BITS } else { 0 }) | (if ctrl && !(uses_altgr
        && ralt) {
        CTRL_BITS
    } else {
        0
    }) | (if alt && !(uses_altgr && ralt) {
        ALT_BITS
    } else {
        0
    }) | (if lwin || rwin {
        LOGO_BITS
    } else {
        0
    })) by (bit_vector)
        requires
            f == if uses_altgr && side & RALT_BITS == RALT_BITS {
                side & !ALTGR_MASK_BITS
            } else {
                side
            },
            (side & (LSHIFT_BITS | RSHIFT_BITS) != 0) == shift,
            (side & (LCTRL_BITS | RCTRL_BITS) != 0) == ctrl,
            (side & (LALT_BITS | RALT_BITS) != 0) == alt,
            (side & RALT_BITS != 0) == ralt,
            (side & LLOGO_BITS != 0) == lwin,
            (side & RLOGO_BITS != 0) == rwin,
    ;
}

/// Around the generic modifier codes, the sides are always told apart: a key message for
/// a control or alt key comes out as the left or the right one, and only the doubled Pause
/// message is dropped. The scancode is kept, except that Pause with modifiers gets its own.
pub proof fn lemma_extended_keys_tell_sides(vkey: i32, scancode: u32, extended: bool, shift_vkey: u32)
    ensures
        extended_key(vkey, scancode, extended, shift_vkey) is None <==> (vkey == VK_PAUSE
            && scancode == 0x1D),
        vkey != VK_SHIFT ==> (extended_key(vkey, scancode, extended, shift_vkey) matches Some(
            (v, _),
        ) ==> v != VK_CONTROL && v != VK_MENU),
        vkey == VK_CONTROL ==> extended_key(vkey, scancode, extended, shift_vkey) == Some(
            (if extended { VK_RCONTROL } else { VK_LCONTROL }, scancode),
        ),
        vkey == VK_MENU ==> extended_key(vkey, scancode, extended, shift_vkey) == Some(
            (if extended { VK_RMENU } else { VK_LMENU }, scancode),
        ),
        extended_key(vkey, scancode, extended, shift_vkey) matches Some((_, s)) ==> (s == scancode
            || (scancode == 0x46 && s == 0x45 && extended)),
{
}

/// What stepping the AltGr test does agrees with its outcome: a decision is the outcome
/// from this key on, and moving on goes to the next key with the same outcome.
pub proof fn lemma_probe_step_follows_run(typed: Seq<(Option<char>, Option<char>)>, v_key: u32)
    requires
        v_key <= 255,
    ensures
        match probe_step(v_key, typed[v_key as int].0, typed[v_key as int].1) {
            AltGrProbe::Decided(b) => b == probe_run(typed, v_key as int),
            AltGrProbe::Probe(next) => next == v_key + 1 && probe_run(typed, v_key as int)
                == probe_run(typed, next as int),
        },
{
    assert(probe_run(typed, 256) == false);
}

/// The AltGr test of a layout finds an AltGr key exactly when some virtual key, from the
/// one it starts at, types two different characters without and with AltGr.
pub proof fn lemma_probe_run_finds_altgr(typed: Seq<(Option<char>, Option<char>)>, v_key: int)
    requires
        0 <= v_key <= 256,
    ensures
        probe_run(typed, v_key) <==> exists|k: int|
            v_key <= k <= 255 && #[trigger] altgr_changes(typed[k].0, typed[k].1),
    decreases 256 - v_key,
{
    if v_key < 256 {
        lemma_probe_run_finds_altgr(typed, v_key + 1);
        if probe_run(typed, v_key) && !altgr_changes(typed[v_key].0, typed[v_key].1) {
            let k = choose|k: int|
                v_key + 1 <= k <= 255 && #[trigger] altgr_changes(typed[k].0, typed[k].1);
            assert(v_key <= k <= 255);
        }
    }
}

/// The pressed keys are exactly the codes whose key is down, each once and in increasing
/// order.
pub proof fn lemma_pressed_keys(keyboard_state: Seq<u8>, n: int)
    requires
        0 <= n <= keyboard_state.len(),
        n <= 0x8000_0000,
    ensures
        forall|i: int|
            0 <= i < n ==> (pressed_keys_below(keyboard_state, n).contains(i as i32) <==> key_down(
                #[trigger] keyboard_state[i],
            )),
        forall|j: int|
            0 <= j < pressed_keys_below(keyboard_state, n).len() ==> 0 <= #[trigger] pressed_keys_below(
                keyboard_state,
                n,
            )[j] < n,
        forall|j: int, k: int|
            0 <= j < k < pressed_keys_below(keyboard_state, n).len() ==> #[trigger] pressed_keys_below(
                keyboard_state,
                n,
            )[j] < #[trigger] pressed_keys_below(keyboard_state, n)[k],
    decreases n,
{
    if n > 0 {
        lemma_pressed_keys(keyboard_state, n - 1);
        let below = pressed_keys_below(keyboard_state, n - 1);
        let all = pressed_keys_below(keyboard_state, n);
        assert forall|i: int| 0 <= i < n implies (all.contains(i as i32) <==> key_down(
            #[trigger] keyboard_state[i],
        )) by {
            if i < n - 1 {
                if key_down(keyboard_state[n - 1]) {
                    if all.contains(i as i32) {
                        let j = choose|j: int| 0 <= j < all.len() && all[j] == i as i32;
                        if j == below.len() {
                            assert(all[j] == (n - 1) as i32);
                        } else {
                            assert(below[j] == i as i32);
                        }
                    }
                    if below.contains(i as i32) {
                        let j = choose|j: int| 0 <= j < below.len() && below[j] == i as i32;
                        assert(all[j] == i as i32);
                    }
                }
            } else {
                if key_down(keyboard_state[n - 1]) {
                    assert(all[below.len() as int] == i as i32);
                } else if all.contains(i as i32) {
                    let j = choose|j: int| 0 <= j < all.len() && all[j] == i as i32;
                    assert(below[j] < n - 1);
                }
            }
        }
    }
}

} // verus!
