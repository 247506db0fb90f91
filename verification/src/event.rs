//! Platform-independent keyboard types: the modifier keys held and the logical keys.

use vstd::prelude::*;

verus! {

/// The bit of a shift key in `ModifiersState`.
pub const SHIFT_BITS: u32 = 0b100;
/// The bit of a control key in `ModifiersState`.
pub const CTRL_BITS: u32 = 0b100000;
/// The bit of an alt key in `ModifiersState`.
pub const ALT_BITS: u32 = 0b100000000;
/// The bit of a logo key in `ModifiersState`.
pub const LOGO_BITS: u32 = 0b100000000000;
/// The bits of all modifier flags that `ModifiersState` knows.
pub const MODIFIERS_ALL_BITS: u32 = 0b100100100100;

/// Which modifier keys are held, without telling left from right.
#[derive(Clone, Copy, Debug, PartialEq, Eq, Hash, Structural)]
pub struct ModifiersState {
    bits: u32,
}

impl View for ModifiersState {
    type V = u32;

    closed spec fn view(&self) -> u32 {
        self.bits
    }
}

impl Default for ModifiersState {
    fn default() -> (m: ModifiersState)
        ensures
            m@ == 0,
    {
        ModifiersState::empty()
    }
}

impl ModifiersState {
    /// A shift key.
    pub fn shift() -> (m: ModifiersState)
        ensures
            m@ == SHIFT_BITS,
    {
        ModifiersState { bits: SHIFT_BITS }
    }

    /// A control key.
    pub fn ctrl() -> (m: ModifiersState)
        ensures
            m@ == CTRL_BITS,
    {
        ModifiersState { bits: CTRL_BITS }
    }

    /// An alt key.
    pub fn alt() -> (m: ModifiersState)
        ensures
            m@ == ALT_BITS,
    {
        ModifiersState { bits: ALT_BITS }
    }

    /// A logo key (the Windows key).
    pub fn logo() -> (m: ModifiersState)
        ensures
            m@ == LOGO_BITS,
    {
        ModifiersState { bits: LOGO_BITS }
    }

    /// No modifier held.
    pub fn empty() -> (m: ModifiersState)
        ensures
            m@ == 0,
    {
        ModifiersState { bits: 0 }
    }

    /// The modifiers whose bits are `bits`.
    pub closed spec fn from_view(bits: u32) -> ModifiersState {
        ModifiersState { bits }
    }

    /// A value of `ModifiersState` is its bits.
    pub proof fn lemma_from_view(bits: u32, m: ModifiersState)
        ensures
            ModifiersState::from_view(bits)@ == bits,
            ModifiersState::from_view(m@) == m,
    {
    }

    /// The raw bits.
    pub fn bits(&self) -> (b: u32)
        ensures
            b == self@,
    {
        self.bits
    }

    /// The modifiers whose bits are set in `bits`; unknown bits are dropped.
    pub fn from_bits_truncate(bits: u32) -> (m: ModifiersState)
        ensures
            m@ == bits & MODIFIERS_ALL_BITS,
    {
        ModifiersState { bits: bits & MODIFIERS_ALL_BITS }
    }

    /// Whether every modifier of `other` is held in `self`.
    pub fn contains(&self, other: ModifiersState) -> (b: bool)
        ensures
            b == (self@ & other@ == other@),
    {
        self.bits & other.bits == other.bits
    }

    /// Whether `self` and `other` share a modifier.
    pub fn intersects(&self, other: ModifiersState) -> (b: bool)
        ensures
            b == (self@ & other@ != 0),
    {
        self.bits & other.bits != 0
    }

    /// Adds the modifiers of `other` when `value` holds, removes them otherwise.
    pub fn set(&mut self, other: ModifiersState, value: bool)
        ensures
            final(self)@ == if value {
                old(self)@ | other@
            } else {
                old(self)@ & !other@
            },
    {
        if value {
            self.bits = self.bits | other.bits;
        } else {
            self.bits = self.bits & !other.bits;
        }
    }
}

/// A key, named by what it stands for rather than by where it sits on the keyboard.
#[derive(Clone, Copy, Debug, PartialEq, Eq, Hash, PartialOrd, Ord, Structural)]
pub enum LogicalKey {
    Back,
    Tab,
    Return,
    LShift,
    RShift,
    LControl,
    RControl,
    LAlt,
    RAlt,
    Pause,
    Capital,
    Kana,
    Kanji,
    Escape,
    Convert,
    NoConvert,
    Space,
    PageUp,
    PageDown,
    End,
    Home,
    Left,
    Up,
    Right,
    Down,
    Snapshot,
    Insert,
    Delete,
    Key0,
    Key1,
    Key2,
    Key3,
    Key4,
    Key5,
    Key6,
    Key7,
    Key8,
    Key9,
    A,
    B,
    C,
    D,
    E,
    F,
    G,
    H,
    I,
    J,
    K,
    L,
    M,
    N,
    O,
    P,
    Q,
    R,
    S,
    T,
    U,
    V,
    W,
    X,
    Y,
    Z,
    LWin,
    RWin,
    Apps,
    Sleep,
    Numpad0,
    Numpad1,
    Numpad2,
    Numpad3,
    Numpad4,
    Numpad5,
    Numpad6,
    Numpad7,
    Numpad8,
    Numpad9,
    Multiply,
    Add,
    Subtract,
    Decimal,
    Divide,
    F1,
    F2,
    F3,
    F4,
    F5,
    F6,
    F7,
    F8,
    F9,
    F10,
    F11,
    F12,
    F13,
    F14,
    F15,
    F16,
    F17,
    F18,
    F19,
    F20,
    F21,
    F22,
    F23,
    F24,
    Numlock,
    Scroll,
    NavigateBackward,
    NavigateForward,
    WebRefresh,
    WebStop,
    WebSearch,
    WebFavorites,
    WebHome,
    Mute,
    VolumeDown,
    VolumeUp,
    NextTrack,
    PrevTrack,
    MediaStop,
    PlayPause,
    Mail,
    MediaSelect,
    Equals,
    Comma,
    Minus,
    Period,
    OEM102,
    Semicolon,
    Slash,
    Grave,
    LBracket,
    RBracket,
    Apostrophe,
    Backslash,
}

} // verus!
