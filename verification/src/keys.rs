//! Keys and modifiers as the host reports them.

use crate::io::KEYS_DOWN_LEN;
use vstd::prelude::*;

verus! {

/// How many keys of the host keyboard the GUI is told about.
pub const NAV_KEYS: usize = 16;

/// Bit of [`KeyMods`] for either shift key.
pub const MOD_SHIFT: u8 = 0b0001;

/// Bit of [`KeyMods`] for either control key.
pub const MOD_CTRL: u8 = 0b0010;

/// Bit of [`KeyMods`] for either alt key.
pub const MOD_ALT: u8 = 0b0100;

/// Bit of [`KeyMods`] for either logo key.
pub const MOD_LOGO: u8 = 0b1000;

/// A key of the host keyboard that the GUI is told about. The variants stand
/// in the order of the GUI's key map.
#[derive(Clone, Copy, Debug, PartialEq, Eq)]
pub enum NavKey {
    Tab,
    Left,
    Right,
    Up,
    Down,
    PageUp,
    PageDown,
    Home,
    End,
    Insert,
    Delete,
    Back,
    Space,
    Return,
    Escape,
    NumpadEnter,
}

impl NavKey {
    /// The key's entry in the GUI's key map.
    pub open spec fn slot_index(self) -> int {
        match self {
            NavKey::Tab => 0,
            NavKey::Left => 1,
            NavKey::Right => 2,
            NavKey::Up => 3,
            NavKey::Down => 4,
            NavKey::PageUp => 5,
            NavKey::PageDown => 6,
            NavKey::Home => 7,
            NavKey::End => 8,
            NavKey::Insert => 9,
            NavKey::Delete => 10,
            NavKey::Back => 11,
            NavKey::Space => 12,
            NavKey::Return => 13,
            NavKey::Escape => 14,
            NavKey::NumpadEnter => 15,
        }
    }

    /// The number under which the host reports the key: its position among
    /// the host's key codes.
    pub open spec fn host_code(self) -> int {
        match self {
            NavKey::Tab => 144,
            NavKey::Left => 70,
            NavKey::Right => 72,
            NavKey::Up => 71,
            NavKey::Down => 73,
            NavKey::PageUp => 69,
            NavKey::PageDown => 68,
            NavKey::Home => 65,
            NavKey::End => 67,
            NavKey::Insert => 64,
            NavKey::Delete => 66,
            NavKey::Back => 74,
            NavKey::Space => 76,
            NavKey::Return => 75,
            NavKey::Escape => 36,
            NavKey::NumpadEnter => 126,
        }
    }

    /// The key that owns entry `slot` of the key map.
    pub open spec fn key_at(slot: int) -> NavKey
        recommends
            0 <= slot < NAV_KEYS,
    {
        if slot == 0 {
            NavKey::Tab
        } else if slot == 1 {
            NavKey::Left
        } else if slot == 2 {
            NavKey::Right
        } else if slot == 3 {
            NavKey::Up
        } else if slot == 4 {
            NavKey::Down
        } else if slot == 5 {
            NavKey::PageUp
        } else if slot == 6 {
            NavKey::PageDown
        } else if slot == 7 {
            NavKey::Home
        } else if slot == 8 {
            NavKey::End
        } else if slot == 9 {
            NavKey::Insert
        } else if slot == 10 {
            NavKey::Delete
        } else if slot == 11 {
            NavKey::Back
        } else if slot == 12 {
            NavKey::Space
        } else if slot == 13 {
            NavKey::Return
        } else if slot == 14 {
            NavKey::Escape
        } else {
            NavKey::NumpadEnter
        }
    }

    /// The key's entry in the GUI's key map.
    pub fn slot(self) -> (slot: usize)
        ensures
            slot == self.slot_index(),
            slot < NAV_KEYS,
    {
        match self {
            NavKey::Tab => 0,
            NavKey::Left => 1,
            NavKey::Right => 2,
            NavKey::Up => 3,
            NavKey::Down => 4,
            NavKey::PageUp => 5,
            NavKey::PageDown => 6,
            NavKey::Home => 7,
            NavKey::End => 8,
            NavKey::Insert => 9,
            NavKey::Delete => 10,
            NavKey::Back => 11,
            NavKey::Space => 12,
            NavKey::Return => 13,
            NavKey::Escape => 14,
            NavKey::NumpadEnter => 15,
        }
    }

    /// The number under which the host reports the key.
    pub fn code(self) -> (code: u32)
        ensures
            code == self.host_code(),
    {
        match self {
            NavKey::Tab => 144,
            NavKey::Left => 70,
            NavKey::Right => 72,
            NavKey::Up => 71,
            NavKey::Down => 73,
            NavKey::PageUp => 69,
            NavKey::PageDown => 68,
            NavKey::Home => 65,
            NavKey::End => 67,
            NavKey::Insert => 64,
            NavKey::Delete => 66,
            NavKey::Back => 74,
            NavKey::Space => 76,
            NavKey::Return => 75,
            NavKey::Escape => 36,
            NavKey::NumpadEnter => 126,
        }
    }

    /// The key that owns entry `slot` of the GUI's key map.
    pub fn from_slot(slot: usize) -> (key: NavKey)
        requires
            slot < NAV_KEYS,
        ensures
            key == Self::key_at(slot as int),
    {
        match slot {
            0 => NavKey::Tab,
            1 => NavKey::Left,
            2 => NavKey::Right,
            3 => NavKey::Up,
            4 => NavKey::Down,
            5 => NavKey::PageUp,
            6 => NavKey::PageDown,
            7 => NavKey::Home,
            8 => NavKey::End,
            9 => NavKey::Insert,
            10 => NavKey::Delete,
            11 => NavKey::Back,
            12 => NavKey::Space,
            13 => NavKey::Return,
            14 => NavKey::Escape,
            _ => NavKey::NumpadEnter,
        }
    }

    /// The key that the host reports as `code`; `None` for every key that
    /// the GUI is not told about.
    pub fn from_code(code: u32) -> (found: Option<NavKey>)
        ensures
            match found {
                Some(key) => key.host_code() == code,
                None => forall|key: NavKey| key.host_code() != code,
            },
            forall|key: NavKey| key.host_code() == code ==> found == Some(key),
    {
        match code {
            144 => Some(NavKey::Tab),
            70 => Some(NavKey::Left),
            72 => Some(NavKey::Right),
            71 => Some(NavKey::Up),
            73 => Some(NavKey::Down),
            69 => Some(NavKey::PageUp),
            68 => Some(NavKey::PageDown),
            65 => Some(NavKey::Home),
            67 => Some(NavKey::End),
            64 => Some(NavKey::Insert),
            66 => Some(NavKey::Delete),
            74 => Some(NavKey::Back),
            76 => Some(NavKey::Space),
            75 => Some(NavKey::Return),
            36 => Some(NavKey::Escape),
            126 => Some(NavKey::NumpadEnter),
            _ => None,
        }
    }

    /// Distinct keys have distinct entries in the key map and distinct host
    /// codes.
    pub proof fn keys_are_told_apart(a: NavKey, b: NavKey)
        requires
            a != b,
        ensures
            a.slot_index() != b.slot_index(),
            a.host_code() != b.host_code(),
    {
    }

    /// The keys own the first `NAV_KEYS` entries of the key map, one each.
    pub proof fn slots_fill_the_front(key: NavKey, slot: int)
        ensures
            0 <= key.slot_index() < NAV_KEYS,
            Self::key_at(key.slot_index()) == key,
            0 <= slot < NAV_KEYS ==> Self::key_at(slot).slot_index() == slot,
    {
    }

    /// Every host code is an index into the GUI's table of held keys.
    pub proof fn codes_index_held_keys(key: NavKey)
        ensures
            0 <= key.host_code() < KEYS_DOWN_LEN,
    {
    }
}

/// The modifier keys held during a key event, one bit each: `MOD_SHIFT`,
/// `MOD_CTRL`, `MOD_ALT`, `MOD_LOGO`.
#[derive(Clone, Copy, Debug, PartialEq, Eq)]
pub struct KeyMods {
    pub bits: u8,
}

impl KeyMods {
    /// Whether any bit of `mask` is set.
    pub open spec fn has(self, mask: u8) -> bool {
        self.bits & mask != 0
    }

    /// The modifiers in the order in which the GUI keeps them: control,
    /// shift, alt, super.
    pub open spec fn flags(self) -> (bool, bool, bool, bool) {
        (self.has(MOD_CTRL), self.has(MOD_SHIFT), self.has(MOD_ALT), self.has(MOD_LOGO))
    }

    /// Whether any bit of `mask` is set.
    pub fn intersects(&self, mask: u8) -> (hit: bool)
        ensures
            hit == self.has(mask),
    {
        self.bits & mask != 0
    }
}

} // verus!
