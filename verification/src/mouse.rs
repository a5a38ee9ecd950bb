//! Mouse buttons and the last mouse state the host reported.

use vstd::prelude::*;

verus! {

/// A button of the host's mouse.
#[derive(Clone, Copy, Debug, PartialEq, Eq)]
pub enum MouseButton {
    Left,
    Right,
    Middle,
    Other(u8),
}

impl MouseButton {
    /// Which of left, right and middle the button is, in this order. An
    /// `Other` button is none of them.
    pub open spec fn flags(self) -> (bool, bool, bool) {
        (self is Left, self is Right, self is Middle)
    }

    /// Which of left, right and middle the button is, in this order.
    pub fn pressed_flags(self) -> (flags: (bool, bool, bool))
        ensures
            flags == self.flags(),
    {
        match self {
            MouseButton::Left => (true, false, false),
            MouseButton::Right => (false, true, false),
            MouseButton::Middle => (false, false, true),
            MouseButton::Other(_) => (false, false, false),
        }
    }
}

/// The last mouse position and button state that the host reported.
#[derive(Clone, Copy, Debug, PartialEq, Eq)]
pub struct MouseState {
    /// Position in whole pixels.
    pub pos: (i32, i32),
    /// Whether the left, right and middle buttons are held.
    pub pressed: (bool, bool, bool),
}

impl MouseState {
    /// The state before any event: the pointer at the origin, no button held.
    pub open spec fn initial() -> MouseState {
        MouseState { pos: (0, 0), pressed: (false, false, false) }
    }

    /// What the GUI's table of held mouse buttons holds for this state: the
    /// three known buttons, then two that are never reported.
    pub open spec fn buttons_down(self) -> Seq<bool> {
        seq![self.pressed.0, self.pressed.1, self.pressed.2, false, false]
    }
}

impl Default for MouseState {
    fn default() -> (state: MouseState)
        ensures
            state == MouseState::initial(),
    {
        MouseState { pos: (0, 0), pressed: (false, false, false) }
    }
}

} // verus!
