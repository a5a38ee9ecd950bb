//! What each event of the host's window does to the wrapper.

use crate::keys::{KeyMods, NavKey};
use crate::mouse::MouseButton;
use crate::wrapper::ImGuiWrapper;
use vstd::prelude::*;

verus! {

/// Whether the GUI is told about the key that the host reports as `keycode`.
pub open spec fn reaches_gui(keycode: u32) -> bool {
    exists|key: NavKey| key.host_code() == keycode
}

/// A key went down. The GUI hears of it if the key is a [`NavKey`]; any other
/// key changes nothing.
pub fn key_down_event(wrapper: &mut ImGuiWrapper, keycode: u32, keymods: KeyMods)
    ensures
        final(wrapper)@ == if reaches_gui(keycode) {
            old(wrapper)@.with_key(keycode as int, true, keymods)
        } else {
            old(wrapper)@
        },
{
    key_event(wrapper, keycode, true, keymods);
}

/// A key went up. The GUI hears of it if the key is a [`NavKey`]; any other
/// key changes nothing.
pub fn key_up_event(wrapper: &mut ImGuiWrapper, keycode: u32, keymods: KeyMods)
    ensures
        final(wrapper)@ == if reaches_gui(keycode) {
            old(wrapper)@.with_key(keycode as int, false, keymods)
        } else {
            old(wrapper)@
        },
{
    key_event(wrapper, keycode, false, keymods);
}

fn key_event(wrapper: &mut ImGuiWrapper, keycode: u32, pressed: bool, keymods: KeyMods)
    ensures
        final(wrapper)@ == if reaches_gui(keycode) {
            old(wrapper)@.with_key(keycode as int, pressed, keymods)
        } else {
            old(wrapper)@
        },
{
    match NavKey::from_code(keycode) {
        Some(key) => {
            proof {
                NavKey::codes_index_held_keys(key);
            }
            wrapper.update_key(keycode, pressed, keymods);
        },
        None => {},
    }
}

/// A mouse button went down: from now on that button counts as the one
/// held, and no other.
pub fn mouse_button_down_event(wrapper: &mut ImGuiWrapper, button: MouseButton)
    ensures
        final(wrapper)@ == old(wrapper)@.with_buttons(button.flags()),
{
    wrapper.update_mouse_down(button.pressed_flags());
}

/// A mouse button went up: from now on no button counts as held, whichever
/// it was.
pub fn mouse_button_up_event(wrapper: &mut ImGuiWrapper)
    ensures
        final(wrapper)@ == old(wrapper)@.with_buttons((false, false, false)),
{
    wrapper.update_mouse_down((false, false, false));
}

} // verus!
