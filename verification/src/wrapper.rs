//! The GUI context together with the input state that is handed to it once
//! per frame.

use crate::io::{
    add_input_character, im_string_new, im_string_text, io_input_queue, io_key_map, io_key_mods,
    io_keys_down, io_mouse_down, queue_after, set_key_down, set_key_map, set_key_mods,
    set_mouse_down, table_with, KEYS_DOWN_LEN, KEY_MAP_LEN,
};
use crate::keys::{KeyMods, NavKey, MOD_ALT, MOD_CTRL, MOD_LOGO, MOD_SHIFT, NAV_KEYS};
use crate::mouse::MouseState;
use vstd::prelude::*;

verus! {

/// What the widgets edit.
pub struct UiState {
    /// The contents of the text box.
    pub text: imgui::ImString,
}

impl UiState {
    /// A state whose text box reads `test buffer`.
    pub fn new() -> (state: UiState)
        ensures
            im_string_text(state.text) == "test buffer"@,
    {
        proof {
            reveal_strlit("test buffer");
        }
        UiState { text: im_string_new("test buffer") }
    }
}

/// What an [`ImGuiWrapper`] holds, as far as this crate writes it: the four
/// input tables and the input queue of the GUI context, and the mouse state
/// kept beside it.
pub struct WrapperView {
    /// For each key the GUI names, the index in `keys_down` under which the
    /// host reports it.
    pub key_map: Seq<u32>,
    /// Which keys are held, by host code.
    pub keys_down: Seq<bool>,
    /// Which mouse buttons the GUI takes as held.
    pub mouse_down: Seq<bool>,
    /// Which of control, shift, alt and super the GUI takes as held.
    pub key_mods: (bool, bool, bool, bool),
    /// The typed characters that wait for a text widget, oldest first.
    pub input_queue: Seq<char>,
    /// The mouse state that the next frame will hand to the GUI.
    pub mouse: MouseState,
    /// Whether the popup is to be shown.
    pub show_popup: bool,
}

impl WrapperView {
    /// The view after a key event: the key's entry in `keys_down` is
    /// `pressed`, and the modifiers are those of the event.
    pub open spec fn with_key(self, keycode: int, pressed: bool, keymods: KeyMods) -> WrapperView {
        WrapperView {
            keys_down: table_with(self.keys_down, KEYS_DOWN_LEN as nat, keycode, pressed),
            key_mods: keymods.flags(),
            ..self
        }
    }

    /// The view after the host reported which buttons are held: a press of
    /// the left button also dismisses the popup.
    pub open spec fn with_buttons(self, pressed: (bool, bool, bool)) -> WrapperView {
        WrapperView {
            mouse: MouseState { pressed, ..self.mouse },
            show_popup: self.show_popup && !pressed.0,
            ..self
        }
    }
}

/// The key map once the keys of the first `count` entries have been entered:
/// those entries hold the keys' host codes, the others are as in `before`.
pub open spec fn key_map_with(before: Seq<u32>, count: int) -> Seq<u32> {
    if count <= 0 {
        before
    } else {
        Seq::new(
            KEY_MAP_LEN as nat,
            |slot: int|
                if 0 <= slot < count {
                    NavKey::key_at(slot).host_code() as u32
                } else {
                    before[slot]
                },
        )
    }
}

/// The key map once every [`NavKey`] has been entered: the first `NAV_KEYS`
/// entries hold the keys' host codes, the others are as in `before`.
pub open spec fn installed_key_map(before: Seq<u32>) -> Seq<u32> {
    key_map_with(before, NAV_KEYS as int)
}

/// Through the installed key map the GUI finds, for each key, the entry of
/// `keys_down` that the host's events for that key write. The entries of the
/// map that belong to no [`NavKey`] stay as they were.
pub proof fn installed_key_map_leads_to_codes(before: Seq<u32>, key: NavKey)
    ensures
        installed_key_map(before).len() == KEY_MAP_LEN,
        installed_key_map(before)[key.slot_index()] == key.host_code(),
        installed_key_map(before)[key.slot_index()] < KEYS_DOWN_LEN,
        forall|slot: int|
            NAV_KEYS <= slot < KEY_MAP_LEN ==> installed_key_map(before)[slot] == before[slot],
{
    NavKey::slots_fill_the_front(key, 0);
    NavKey::codes_index_held_keys(key);
}

/// The GUI context with the mouse state that is copied into it at the start
/// of each frame.
pub struct ImGuiWrapper {
    pub imgui: imgui::Context,
    mouse_state: MouseState,
    show_popup: bool,
}

impl View for ImGuiWrapper {
    type V = WrapperView;

    closed spec fn view(&self) -> WrapperView {
        WrapperView {
            key_map: io_key_map(self.imgui),
            keys_down: io_keys_down(self.imgui),
            mouse_down: io_mouse_down(self.imgui),
            key_mods: io_key_mods(self.imgui),
            input_queue: io_input_queue(self.imgui),
            mouse: self.mouse_state,
            show_popup: self.show_popup,
        }
    }
}

impl ImGuiWrapper {
    /// Takes a context and enters every [`NavKey`] in its key map.
    pub fn new(imgui: imgui::Context) -> (wrapper: ImGuiWrapper)
        ensures
            wrapper@ == (WrapperView {
                key_map: installed_key_map(io_key_map(imgui)),
                keys_down: io_keys_down(imgui),
                mouse_down: io_mouse_down(imgui),
                key_mods: io_key_mods(imgui),
                input_queue: io_input_queue(imgui),
                mouse: MouseState::initial(),
                show_popup: false,
            }),
    {
        let ghost before = imgui;
        let mut imgui = imgui;
        let mut slot: usize = 0;
        while slot < NAV_KEYS
            invariant
                slot <= NAV_KEYS,
                io_key_map(imgui) == key_map_with(io_key_map(before), slot as int),
                io_keys_down(imgui) == io_keys_down(before),
                io_mouse_down(imgui) == io_mouse_down(before),
                io_key_mods(imgui) == io_key_mods(before),
                io_input_queue(imgui) == io_input_queue(before),
            decreases NAV_KEYS - slot,
        {
            let key = NavKey::from_slot(slot);
            set_key_map(&mut imgui, slot, key.code());
            slot = slot + 1;
        }
        ImGuiWrapper { imgui, mouse_state: MouseState::default(), show_popup: false }
    }

    /// The mouse state that the next frame will hand to the GUI.
    pub fn mouse_state(&self) -> (state: MouseState)
        ensures
            state == self@.mouse,
    {
        self.mouse_state
    }

    /// Whether the popup is to be shown.
    pub fn show_popup(&self) -> (shown: bool)
        ensures
            shown == self@.show_popup,
    {
        self.show_popup
    }

    /// Copies the held buttons into the GUI's table and returns the pointer
    /// position for the frame.
    pub fn update_mouse(&mut self) -> (pos: (i32, i32))
        ensures
            final(self)@ == (WrapperView {
                mouse_down: old(self)@.mouse.buttons_down(),
                ..old(self)@
            }),
            pos == old(self)@.mouse.pos,
    {
        let pressed = self.mouse_state.pressed;
        set_mouse_down(&mut self.imgui, [pressed.0, pressed.1, pressed.2, false, false]);
        self.mouse_state.pos
    }

    /// Records where the pointer is.
    pub fn update_mouse_pos(&mut self, x: i32, y: i32)
        ensures
            final(self)@ == (WrapperView {
                mouse: MouseState { pos: (x, y), ..old(self)@.mouse },
                ..old(self)@
            }),
    {
        self.mouse_state.pos = (x, y);
    }

    /// Records which of the left, right and middle buttons are held. A press
    /// of the left button dismisses the popup.
    pub fn update_mouse_down(&mut self, pressed: (bool, bool, bool))
        ensures
            final(self)@ == old(self)@.with_buttons(pressed),
    {
        self.mouse_state.pressed = pressed;
        if pressed.0 {
            self.show_popup = false;
        }
    }

    /// Hands a typed character to the GUI: it joins the end of the input
    /// queue, unless it is NUL or past the last character that the queue has
    /// room for, which are dropped. Nothing else changes.
    pub fn text_input(&mut self, character: char)
        ensures
            final(self)@ == (WrapperView {
                input_queue: queue_after(old(self)@.input_queue, character),
                ..old(self)@
            }),
    {
        add_input_character(&mut self.imgui, character);
    }

    /// Tells the GUI that the key with host code `keycode` went down or up
    /// while `keymods` were held.
    pub fn update_key(&mut self, keycode: u32, pressed: bool, keymods: KeyMods)
        requires
            keycode < KEYS_DOWN_LEN,
        ensures
            final(self)@ == old(self)@.with_key(keycode as int, pressed, keymods),
    {
        self.set_mod(keymods);
        set_key_down(&mut self.imgui, keycode as usize, pressed);
    }

    /// Tells the GUI which modifier keys are held.
    fn set_mod(&mut self, keymods: KeyMods)
        ensures
            final(self)@ == (WrapperView { key_mods: keymods.flags(), ..old(self)@ }),
    {
        let ctrl = keymods.intersects(MOD_CTRL);
        let shift = keymods.intersects(MOD_SHIFT);
        let alt = keymods.intersects(MOD_ALT);
        let logo = keymods.intersects(MOD_LOGO);
        set_key_mods(&mut self.imgui, ctrl, shift, alt, logo);
    }
}

} // verus!
