use imgui_wrapper::{
    ImGuiWrapper, KeyMods, MouseState, NavKey, UiState, KEYS_DOWN_LEN, KEY_MAP_LEN,
    LAST_QUEUED_CHAR, MOD_ALT, MOD_CTRL, MOD_LOGO, MOD_SHIFT, MOUSE_BUTTONS, NAV_KEYS,
};

/// A context of its own for the calling test: only one can be active in a
/// process, so this waits until the others are gone.
fn active_context() -> imgui::Context {
    let mut waiting = imgui::SuspendedContext::create();
    loop {
        match waiting.activate() {
            Ok(context) => return context,
            Err(still_waiting) => {
                waiting = still_waiting;
                std::hint::spin_loop();
            }
        }
    }
}

fn modifiers(wrapper: &ImGuiWrapper) -> (bool, bool, bool, bool) {
    let io = wrapper.imgui.io();
    (io.key_ctrl, io.key_shift, io.key_alt, io.key_super)
}

#[test]
fn table_lengths_are_those_of_the_gui() {
    let context = active_context();
    assert_eq!(imgui::Key::COUNT, KEY_MAP_LEN);
    assert_eq!(context.io().key_map.len(), KEY_MAP_LEN);
    assert_eq!(context.io().keys_down.len(), KEYS_DOWN_LEN);
    assert_eq!(context.io().mouse_down.len(), MOUSE_BUTTONS);
}

#[test]
fn new_enters_every_key_in_the_key_map() {
    let mut context = active_context();
    for slot in 0..KEY_MAP_LEN {
        context.io_mut().key_map[slot] = 500 + slot as u32;
    }
    let wrapper = ImGuiWrapper::new(context);
    let io = wrapper.imgui.io();
    assert_eq!(io.key_map[imgui::Key::Tab as usize], 144);
    assert_eq!(io.key_map[imgui::Key::LeftArrow as usize], 70);
    assert_eq!(io.key_map[imgui::Key::RightArrow as usize], 72);
    assert_eq!(io.key_map[imgui::Key::UpArrow as usize], 71);
    assert_eq!(io.key_map[imgui::Key::DownArrow as usize], 73);
    assert_eq!(io.key_map[imgui::Key::PageUp as usize], 69);
    assert_eq!(io.key_map[imgui::Key::PageDown as usize], 68);
    assert_eq!(io.key_map[imgui::Key::Home as usize], 65);
    assert_eq!(io.key_map[imgui::Key::End as usize], 67);
    assert_eq!(io.key_map[imgui::Key::Insert as usize], 64);
    assert_eq!(io.key_map[imgui::Key::Delete as usize], 66);
    assert_eq!(io.key_map[imgui::Key::Backspace as usize], 74);
    assert_eq!(io.key_map[imgui::Key::Space as usize], 76);
    assert_eq!(io.key_map[imgui::Key::Enter as usize], 75);
    assert_eq!(io.key_map[imgui::Key::Escape as usize], 36);
    assert_eq!(io.key_map[imgui::Key::KeyPadEnter as usize], 126);
    for slot in 0..NAV_KEYS {
        assert_eq!(io.key_map[slot], NavKey::from_slot(slot).code());
    }
}

#[test]
fn new_leaves_the_rest_of_the_context_alone() {
    let mut context = active_context();
    for slot in 0..KEY_MAP_LEN {
        context.io_mut().key_map[slot] = 500 + slot as u32;
    }
    context.io_mut().keys_down[7] = true;
    context.io_mut().mouse_down = [false, true, false, true, false];
    context.io_mut().key_alt = true;
    let wrapper = ImGuiWrapper::new(context);
    let io = wrapper.imgui.io();
    for slot in NAV_KEYS..KEY_MAP_LEN {
        assert_eq!(io.key_map[slot], 500 + slot as u32);
    }
    for index in 0..KEYS_DOWN_LEN {
        assert_eq!(io.keys_down[index], index == 7);
    }
    assert_eq!(io.mouse_down, [false, true, false, true, false]);
    assert_eq!(modifiers(&wrapper), (false, false, true, false));
}

#[test]
fn new_starts_with_the_mouse_at_rest_and_no_popup() {
    let wrapper = ImGuiWrapper::new(active_context());
    assert_eq!(wrapper.mouse_state(), MouseState::default());
    assert_eq!(wrapper.mouse_state().pos, (0, 0));
    assert_eq!(wrapper.mouse_state().pressed, (false, false, false));
    assert!(!wrapper.show_popup());
}

#[test]
fn update_key_sets_the_entry_of_the_key() {
    let mut wrapper = ImGuiWrapper::new(active_context());
    wrapper.update_key(36, true, KeyMods { bits: 0 });
    wrapper.update_key(511, true, KeyMods { bits: 0 });
    wrapper.update_key(0, true, KeyMods { bits: 0 });
    for index in 0..KEYS_DOWN_LEN {
        assert_eq!(wrapper.imgui.io().keys_down[index], index == 36 || index == 511 || index == 0);
    }
    wrapper.update_key(36, false, KeyMods { bits: 0 });
    for index in 0..KEYS_DOWN_LEN {
        assert_eq!(wrapper.imgui.io().keys_down[index], index == 511 || index == 0);
    }
}

#[test]
fn update_key_hands_over_the_modifiers() {
    let mut wrapper = ImGuiWrapper::new(active_context());
    wrapper.update_key(36, true, KeyMods { bits: MOD_CTRL });
    assert_eq!(modifiers(&wrapper), (true, false, false, false));
    wrapper.update_key(36, true, KeyMods { bits: MOD_SHIFT });
    assert_eq!(modifiers(&wrapper), (false, true, false, false));
    wrapper.update_key(36, true, KeyMods { bits: MOD_ALT });
    assert_eq!(modifiers(&wrapper), (false, false, true, false));
    wrapper.update_key(36, true, KeyMods { bits: MOD_LOGO });
    assert_eq!(modifiers(&wrapper), (false, false, false, true));
    wrapper.update_key(36, false, KeyMods { bits: MOD_CTRL | MOD_SHIFT | MOD_ALT | MOD_LOGO });
    assert_eq!(modifiers(&wrapper), (true, true, true, true));
    wrapper.update_key(36, false, KeyMods { bits: 0xf0 });
    assert_eq!(modifiers(&wrapper), (false, false, false, false));
}

#[test]
fn update_key_leaves_key_map_and_mouse_alone() {
    let mut wrapper = ImGuiWrapper::new(active_context());
    wrapper.imgui.io_mut().mouse_down = [true, false, true, false, true];
    let key_map = wrapper.imgui.io().key_map;
    wrapper.update_mouse_pos(5, 6);
    wrapper.update_key(70, true, KeyMods { bits: MOD_ALT });
    assert_eq!(wrapper.imgui.io().key_map, key_map);
    assert_eq!(wrapper.imgui.io().mouse_down, [true, false, true, false, true]);
    assert_eq!(wrapper.mouse_state().pos, (5, 6));
    assert!(!wrapper.show_popup());
}

#[test]
fn update_mouse_pos_records_the_position() {
    let mut wrapper = ImGuiWrapper::new(active_context());
    wrapper.update_mouse_down((false, true, false));
    wrapper.update_mouse_pos(12, -7);
    assert_eq!(wrapper.mouse_state().pos, (12, -7));
    assert_eq!(wrapper.mouse_state().pressed, (false, true, false));
    wrapper.update_mouse_pos(i32::MAX, i32::MIN);
    assert_eq!(wrapper.mouse_state().pos, (i32::MAX, i32::MIN));
}

#[test]
fn update_mouse_down_records_the_buttons() {
    let mut wrapper = ImGuiWrapper::new(active_context());
    wrapper.update_mouse_pos(3, 4);
    wrapper.update_mouse_down((true, false, true));
    assert_eq!(wrapper.mouse_state().pressed, (true, false, true));
    assert_eq!(wrapper.mouse_state().pos, (3, 4));
    assert!(!wrapper.show_popup());
    wrapper.update_mouse_down((false, true, false));
    assert_eq!(wrapper.mouse_state().pressed, (false, true, false));
    assert!(!wrapper.show_popup());
    assert_eq!(wrapper.imgui.io().mouse_down, [false; 5]);
}

#[test]
fn update_mouse_copies_the_buttons_into_the_gui() {
    let mut wrapper = ImGuiWrapper::new(active_context());
    wrapper.imgui.io_mut().mouse_down = [false, false, false, true, true];
    wrapper.imgui.io_mut().keys_down[70] = true;
    wrapper.imgui.io_mut().key_shift = true;
    let key_map = wrapper.imgui.io().key_map;
    wrapper.update_mouse_pos(30, 40);
    wrapper.update_mouse_down((true, false, true));
    assert_eq!(wrapper.update_mouse(), (30, 40));
    assert_eq!(wrapper.imgui.io().mouse_down, [true, false, true, false, false]);
    assert_eq!(wrapper.mouse_state().pos, (30, 40));
    assert_eq!(wrapper.mouse_state().pressed, (true, false, true));
    assert_eq!(wrapper.imgui.io().key_map, key_map);
    assert!(wrapper.imgui.io().keys_down[70]);
    assert_eq!(modifiers(&wrapper), (false, true, false, false));

    wrapper.update_mouse_down((false, true, false));
    assert_eq!(wrapper.update_mouse(), (30, 40));
    assert_eq!(wrapper.imgui.io().mouse_down, [false, true, false, false, false]);
}

#[test]
fn text_input_leaves_the_tables_alone() {
    let mut wrapper = ImGuiWrapper::new(active_context());
    wrapper.update_key(75, true, KeyMods { bits: MOD_SHIFT });
    wrapper.update_mouse_pos(1, 2);
    wrapper.update_mouse_down((false, false, true));
    wrapper.update_mouse();
    let key_map = wrapper.imgui.io().key_map;
    let keys_down = wrapper.imgui.io().keys_down;
    wrapper.text_input('a');
    wrapper.text_input('\u{e9}');
    wrapper.text_input('\u{1f600}');
    wrapper.text_input('\0');
    assert_eq!(wrapper.imgui.io().key_map, key_map);
    assert!(wrapper.imgui.io().keys_down.iter().eq(keys_down.iter()));
    assert_eq!(wrapper.imgui.io().mouse_down, [false, false, true, false, false]);
    assert_eq!(modifiers(&wrapper), (false, true, false, false));
    assert_eq!(wrapper.mouse_state().pos, (1, 2));
    assert_eq!(wrapper.mouse_state().pressed, (false, false, true));
}

#[test]
fn the_text_box_starts_with_its_placeholder() {
    let state = UiState::new();
    assert_eq!(state.text.to_str(), "test buffer");
}

fn ready_for_frames(wrapper: &mut ImGuiWrapper) {
    wrapper.imgui.set_ini_filename(None::<std::path::PathBuf>);
    wrapper.imgui.fonts().build_rgba32_texture();
    let io = wrapper.imgui.io_mut();
    io.display_size = [800.0, 600.0];
    io.delta_time = 1.0 / 60.0;
}

/// One frame with a window that holds the text box of `state`. With `focus`
/// the frame asks for the keyboard focus on the box.
fn frame_with_text_box(wrapper: &mut ImGuiWrapper, state: &mut UiState, focus: bool) {
    let title = imgui::ImString::new("window");
    let label = imgui::ImString::new("box");
    let ui = wrapper.imgui.frame();
    imgui::Window::new(&title).build(&ui, || {
        if focus {
            ui.set_keyboard_focus_here(imgui::FocusedWidget::Next);
        }
        ui.input_text(&label, &mut state.text).build();
    });
    ui.render();
}

/// A wrapper and a text box that holds the keyboard focus, with the whole
/// text selected, as the GUI does for a box that was given the focus.
fn focused_text_box() -> (ImGuiWrapper, UiState) {
    let mut wrapper = ImGuiWrapper::new(active_context());
    ready_for_frames(&mut wrapper);
    let mut state = UiState::new();
    state.text.reserve(64);
    frame_with_text_box(&mut wrapper, &mut state, true);
    frame_with_text_box(&mut wrapper, &mut state, false);
    frame_with_text_box(&mut wrapper, &mut state, false);
    assert!(wrapper.imgui.io().want_text_input);
    assert_eq!(state.text.to_str(), "test buffer");
    (wrapper, state)
}

#[test]
fn a_typed_character_reaches_the_text_box() {
    let (mut wrapper, mut state) = focused_text_box();
    wrapper.text_input('a');
    assert_eq!(state.text.to_str(), "test buffer");
    frame_with_text_box(&mut wrapper, &mut state, false);
    assert_eq!(state.text.to_str(), "a");
    frame_with_text_box(&mut wrapper, &mut state, false);
    assert_eq!(state.text.to_str(), "a");
}

#[test]
fn typed_characters_arrive_in_the_order_typed() {
    let (mut wrapper, mut state) = focused_text_box();
    wrapper.text_input('x');
    wrapper.text_input('y');
    wrapper.text_input('\u{e9}');
    wrapper.text_input('z');
    frame_with_text_box(&mut wrapper, &mut state, false);
    assert_eq!(state.text.to_str(), "xy\u{e9}z");
    wrapper.text_input('!');
    frame_with_text_box(&mut wrapper, &mut state, false);
    assert_eq!(state.text.to_str(), "xy\u{e9}z!");
}

#[test]
fn characters_the_queue_has_no_room_for_are_dropped() {
    let (mut wrapper, mut state) = focused_text_box();
    wrapper.text_input('a');
    wrapper.text_input('\0');
    wrapper.text_input('\u{10000}');
    wrapper.text_input('\u{1f600}');
    wrapper.text_input('\u{10ffff}');
    wrapper.text_input('b');
    frame_with_text_box(&mut wrapper, &mut state, false);
    assert_eq!(state.text.to_str(), "ab");
}

#[test]
fn the_last_character_with_room_in_the_queue_is_kept() {
    assert_eq!(LAST_QUEUED_CHAR, 0xffff);
    let (mut wrapper, mut state) = focused_text_box();
    wrapper.text_input('a');
    wrapper.text_input('\u{ffff}');
    wrapper.text_input('\u{4e16}');
    frame_with_text_box(&mut wrapper, &mut state, false);
    assert_eq!(state.text.to_str(), "a\u{ffff}\u{4e16}");
}

#[test]
fn key_and_mouse_updates_leave_typed_characters_waiting() {
    let (mut wrapper, mut state) = focused_text_box();
    wrapper.text_input('a');
    wrapper.update_key(511, true, KeyMods { bits: 0 });
    wrapper.update_mouse_pos(-5, -5);
    wrapper.update_mouse_down((false, false, false));
    wrapper.update_mouse();
    wrapper.text_input('b');
    frame_with_text_box(&mut wrapper, &mut state, false);
    assert_eq!(state.text.to_str(), "ab");
}
