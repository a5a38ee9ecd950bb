use imgui_wrapper::{MouseButton, MouseState};

#[test]
fn a_button_is_at_most_one_of_left_right_middle() {
    assert_eq!(MouseButton::Left.pressed_flags(), (true, false, false));
    assert_eq!(MouseButton::Right.pressed_flags(), (false, true, false));
    assert_eq!(MouseButton::Middle.pressed_flags(), (false, false, true));
    assert_eq!(MouseButton::Other(0).pressed_flags(), (false, false, false));
    assert_eq!(MouseButton::Other(7).pressed_flags(), (false, false, false));
    assert_eq!(MouseButton::Other(255).pressed_flags(), (false, false, false));
}

#[test]
fn the_first_mouse_state_is_at_rest() {
    let state = MouseState::default();
    assert_eq!(state.pos, (0, 0));
    assert_eq!(state.pressed, (false, false, false));
    assert_eq!(state, MouseState { pos: (0, 0), pressed: (false, false, false) });
}
