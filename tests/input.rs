use game::input::{Input, InputState, KeyEvent, KeyState, KEY_I, NAMED_ESCAPE};

fn key(code: u32, state: KeyState, repeat: bool) -> KeyEvent {
    KeyEvent { physical_key: Some(code), logical_key: None, state, repeat }
}

#[test]
fn press_reads_as_pressed_until_the_tick_ends() {
    let mut input = Input::new();
    assert!(!input.is_physical_key_pressed(KEY_I));
    input.process_event(&key(KEY_I, KeyState::Pressed, false));
    assert!(input.is_physical_key_pressed(KEY_I));
    assert!(input.is_physical_key_pressed(KEY_I));
    input.update_keys();
    assert!(!input.is_physical_key_pressed(KEY_I));
}

#[test]
fn auto_repeat_does_not_press_again() {
    let mut input = Input::new();
    input.process_event(&key(KEY_I, KeyState::Pressed, false));
    input.update_keys();
    input.process_event(&key(KEY_I, KeyState::Pressed, true));
    assert!(!input.is_physical_key_pressed(KEY_I));
}

#[test]
fn release_is_not_a_press_and_survives_the_tick() {
    let mut input = Input::new();
    input.process_event(&key(KEY_I, KeyState::Pressed, false));
    input.process_event(&key(KEY_I, KeyState::Released, false));
    assert!(!input.is_physical_key_pressed(KEY_I));
    input.update_keys();
    assert!(!input.is_physical_key_pressed(KEY_I));
    input.process_event(&key(KEY_I, KeyState::Pressed, false));
    assert!(input.is_physical_key_pressed(KEY_I));
}

#[test]
fn named_key_is_tracked_apart_from_physical() {
    let mut input = Input::new();
    let e = KeyEvent {
        physical_key: Some(0x29),
        logical_key: Some(NAMED_ESCAPE),
        state: KeyState::Pressed,
        repeat: false,
    };
    input.process_event(&e);
    assert!(input.is_logical_key_pressed(NAMED_ESCAPE));
    assert!(input.is_physical_key_pressed(0x29));
    assert!(!input.is_logical_key_pressed(0x29));
    input.update_keys();
    assert!(!input.is_logical_key_pressed(NAMED_ESCAPE));
}

#[test]
fn other_keys_are_not_pressed() {
    let mut input = Input::new();
    input.process_event(&key(KEY_I, KeyState::Pressed, false));
    assert!(!input.is_physical_key_pressed(KEY_I + 1));
}

#[test]
fn input_state_queries() {
    assert!(InputState::Pressed.is_pressed());
    assert!(!InputState::Down.is_pressed());
    assert!(!InputState::Released.is_pressed());
    assert!(InputState::Pressed.is_any_down());
    assert!(InputState::Down.is_any_down());
    assert!(!InputState::Released.is_any_down());
    assert!(InputState::Released.is_released());
    assert!(!InputState::Down.is_released());
    assert_eq!(InputState::from(KeyState::Pressed), InputState::Pressed);
    assert_eq!(InputState::from(KeyState::Released), InputState::Released);
}
