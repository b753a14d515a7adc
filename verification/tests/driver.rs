use rust_plays::driver::{
    action_for_input, get_bit_at, translate_key_code, Action, DriverState, Key, PointerAction,
};
use rust_plays::input_combiner::Output;
use rust_plays::ClientInput;

#[test]
fn bits_of_a_button_field() {
    assert_eq!(get_bit_at(0b01, 0), true);
    assert_eq!(get_bit_at(0b01, 1), false);
    assert_eq!(get_bit_at(0b10, 0), false);
    assert_eq!(get_bit_at(0b10, 1), true);
    assert_eq!(get_bit_at(0xFFFF, 15), true);
    assert_eq!(get_bit_at(0xFFFF, 16), false);
}

#[test]
fn known_key_codes_translate() {
    assert_eq!(translate_key_code("KeyW"), Some(Key::Layout('w')));
    assert_eq!(translate_key_code("Enter"), Some(Key::Return));
    assert_eq!(translate_key_code("Space"), Some(Key::Space));
    assert_eq!(translate_key_code("ArrowUp"), Some(Key::UpArrow));
    assert_eq!(translate_key_code("Digit9"), Some(Key::Layout('9')));
}

#[test]
fn unknown_key_codes_translate_to_none() {
    assert_eq!(translate_key_code("KeyZ"), None);
    assert_eq!(translate_key_code(""), None);
    assert_eq!(translate_key_code("Escape"), None);
}

#[test]
fn mouse_message_decodes_to_action() {
    let action = action_for_input("1.2.3.4:5", ClientInput::Mouse { dx: 3, dy: -4, btns: 0b01 });
    assert_eq!(
        action,
        Some(Action::Mouse {
            client_id: "1.2.3.4:5".to_owned(),
            delta_x: 3,
            delta_y: -4,
            left_button_down: true,
            right_button_down: false,
        })
    );
}

#[test]
fn key_messages_decode_to_actions() {
    let down = action_for_input("c", ClientInput::KeyDown { code: "KeyA".to_owned() });
    assert_eq!(down, Some(Action::KeyDown { client_id: "c".to_owned(), key: Key::Layout('a') }));

    let up = action_for_input("c", ClientInput::KeyUp { code: "Space".to_owned() });
    assert_eq!(up, Some(Action::KeyUp { client_id: "c".to_owned(), key: Key::Space }));

    let unsupported = action_for_input("c", ClientInput::KeyDown { code: "KeyZ".to_owned() });
    assert_eq!(unsupported, None);
}

#[test]
fn output_becomes_pointer_commands() {
    let mut state = DriverState::new(true);
    let commands = state.apply_output(&Output {
        mouse_delta_x: 1,
        mouse_delta_y: 2,
        mouse_left_button_down: true,
        mouse_right_button_down: false,
    });
    assert_eq!(
        commands,
        vec![
            PointerAction::MoveRelative { delta_x: 1, delta_y: 2 },
            PointerAction::LeftDown,
        ]
    );

    // The next tick releases the left button: only the edge is injected.
    let commands = state.apply_output(&Output {
        mouse_delta_x: 0,
        mouse_delta_y: 0,
        mouse_left_button_down: false,
        mouse_right_button_down: false,
    });
    assert_eq!(
        commands,
        vec![
            PointerAction::MoveRelative { delta_x: 0, delta_y: 0 },
            PointerAction::LeftUp,
        ]
    );
}

#[test]
fn right_button_edges_inject() {
    let mut state = DriverState::new(true);
    let commands = state.apply_output(&Output {
        mouse_delta_x: 0,
        mouse_delta_y: 0,
        mouse_left_button_down: false,
        mouse_right_button_down: true,
    });
    assert_eq!(
        commands,
        vec![
            PointerAction::MoveRelative { delta_x: 0, delta_y: 0 },
            PointerAction::RightDown,
        ]
    );

    let commands = state.apply_output(&Output {
        mouse_delta_x: 0,
        mouse_delta_y: 0,
        mouse_left_button_down: false,
        mouse_right_button_down: false,
    });
    assert_eq!(
        commands,
        vec![
            PointerAction::MoveRelative { delta_x: 0, delta_y: 0 },
            PointerAction::RightUp,
        ]
    );
}

#[test]
fn disabled_injection_emits_nothing_but_tracks_levels() {
    let mut state = DriverState::new(false);
    let commands = state.apply_output(&Output {
        mouse_delta_x: 5,
        mouse_delta_y: 5,
        mouse_left_button_down: true,
        mouse_right_button_down: false,
    });
    assert_eq!(commands, vec![]);
    assert!(state.last_left_button_down);
}

#[test]
fn hotkey_toggle_flips_input() {
    let mut state = DriverState::new(true);
    assert!(state.input_enabled);
    state.toggle_input();
    assert!(!state.input_enabled);
    state.toggle_input();
    assert!(state.input_enabled);

    // While toggled off, outputs inject nothing.
    state.toggle_input();
    let commands = state.apply_output(&Output {
        mouse_delta_x: 1,
        mouse_delta_y: 1,
        mouse_left_button_down: false,
        mouse_right_button_down: false,
    });
    assert_eq!(commands, vec![]);
}
