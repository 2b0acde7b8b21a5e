use ctviewer::input::{InputAction, InputManager};

#[test]
fn bound_keys_hold_press_and_release_their_actions() {
    let mut input = InputManager::new();
    input.bind(InputAction::MoveUp, 26);
    input.bind(InputAction::MenuUp, 26);
    input.bind(InputAction::Activate, 9);
    input.key_down(26);
    assert!(input.is_down(InputAction::MoveUp));
    assert!(input.is_down(InputAction::MenuUp));
    assert!(input.was_pressed(InputAction::MoveUp));
    assert!(!input.is_down(InputAction::Activate));
    input.clear();
    assert!(!input.was_pressed(InputAction::MoveUp));
    assert!(input.is_down(InputAction::MoveUp));
    input.key_up(26);
    assert!(!input.is_down(InputAction::MoveUp));
    assert!(input.was_released(InputAction::MenuUp));
}

#[test]
fn unbound_actions_ignore_their_old_key() {
    let mut input = InputManager::new();
    input.bind(InputAction::Run, 5);
    input.unbind(InputAction::Run, 5);
    input.key_down(5);
    assert!(!input.is_down(InputAction::Run));
    input.key_down(77);
    assert!(!input.was_pressed(InputAction::Exit));
}

#[test]
fn action_numbers_follow_the_declaration() {
    assert_eq!(InputAction::Exit.to_index(), 0);
    assert_eq!(InputAction::DebugDump.to_index(), 41);
}
