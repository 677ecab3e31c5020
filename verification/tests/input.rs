use servo_capi::input::{
    mouse_button_action, named_key_event, typing_key_events, Key, KeyEvent, KeyState,
    MouseButtonAction, ServoNamedKey,
};

#[test]
fn mouse_button_action_follows_down() {
    assert_eq!(mouse_button_action(true), MouseButtonAction::Down);
    assert_eq!(mouse_button_action(false), MouseButtonAction::Up);
}

#[test]
fn named_key_event_carries_key_and_state() {
    assert_eq!(
        named_key_event(ServoNamedKey::Enter, true),
        KeyEvent {
            state: KeyState::Down,
            key: Key::Named(ServoNamedKey::Enter)
        }
    );
    assert_eq!(
        named_key_event(ServoNamedKey::PageDown, false),
        KeyEvent {
            state: KeyState::Up,
            key: Key::Named(ServoNamedKey::PageDown)
        }
    );
}

#[test]
fn typing_presses_then_releases_each_character() {
    let events = typing_key_events("aé");
    assert_eq!(
        events,
        vec![
            KeyEvent { state: KeyState::Down, key: Key::Character('a') },
            KeyEvent { state: KeyState::Up, key: Key::Character('a') },
            KeyEvent { state: KeyState::Down, key: Key::Character('é') },
            KeyEvent { state: KeyState::Up, key: Key::Character('é') },
        ]
    );
    assert!(typing_key_events("").is_empty());
}
