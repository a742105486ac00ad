use kinetic_ball::gamepad::{gilrs_axis_to_idx, gilrs_button_code_to_idx, gilrs_button_to_idx, GamepadAxis, GamepadButton};
use kinetic_ball::keybindings::{
    curve_key_labels, AppConfig, DetectedInput, GameAction, GamepadBindingsConfig, GamepadBindingsMap,
    GamepadConfigUIState, KeyBindingsConfig, RawGamepadInput, SerializableKeyCode, SettingsUIState,
};
use kinetic_ball::keys::{key_code_display_name, key_code_from_str, key_code_name, KeyCode};

#[test]
fn key_names_round_trip() {
    for k in [KeyCode::ArrowUp, KeyCode::KeyA, KeyCode::KeyZ, KeyCode::Digit0, KeyCode::F12, KeyCode::NumpadDecimal, KeyCode::PageDown, KeyCode::Backquote, KeyCode::SuperRight] {
        let name = key_code_name(&k).to_string();
        assert_eq!(key_code_from_str(&name), Some(k));
    }
    assert_eq!(key_code_name(&KeyCode::NumpadEnter), "NumpadEnter");
    assert_eq!(key_code_name(&KeyCode::Other("NumLock".to_string())), "NumLock");
}

#[test]
fn unknown_key_names_rejected() {
    assert_eq!(key_code_from_str("NumLock"), None);
    assert_eq!(key_code_from_str("keya"), None);
    assert_eq!(key_code_from_str(""), None);
    assert_eq!(key_code_from_str("KeyA "), None);
    assert_eq!(key_code_from_str("F13"), None);
}

#[test]
fn key_labels() {
    assert_eq!(key_code_display_name(KeyCode::ArrowUp), "Up");
    assert_eq!(key_code_display_name(KeyCode::ShiftLeft), "L-Shift");
    assert_eq!(key_code_display_name(KeyCode::ControlRight), "R-Ctrl");
    assert_eq!(key_code_display_name(KeyCode::Escape), "Esc");
    assert_eq!(key_code_display_name(KeyCode::KeyW), "W");
    assert_eq!(key_code_display_name(KeyCode::Digit5), "Digit5");
    assert_eq!(key_code_display_name(KeyCode::F3), "F3");
    assert_eq!(key_code_display_name(KeyCode::Other("KeyboardKeyKey".to_string())), "board");
    assert_eq!(key_code_display_name(KeyCode::Other("KKeyey".to_string())), "Key");
}

#[test]
fn serializable_key_code_names() {
    let k = SerializableKeyCode(KeyCode::KeyX);
    assert_eq!(k.to_name(), "KeyX");
    assert_eq!(SerializableKeyCode::from_name("Space"), Ok(SerializableKeyCode(KeyCode::Space)));
    assert_eq!(SerializableKeyCode::from_name("Banana"), Err("Unknown key: Banana".to_string()));
}

#[test]
fn default_key_bindings() {
    let c = KeyBindingsConfig::default();
    assert_eq!(c.get_key(GameAction::MoveUp), KeyCode::ArrowUp);
    assert_eq!(c.get_key(GameAction::Kick), KeyCode::KeyX);
    assert_eq!(c.get_key(GameAction::CurveWest), KeyCode::KeyA);
    assert_eq!(c.get_key(GameAction::Wildcard), KeyCode::ShiftLeft);
    assert_eq!(c.get_key(GameAction::Mode), KeyCode::ControlRight);
    let all = GameAction::all();
    for (i, a) in all.iter().enumerate() {
        for b in &all[i + 1..] {
            assert_ne!(c.get_key(*a), c.get_key(*b));
        }
    }
}

#[test]
fn set_key_changes_one_action() {
    let mut c = KeyBindingsConfig::default();
    c.set_key(GameAction::Sprint, KeyCode::KeyQ);
    assert_eq!(c.get_key(GameAction::Sprint), KeyCode::KeyQ);
    assert_eq!(c.sprint, SerializableKeyCode(KeyCode::KeyQ));
    assert_eq!(c.get_key(GameAction::Kick), KeyCode::KeyX);
}

#[test]
fn actions_listed_once() {
    let all = GameAction::all();
    assert_eq!(all.len(), 12);
    assert_eq!(all[0], GameAction::MoveUp);
    assert_eq!(all[11], GameAction::Mode);
    assert_eq!(GameAction::Kick.display_name(), "Patear (sin comba)");
    assert_eq!(GameAction::CurveEast.display_name(), "Comba Este");
}

#[test]
fn settings_rebind_prompt() {
    let mut s = SettingsUIState::default();
    assert!(!s.is_rebinding());
    s.start_rebind(GameAction::MoveLeft);
    assert!(s.is_rebinding());
    assert_eq!(s.status_message.as_deref(), Some("Presiona una tecla para 'Mover Izquierda'... (ESC para cancelar)"));
    s.cancel_rebind();
    assert!(!s.is_rebinding());
    assert_eq!(s.status_message, None);
}

#[test]
fn app_config_default_server() {
    assert_eq!(AppConfig::default().server, "kinetic-ball.fly.dev");
}

#[test]
fn gamepad_input_labels() {
    assert_eq!(RawGamepadInput::Button(0).display_name(), "B0");
    assert_eq!(RawGamepadInput::Button(255).display_name(), "B255");
    assert_eq!(RawGamepadInput::AxisPositive(3).display_name(), "X3+");
    assert_eq!(RawGamepadInput::AxisNegative(12).display_name(), "X12-");
    assert_eq!(DetectedInput::Keyboard(KeyCode::KeyB).display_name(), "Tecla: B");
    assert_eq!(DetectedInput::Gamepad(RawGamepadInput::AxisNegative(1)).display_name(), "Gamepad: X1-");
}

#[test]
fn default_gamepad_bindings() {
    let g = GamepadBindingsConfig::default();
    assert_eq!(g.get_binding(GameAction::MoveUp), Some(RawGamepadInput::AxisNegative(1)));
    assert_eq!(g.get_binding(GameAction::CurveEast), Some(RawGamepadInput::AxisPositive(3)));
    assert_eq!(g.get_binding(GameAction::Mode), Some(RawGamepadInput::Button(3)));
    let mut h = g;
    h.set_binding(GameAction::Kick, None);
    assert_eq!(h.get_binding(GameAction::Kick), None);
    assert_eq!(h.get_binding(GameAction::Sprint), Some(RawGamepadInput::Button(5)));
}

#[test]
fn gamepad_map_read_after_write() {
    let mut m = GamepadBindingsMap::default();
    assert_eq!(m.get_bindings("Xbox"), GamepadBindingsConfig::default());
    let mut custom = GamepadBindingsConfig::default();
    custom.set_binding(GameAction::Kick, Some(RawGamepadInput::Button(7)));
    m.set_bindings("Xbox".to_string(), custom);
    assert_eq!(m.get_bindings("Xbox"), custom);
    assert_eq!(m.get_bindings("PS4"), GamepadBindingsConfig::default());
    let mut other = custom;
    other.set_binding(GameAction::Sprint, None);
    m.set_bindings("Xbox".to_string(), other);
    assert_eq!(m.get_bindings("Xbox"), other);
    assert_eq!(m.entries().len(), 1);
    m.set_bindings("PS4".to_string(), custom);
    assert_eq!(m.entries().len(), 2);
    assert_eq!(m.get_bindings("PS4"), custom);
}

#[test]
fn gamepad_config_screen() {
    let mut s = GamepadConfigUIState::default();
    s.start_config(2, "Xbox".to_string(), GamepadBindingsConfig::default());
    assert_eq!(s.configuring_player_index, Some(2));
    assert_eq!(s.gamepad_type_name.as_deref(), Some("Xbox"));
    s.start_rebind(GameAction::Kick);
    assert!(s.is_rebinding());
    assert_eq!(s.status_message.as_deref(), Some("Presiona un botón/eje para 'Patear (sin comba)'... (ESC para cancelar)"));
    s.cancel_rebind();
    assert!(!s.is_rebinding());
    assert_eq!(s.configuring_player_index, Some(2));
    s.reset();
    assert_eq!(s.configuring_player_index, None);
    assert_eq!(s.gamepad_type_name, None);
}

#[test]
fn curve_labels() {
    let kb = KeyBindingsConfig::default();
    let labels = curve_key_labels(None, &kb);
    assert_eq!(labels, ("W".to_string(), "S".to_string(), "D".to_string(), "A".to_string()));
    let mut g = GamepadBindingsConfig::default();
    g.set_binding(GameAction::CurveWest, None);
    let labels = curve_key_labels(Some(&g), &kb);
    assert_eq!(labels, ("X4-".to_string(), "X4+".to_string(), "X3+".to_string(), "?".to_string()));
}

#[test]
fn gamepad_indices() {
    assert_eq!(gilrs_button_to_idx(GamepadButton::South), Some(0));
    assert_eq!(gilrs_button_to_idx(GamepadButton::DPadRight), Some(18));
    assert_eq!(gilrs_button_to_idx(GamepadButton::Unknown), None);
    assert_eq!(gilrs_axis_to_idx(GamepadAxis::RightStickY), Some(4));
    assert_eq!(gilrs_axis_to_idx(GamepadAxis::Unknown), None);
    assert_eq!(gilrs_button_code_to_idx(GamepadButton::West, 999), 3);
    assert_eq!(gilrs_button_code_to_idx(GamepadButton::Unknown, 288), 0);
    assert_eq!(gilrs_button_code_to_idx(GamepadButton::Unknown, 319), 31);
    assert_eq!(gilrs_button_code_to_idx(GamepadButton::Unknown, 320), 0);
    assert_eq!(gilrs_button_code_to_idx(GamepadButton::Unknown, 45), 13);
}
