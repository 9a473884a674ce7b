use glider_rust::config::{normalize_binding_key, AppConfig, KeybindConfig};

#[test]
fn keybind_action_update_is_normalized() {
    let mut config = KeybindConfig::default();

    config
        .set_binding("move_forward", " w ")
        .expect("binding update should work");

    assert_eq!(config.move_forward, "W");
}

#[test]
fn keybind_rejects_unknown_action() {
    let mut config = KeybindConfig::default();
    assert!(config.set_binding("fly", "F").is_err());
}

#[test]
fn rotation_slot_update_enforces_range() {
    let mut config = KeybindConfig::default();

    assert!(config.set_rotation_slot(0, "1").is_err());
    assert!(config.set_rotation_slot(10, "1").is_err());
    assert!(config.set_rotation_slot(5, "G").is_ok());
    assert_eq!(config.rotation_slots[4], "G");
}

#[test]
fn default_keybinds_are_the_classic_layout() {
    let config = KeybindConfig::default();
    assert_eq!(config.move_forward, "W");
    assert_eq!(config.move_backward, "S");
    assert_eq!(config.strafe_left, "A");
    assert_eq!(config.strafe_right, "D");
    assert_eq!(config.ascend, "E");
    assert_eq!(config.descend, "Q");
    assert_eq!(config.turn_left, "MOUSE_LEFT");
    assert_eq!(config.turn_right, "MOUSE_RIGHT");
    assert_eq!(config.interact, "F");
    assert_eq!(config.assist_target, "T");
    let slots: Vec<&str> = config.rotation_slots.iter().map(|s| s.as_str()).collect();
    assert_eq!(slots, vec!["1", "2", "3", "4", "5", "6", "7", "8", "9"]);
}

#[test]
fn default_app_config_polls_every_two_and_a_half_seconds() {
    let config = AppConfig::default();
    assert!(config.telemetry_enabled);
    assert_eq!(config.memory_poll_ms, 2500);
    assert_eq!(config.keybinds.move_forward, "W");
}

#[test]
fn binding_keys_are_trimmed_and_upper_cased() {
    assert_eq!(normalize_binding_key("  mouse_left\t").unwrap(), "MOUSE_LEFT");
    assert_eq!(normalize_binding_key("f1").unwrap(), "F1");
}

#[test]
fn binding_key_errors_name_the_first_failed_check() {
    assert_eq!(normalize_binding_key("   ").unwrap_err(), "Key binding cannot be empty");
    assert_eq!(
        normalize_binding_key("ABCDEFGHIJKLMNOPQRSTUVWXY").unwrap_err(),
        "Key binding is too long"
    );
    assert_eq!(
        normalize_binding_key("CTRL+A").unwrap_err(),
        "Key binding can only contain letters, numbers, or '_'"
    );
    // Twenty-four bytes is still accepted.
    assert_eq!(
        normalize_binding_key("abcdefghijklmnopqrstuvwx").unwrap(),
        "ABCDEFGHIJKLMNOPQRSTUVWX"
    );
    // Length is counted in UTF-8 bytes: nine two-byte letters and seven more make 25.
    assert_eq!(
        normalize_binding_key("ééééééééé1234567").unwrap_err(),
        "Key binding is too long"
    );
}

#[test]
fn normalizing_a_normalized_key_changes_nothing() {
    let once = normalize_binding_key(" strafe_1 ").unwrap();
    let twice = normalize_binding_key(&once).unwrap();
    assert_eq!(once, twice);
}

#[test]
fn unknown_action_error_names_the_action_as_compared() {
    let mut config = KeybindConfig::default();
    let err = config.set_binding("  FLY ", "F").unwrap_err();
    assert_eq!(
        err,
        "Unknown keybind action 'fly'. Expected movement, turn, interact, or assist action name"
    );
    assert_eq!(config.interact, "F");
}

#[test]
fn action_names_ignore_case_and_surrounding_space() {
    let mut config = KeybindConfig::default();
    config.set_binding(" Assist_Target ", "g").unwrap();
    assert_eq!(config.assist_target, "G");
    assert_eq!(config.interact, "F");
}

#[test]
fn a_bad_key_leaves_the_binding_unchanged() {
    let mut config = KeybindConfig::default();
    assert_eq!(
        config.set_binding("move_forward", "").unwrap_err(),
        "Key binding cannot be empty"
    );
    assert_eq!(config.move_forward, "W");
    assert_eq!(
        config.set_rotation_slot(3, "a b").unwrap_err(),
        "Key binding can only contain letters, numbers, or '_'"
    );
    assert_eq!(config.rotation_slots[2], "3");
}

#[test]
fn rotation_slot_range_error_message() {
    let mut config = KeybindConfig::default();
    assert_eq!(
        config.set_rotation_slot(0, "X").unwrap_err(),
        "Rotation slot must be in range 1..=9"
    );
    config.set_rotation_slot(9, "x").unwrap();
    config.set_rotation_slot(1, "y").unwrap();
    assert_eq!(config.rotation_slots[8], "X");
    assert_eq!(config.rotation_slots[0], "Y");
    assert_eq!(config.rotation_slots[1], "2");
}

#[test]
fn cloned_config_keeps_every_binding() {
    let mut config = KeybindConfig::default();
    config.set_binding("turn_left", "z").unwrap();
    let copy = config.clone();
    assert_eq!(copy.turn_left, "Z");
    assert_eq!(copy.rotation_slots[6], "7");
}
