use glider_rust::input::{
    validate_command, InputBackend, InputCommand, InputError, KeyAction, NullInputBackend,
};

#[test]
fn hotbar_range_is_enforced() {
    assert!(validate_command(InputCommand::Hotbar(1)).is_ok());
    assert!(validate_command(InputCommand::Hotbar(9)).is_ok());
    assert!(validate_command(InputCommand::Hotbar(0)).is_err());
    assert!(validate_command(InputCommand::Hotbar(10)).is_err());
}

#[test]
fn commands_other_than_hotbar_are_always_valid() {
    assert!(validate_command(InputCommand::MoveForward(KeyAction::Press)).is_ok());
    assert!(validate_command(InputCommand::ZoomOut).is_ok());
    assert_eq!(
        validate_command(InputCommand::Hotbar(255)),
        Err(InputError::Unsupported)
    );
}

#[test]
fn null_backend_records_what_it_is_sent() {
    let mut backend = NullInputBackend::default();
    assert!(backend.sent.is_empty());
    backend.send(InputCommand::TurnLeftMouse).unwrap();
    backend.send(InputCommand::Hotbar(3)).unwrap();
    assert_eq!(
        backend.sent,
        vec![InputCommand::TurnLeftMouse, InputCommand::Hotbar(3)]
    );
}

#[test]
fn input_error_messages() {
    assert_eq!(
        InputError::Unsupported.message(),
        "input command out of supported range"
    );
    assert_eq!(InputError::BackendFailed.message(), "input backend failed");
}
