use vstd::prelude::*;

verus! {

#[derive(Debug, Clone, Copy, PartialEq, Eq, Structural)]
pub enum KeyAction {
    Press,
    Release,
    Tap,
}

#[derive(Debug, Clone, Copy, PartialEq, Eq, Structural)]
pub enum InputCommand {
    MoveForward(KeyAction),
    MoveBackward(KeyAction),
    StrafeLeft(KeyAction),
    StrafeRight(KeyAction),
    TurnLeftMouse,
    TurnRightMouse,
    Hotbar(u8),
    ZoomIn,
    ZoomOut,
    LeftClick,
    RightClick,
}

#[derive(Debug, Clone, Copy, PartialEq, Eq, Structural)]
pub enum InputError {
    Unsupported,
    BackendFailed,
}

impl InputError {
    /// The text that the error displays.
    pub fn message(&self) -> (m: &'static str)
        ensures
            m@ == match self {
                InputError::Unsupported => "input command out of supported range"@,
                InputError::BackendFailed => "input backend failed"@,
            },
    {
        match self {
            InputError::Unsupported => "input command out of supported range",
            InputError::BackendFailed => "input backend failed",
        }
    }
}

/// Whether the game can be sent `command`: a hotbar slot must lie in 1 to 9.
pub open spec fn command_supported(command: InputCommand) -> bool {
    match command {
        InputCommand::Hotbar(slot) => 1 <= slot <= 9,
        _ => true,
    }
}

/// Something that delivers input commands to the game.
pub trait InputBackend {
    fn send(&mut self, command: InputCommand) -> Result<(), InputError>;
}

/// A backend that only records the commands it was sent.
#[derive(Debug)]
pub struct NullInputBackend {
    pub sent: Vec<InputCommand>,
}

impl Default for NullInputBackend {
    fn default() -> (b: Self)
        ensures
            b.sent@.len() == 0,
    {
        NullInputBackend { sent: Vec::new() }
    }
}

impl InputBackend for NullInputBackend {
    fn send(&mut self, command: InputCommand) -> (r: Result<(), InputError>)
        ensures
            r is Ok,
            final(self).sent@ == old(self).sent@.push(command),
    {
        self.sent.push(command);
        Ok(())
    }
}

/// Accepts every command but a hotbar slot outside 1 to 9.
pub fn validate_command(command: InputCommand) -> (r: Result<(), InputError>)
    ensures
        command_supported(command) ==> r is Ok,
        !command_supported(command) ==> r == Err::<(), InputError>(InputError::Unsupported),
{
    if let InputCommand::Hotbar(slot) = command {
        if !(1 <= slot && slot <= 9) {
            return Err(InputError::Unsupported);
        }
    }
    Ok(())
}

} // verus!
