use vstd::prelude::*;

verus! {

/// The keys that steer the view or the clock.
#[derive(Clone, Copy, Debug, PartialEq, Eq, Structural)]
pub enum Key {
    W,
    A,
    S,
    D,
    LeftShift,
    Space,
    Other,
}

/// What happened to a key or a mouse button.
#[derive(Clone, Copy, Debug, PartialEq, Eq, Structural)]
pub enum KeyAction {
    Press,
    Repeat,
    Release,
}

/// An input event as the simulation reads it.
#[derive(Clone, Copy, Debug, PartialEq, Eq, Structural)]
pub enum InputEvent {
    Key { key: Key, action: KeyAction },
    /// The primary (left) mouse button.
    PrimaryButton { action: KeyAction },
    Other,
}

/// What an input event asks of the simulation.
#[derive(Clone, Copy, Debug, PartialEq, Eq, Structural)]
pub enum Command {
    MoveForward,
    MoveBackward,
    MoveLeft,
    MoveRight,
    /// Multiply the camera's speed by five.
    SpeedUp,
    /// Divide the camera's speed by five.
    SlowDown,
    /// Pause running time or resume paused time.
    ToggleTime,
    /// Start turning the view with the mouse.
    StartDrag,
    /// Stop turning the view with the mouse.
    EndDrag,
}

/// Whether a key action moves the camera: a press, or the key held down.
pub open spec fn is_held(action: KeyAction) -> bool {
    action == KeyAction::Press || action == KeyAction::Repeat
}

/// The command that event `e` gives, if any.
pub open spec fn command_of(e: InputEvent) -> Option<Command> {
    match e {
        InputEvent::Key { key, action } => match key {
            Key::W => if is_held(action) { Some(Command::MoveForward) } else { None },
            Key::S => if is_held(action) { Some(Command::MoveBackward) } else { None },
            Key::D => if is_held(action) { Some(Command::MoveRight) } else { None },
            Key::A => if is_held(action) { Some(Command::MoveLeft) } else { None },
            Key::LeftShift => match action {
                KeyAction::Press => Some(Command::SpeedUp),
                KeyAction::Release => Some(Command::SlowDown),
                KeyAction::Repeat => None,
            },
            Key::Space => if action == KeyAction::Press { Some(Command::ToggleTime) } else { None },
            Key::Other => None,
        },
        InputEvent::PrimaryButton { action } => match action {
            KeyAction::Press => Some(Command::StartDrag),
            KeyAction::Release => Some(Command::EndDrag),
            KeyAction::Repeat => None,
        },
        InputEvent::Other => None,
    }
}

/// Reads the command that an input event gives: the movement keys act
/// while pressed or held, shift speeds the camera up on press and slows it
/// on release, space toggles time, and the primary button starts and ends
/// a drag of the view.
pub fn command_for(e: InputEvent) -> (r: Option<Command>)
    ensures
        r == command_of(e),
{
    match e {
        InputEvent::Key { key, action } => {
            let held = match action {
                KeyAction::Press | KeyAction::Repeat => true,
                KeyAction::Release => false,
            };
            match key {
                Key::W => if held { Some(Command::MoveForward) } else { None },
                Key::S => if held { Some(Command::MoveBackward) } else { None },
                Key::D => if held { Some(Command::MoveRight) } else { None },
                Key::A => if held { Some(Command::MoveLeft) } else { None },
                Key::LeftShift => match action {
                    KeyAction::Press => Some(Command::SpeedUp),
                    KeyAction::Release => Some(Command::SlowDown),
                    KeyAction::Repeat => None,
                },
                Key::Space => match action {
                    KeyAction::Press => Some(Command::ToggleTime),
                    _ => None,
                },
                Key::Other => None,
            }
        },
        InputEvent::PrimaryButton { action } => match action {
            KeyAction::Press => Some(Command::StartDrag),
            KeyAction::Release => Some(Command::EndDrag),
            KeyAction::Repeat => None,
        },
        InputEvent::Other => None,
    }
}

} // verus!
