//! Raw device events, as the host hands them over for one cycle.
use vstd::prelude::*;

verus! {

/// The keys that the game reads; every other key is `Other`.
#[derive(Clone, Copy, Debug, PartialEq, Eq, Hash, Structural)]
pub enum KeyCode {
    W,
    A,
    S,
    D,
    J,
    K,
    Space,
    Return,
    Escape,
    F3,
    Other,
}

/// A key went down (`pressed`) or up. `key_code` is `None` for a key that
/// the platform could not name.
#[derive(Clone, Copy, Debug, PartialEq, Eq, Structural)]
pub struct KeyboardEvent {
    pub key_code: Option<KeyCode>,
    pub pressed: bool,
}

#[derive(Clone, Copy, Debug, PartialEq, Eq, Structural)]
pub enum MouseButton {
    Left,
    Right,
    Middle,
    Other(u16),
}

#[derive(Clone, Copy, Debug, PartialEq, Eq, Structural)]
pub struct MouseButtonEvent {
    pub button: MouseButton,
    pub pressed: bool,
}

#[derive(Clone, Copy, Debug, PartialEq, Eq, Structural)]
pub enum GamepadAxis {
    LeftStickX,
    LeftStickY,
    LeftZ,
    RightStickX,
    RightStickY,
    RightZ,
    Other(u8),
}

#[derive(Clone, Copy, Debug, PartialEq, Eq, Structural)]
pub enum GamepadButton {
    South,
    East,
    North,
    West,
    LeftTrigger,
    LeftTrigger2,
    RightTrigger,
    RightTrigger2,
    Select,
    Start,
    DPadUp,
    DPadDown,
    DPadLeft,
    DPadRight,
    Other(u8),
}

/// A gamepad event. An axis value is in thousandths of the stick's travel;
/// a button is `pressed` when it is fully down.
#[derive(Clone, Copy, Debug, PartialEq, Eq, Structural)]
pub enum GamepadEvent {
    Connection { gamepad: u32 },
    Button { gamepad: u32, button: GamepadButton, pressed: bool },
    Axis { gamepad: u32, axis: GamepadAxis, value: i32 },
}

impl GamepadEvent {
    pub open spec fn gamepad_id_spec(&self) -> u32 {
        match *self {
            GamepadEvent::Connection { gamepad } => gamepad,
            GamepadEvent::Button { gamepad, .. } => gamepad,
            GamepadEvent::Axis { gamepad, .. } => gamepad,
        }
    }

    /// The gamepad that sent the event.
    pub fn gamepad_id(&self) -> (r: u32)
        ensures
            r == self.gamepad_id_spec(),
    {
        match *self {
            GamepadEvent::Connection { gamepad } => gamepad,
            GamepadEvent::Button { gamepad, .. } => gamepad,
            GamepadEvent::Axis { gamepad, .. } => gamepad,
        }
    }
}

} // verus!
