use vstd::prelude::*;

verus! {

/// Key code of the key that moves the player up.
pub const KEY_W: u32 = 0x77;

/// Key code of the key that moves the player left.
pub const KEY_A: u32 = 0x61;

/// Key code of the key that moves the player down.
pub const KEY_S: u32 = 0x73;

/// Key code of the key that moves the player right.
pub const KEY_D: u32 = 0x64;

/// Whether a button went down or came up.
#[derive(Clone, Copy, Debug, PartialEq, Eq, Structural)]
pub enum ButtonState {
    Press,
    Release,
}

/// A button of the mouse.
#[derive(Clone, Copy, Debug, PartialEq, Eq, Structural)]
pub enum MouseButton {
    Unknown,
    Left,
    Right,
    Middle,
    X1,
    X2,
    Button6,
    Button7,
    Button8,
}

/// A button of any device. A keyboard key is given by its key code.
#[derive(Clone, Copy, Debug, PartialEq, Eq, Structural)]
pub enum Button {
    Keyboard(u32),
    Mouse(MouseButton),
    Controller,
    Hat,
}

/// A change of one button.
#[derive(Clone, Copy, Debug, PartialEq, Eq, Structural)]
pub struct ButtonArgs {
    pub state: ButtonState,
    pub button: Button,
}

/// What the caller has to do after a button event.
#[derive(Clone, Copy, Debug, PartialEq, Eq, Structural)]
pub enum InputAction {
    /// Nothing.
    Idle,
    /// Fire a bullet from where the player stands.
    Fire,
}

impl ButtonArgs {
    /// The set of pressed keys after the event.
    pub open spec fn spec_keys_after(self, keys: Set<u32>) -> Set<u32> {
        match (self.state, self.button) {
            (ButtonState::Press, Button::Keyboard(key)) => keys.insert(key),
            (ButtonState::Release, Button::Keyboard(key)) => keys.remove(key),
            _ => keys,
        }
    }

    /// What the event asks of the caller: to fire when the left mouse
    /// button went down, and nothing otherwise.
    pub open spec fn spec_action(self) -> InputAction {
        match (self.state, self.button) {
            (ButtonState::Press, Button::Mouse(MouseButton::Left)) => InputAction::Fire,
            _ => InputAction::Idle,
        }
    }
}

} // verus!
