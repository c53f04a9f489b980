use vstd::prelude::*;

verus! {

/// What the push button reports when it is sampled.
#[derive(Debug, Clone, Copy, PartialEq, Eq, Structural)]
pub enum ButtonState {
    NotPressed,
    Pressed,
}

impl Default for ButtonState {
    fn default() -> (state: Self)
        ensures
            state == ButtonState::NotPressed,
    {
        ButtonState::NotPressed
    }
}

impl ButtonState {
    /// Whether the button is held down.
    pub fn is_pressed(&self) -> (pressed: bool)
        ensures
            pressed == (*self == ButtonState::Pressed),
    {
        match self {
            ButtonState::Pressed => true,
            ButtonState::NotPressed => false,
        }
    }
}

} // verus!
