use vstd::prelude::*;

verus! {

/// The boards that a node can run on.
#[derive(Debug, Clone, Copy, PartialEq, Eq, Structural)]
pub enum BoardType {
    M5StampC3,
    RustDevKit,
}

impl BoardType {
    /// The number of the GPIO pin that the button of this board is wired to.
    pub open spec fn spec_button_gpio(&self) -> u8 {
        match self {
            BoardType::M5StampC3 => 3,
            BoardType::RustDevKit => 9,
        }
    }

    #[verifier::when_used_as_spec(spec_button_gpio)]
    pub fn button_gpio(&self) -> (pin: u8)
        ensures
            pin == self.spec_button_gpio(),
    {
        match self {
            BoardType::M5StampC3 => 3,
            BoardType::RustDevKit => 9,
        }
    }
}

} // verus!
