use vstd::prelude::*;

verus! {

/// What a gate sensor reports when it is sampled.
#[derive(Debug, Clone, Copy, PartialEq, Eq, Structural)]
pub enum GateState {
    Inactive,
    Active,
}

impl Default for GateState {
    fn default() -> (state: Self)
        ensures
            state == GateState::Inactive,
    {
        GateState::Inactive
    }
}

impl GateState {
    /// Whether something is passing through.
    pub fn is_active(&self) -> (active: bool)
        ensures
            active == (*self == GateState::Active),
    {
        match self {
            GateState::Active => true,
            GateState::Inactive => false,
        }
    }

    /// The byte that stands for this state in a frame: 1 for active, 0 for inactive.
    pub open spec fn spec_to_byte(self) -> u8 {
        match self {
            GateState::Active => 1u8,
            GateState::Inactive => 0u8,
        }
    }

    /// The state that a frame byte stands for: 1 is active, every other value inactive.
    pub open spec fn spec_from_byte(byte: u8) -> GateState {
        if byte == 1 {
            GateState::Active
        } else {
            GateState::Inactive
        }
    }

    #[verifier::when_used_as_spec(spec_to_byte)]
    pub fn to_byte(self) -> (byte: u8)
        ensures
            byte == self.spec_to_byte(),
    {
        match self {
            GateState::Active => 1,
            GateState::Inactive => 0,
        }
    }

    #[verifier::when_used_as_spec(spec_from_byte)]
    pub fn from_byte(byte: u8) -> (state: GateState)
        ensures
            state == GateState::spec_from_byte(byte),
    {
        if byte == 1 {
            GateState::Active
        } else {
            GateState::Inactive
        }
    }
}

} // verus!
