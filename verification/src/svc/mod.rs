//! Services shared by the roles of a node: the clocks and the wire protocol.

pub mod clock;
pub mod dashboard;
pub mod race_node;

pub use clock::{
    calculate_clock_offset, ClockError, CoordinatedClock, CoordinatedInstant, LocalClock,
    LocalInstant, LocalOffset,
};
