//! Plain values exchanged with the hardware of a node.

pub mod board;
pub mod button;
pub mod dip_switch;
pub mod gate;
pub mod rgb_led;
