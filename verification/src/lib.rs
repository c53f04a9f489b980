//! Coordination core of a multi-node race-timing system.
//!
//! One node is the coordinator, the others are gates at the start and at the
//! finish of a course. The coordinator's clock is the time that all of them
//! share; a gate follows it by an offset to its own clock and reports when it
//! was last activated; the coordinator derives the race from what the gates
//! report.
//!
//! - [`svc::race_node`]: the messages between nodes and their 16-byte frames.
//! - [`svc::clock`]: local time, coordinated time and the offset between them.
//! - [`app::gates`] and [`app::race`]: what is known of the gates, and the race
//!   that follows from it.
//! - [`app::observations`]: what a node has heard from the others, and how long
//!   it stays good.
//! - [`app`]: the role state machine that is run once per tick.
//! - [`app::invariants`]: what holds of the state machine on every tick and run.
//! - [`hal`]: the plain values that the hardware of a node gives and takes.
//! - [`demo`]: a small counting node for trying out a board.
//!
//! Nothing in here reads a pin, sends a frame or sleeps: the program around the
//! library samples its surroundings, asks the library what to do, and does it.

pub mod app;
pub mod demo;
pub mod hal;
pub mod svc;
