//! Control logic for a door-intercom actuator.
//!
//! The heart of the crate is a small state-transition engine: it consumes
//! discrete input events (setup-task completions, button presses, servo
//! motion acknowledgments), applies a fixed transition table, and announces
//! every actual state change on a broadcast channel.

pub mod intercom;
pub mod laws;
