//! A verified gravity-mode controller for a tick-driven simulation.
//!
//! The controller owns a small state machine: a named gravity preset
//! (`GravityType`), an enabled flag, a reversed flag, and the force vector
//! those two resolve to. Discrete inputs mutate the state, and once per tick
//! an applier decides what, if anything, must be written into the host
//! engine's global gravity setting. Force components are fixed-point
//! integers in hundredths of a metre per second squared, so the whole
//! controller is exact integer arithmetic.

pub mod applier;
pub mod force;
pub mod laws;
pub mod mode;
pub mod state;
