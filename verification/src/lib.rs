//! The rules of a scene of moving rectangles: how many there should be, which of them
//! are alive, when one is thrown back across the screen, and what the counter shows.
//!
//! Everything here works on plain values. Drawing, input devices, the clock and
//! single-precision arithmetic belong to the host that drives the scene each tick.

pub mod binary32;
pub mod boundary;
pub mod overlay;
pub mod registry;
pub mod scene;
pub mod stats;
