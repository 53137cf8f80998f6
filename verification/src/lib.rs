//! An anti-idle agent: it nudges the pointer along a random walk and presses
//! random keys, while yielding to a human who moves the pointer by hand.
//!
//! Positions are fixed-point: a coordinate counts sub-pixel units, of which
//! [`types::UNITS_PER_PIXEL`] make one screen pixel.

pub mod backend;
pub mod generator;
pub mod keyboard;
pub mod mouse;
pub mod schedule;
pub mod types;
