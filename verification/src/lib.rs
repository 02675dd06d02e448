//! The verified core of the Keypoint split keyboard's left half: the half that
//! talks to the host and to the right half.

pub mod address;
pub mod behavior;
pub mod clock;
pub mod controller;
pub mod identity;
pub mod layout;
pub mod panel;
pub mod schedule;
pub mod sensing;
pub mod ticks;
pub mod wiring;
