//! A world of horizontal layers.

pub mod flat;
