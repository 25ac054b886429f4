//! Coordinates and units.

pub mod euclid;
pub mod position;
pub mod unit3;
