//! Descriptions of worlds from which chunks are built.

pub mod flat;
pub mod prototype;
pub mod world;
