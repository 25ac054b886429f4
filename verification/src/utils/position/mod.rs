//! Positions of blocks and of chunks in the world.

pub mod chunk;
pub mod global;
