//! The world: positions, chunks and what fills them.

pub mod chunk;
pub mod configs;
pub mod generators;
pub mod level;
pub mod position;
