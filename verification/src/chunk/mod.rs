//! A chunk as a boxed grid of blocks, and its one-pass mesher.

pub mod chunk;
pub mod mesher;
