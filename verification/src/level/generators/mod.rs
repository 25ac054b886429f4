//! Generators of chunks.

use vstd::prelude::*;
use crate::level::chunk::config::{ChunkConfigs, CHUNK_SIZE};
use crate::level::chunk::data::ChunkBlockData;
use crate::level::position::LevelPosition;

pub mod flat_world;
pub mod simple_gen;

verus! {

/// Something that fills chunks with blocks.
pub trait WorldGenerator {
    /// Returns the blocks of the chunk whose first cell lies at `position`
    /// in the world. Every cell of the chunk has to have a position in the
    /// world.
    fn generate_chunk(&mut self, configs: ChunkConfigs, position: LevelPosition) -> ChunkBlockData
        requires
            position.x + CHUNK_SIZE - 1 <= i32::MAX,
            position.y + CHUNK_SIZE - 1 <= i32::MAX,
            position.z + CHUNK_SIZE - 1 <= i32::MAX,
    ;
}

} // verus!
