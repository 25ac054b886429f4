//! A world of solid stone.

use vstd::prelude::*;
use crate::block::block::Block;
use crate::level::chunk::config::{ChunkConfigs, CHUNK_VOLUME_SIZE};
use crate::level::chunk::data::ChunkBlockData;
use crate::level::generators::WorldGenerator;
use crate::level::position::LevelPosition;

verus! {

/// The generator of a world of solid stone.
pub struct FlatWorldGenerator {
    pub seed: u64,
}

impl WorldGenerator for FlatWorldGenerator {
    /// Returns a chunk of stone, wherever the chunk lies.
    fn generate_chunk(&mut self, configs: ChunkConfigs, position: LevelPosition) -> (r:
        ChunkBlockData)
        ensures
            r@ == Seq::new(CHUNK_VOLUME_SIZE as nat, |i: int| Block::Stone),
            final(self).seed == old(self).seed,
    {
        ChunkBlockData::from_item(&Block::Stone)
    }
}

} // verus!
