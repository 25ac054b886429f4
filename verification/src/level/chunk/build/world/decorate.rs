//! From the bare shape of the terrain to blocks.

use vstd::prelude::*;
use crate::block::blocks::Block;
use crate::level::chunk::buffer::ChunkBuffer;
use crate::level::chunk::config::CHUNK_VOLUME_SIZE;
use crate::level::configs::{Seed, WaterHeight};
use crate::level::position::LevelPosition;

verus! {

/// Turns the bare shape of a terrain into blocks.
pub struct DecorateServer {
    seed: Seed,
    water_level: WaterHeight,
}

impl DecorateServer {
    /// The number from which the world is generated.
    pub closed spec fn seed(&self) -> Seed {
        self.seed
    }

    /// The height of the water surface.
    pub closed spec fn water_level(&self) -> WaterHeight {
        self.water_level
    }

    /// The block that a cell of the bare shape becomes: stone where the
    /// shape is solid, air where it is not.
    pub open spec fn solid_block(solid: bool) -> Block {
        if solid {
            Block::Stone
        } else {
            Block::Air
        }
    }

    /// Creates a server for the world of the given seed, with the water
    /// surface at height zero.
    pub fn new(seed: Seed) -> (r: Self)
        ensures
            r.seed() == seed,
            r.water_level() == 0,
    {
        Self { seed, water_level: 0 }
    }

    /// Returns the chunk of stone and air with the shape that `chunk_buffer`
    /// gives: a cell is stone where the buffer marks it as solid. The
    /// buffer is left as it is.
    pub fn solidify(&self, chunk_buffer: &mut ChunkBuffer<bool>) -> (r: ChunkBuffer<Block>)
        ensures
            *final(chunk_buffer) == *old(chunk_buffer),
            r@ == Seq::new(
                CHUNK_VOLUME_SIZE as nat,
                |i: int| Self::solid_block(old(chunk_buffer)@[i]),
            ),
    {
        let mut blocks = ChunkBuffer::from_item(&Block::Air);
        let mut index: usize = 0;
        while index < CHUNK_VOLUME_SIZE
            invariant
                index <= CHUNK_VOLUME_SIZE,
                *chunk_buffer == *old(chunk_buffer),
                blocks@.len() == CHUNK_VOLUME_SIZE,
                forall|i: int|
                    0 <= i < CHUNK_VOLUME_SIZE ==> #[trigger] blocks@[i] == if i < index {
                        Self::solid_block(chunk_buffer@[i])
                    } else {
                        Block::Air
                    },
            decreases CHUNK_VOLUME_SIZE - index,
        {
            let position = LevelPosition::from_buffer_index(index);
            if *chunk_buffer.get(position) {
                blocks.set(position, &Block::Stone);
            }
            index = index + 1;
        }
        blocks
    }
}

} // verus!
