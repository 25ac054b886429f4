//! The generated world.

use vstd::prelude::*;
use crate::block::blocks::Block;
use crate::level::chunk::buffer::ChunkBuffer;
use crate::level::chunk::build::prototype::WorldType;
use crate::level::chunk::config::CHUNK_VOLUME_SIZE;
use crate::utils::position::chunk::ChunkPosition;

pub mod decorate;

verus! {

/// The world that is generated. Nothing is generated yet: it is empty.
pub struct WorldServer;

impl WorldType for WorldServer {
    /// Returns a chunk of air.
    fn get_chunk(&self, chunk_pos: ChunkPosition) -> (r: ChunkBuffer<Block>)
        ensures
            r@ == Seq::new(CHUNK_VOLUME_SIZE as nat, |i: int| Block::Air),
    {
        ChunkBuffer::from_item(&Block::Air)
    }
}

} // verus!
