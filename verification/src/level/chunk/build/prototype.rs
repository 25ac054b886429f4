//! What every kind of world offers.

use vstd::prelude::*;
use crate::block::blocks::Block;
use crate::level::chunk::buffer::ChunkBuffer;
use crate::utils::position::chunk::ChunkPosition;

verus! {

/// A kind of world: something that can say what a chunk of it holds.
pub trait WorldType {
    /// Returns the blocks of the chunk at `position`.
    fn get_chunk(&self, position: ChunkPosition) -> ChunkBuffer<Block>;
}

} // verus!
