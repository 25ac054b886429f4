//! The blocks of a chunk.

use vstd::prelude::*;
use crate::block::block::Block;
use crate::level::chunk::buffer::ChunkBuffer;
use crate::level::chunk::config::{CHUNK_SIZE, CHUNK_VOLUME_SIZE};
use crate::level::position::LevelPosition;

verus! {

/// The blocks of a chunk.
#[derive(Clone, Copy)]
pub struct ChunkBlockData(pub ChunkBuffer<Block>);

impl ChunkBlockData {
    /// The blocks of the chunk in the order of their linear indices.
    pub open spec fn view(&self) -> Seq<Block> {
        self.0@
    }

    /// The block at `position`.
    pub open spec fn cell(&self, position: LevelPosition) -> Block {
        self.0.cell(position)
    }

    /// Creates a chunk filled with the given block.
    pub fn from_item(block: &Block) -> (r: Self)
        ensures
            r@ == Seq::new(CHUNK_VOLUME_SIZE as nat, |i: int| *block),
    {
        Self(ChunkBuffer::from_item(block))
    }

    /// Creates a chunk from an array of layers, each an array of rows along
    /// `z`, each an array of blocks along `x`.
    pub fn from_array(data: [[[Block; CHUNK_SIZE]; CHUNK_SIZE]; CHUNK_SIZE]) -> (r: Self)
        ensures
            r.0.0 == data,
            forall|p: LevelPosition|
                p.in_chunk() ==> #[trigger] r.cell(p) == data[p.y as int][p.z as int][p.x as int],
    {
        Self(ChunkBuffer::from_array(data))
    }

    /// Creates the chunk whose first cell lies at `chunk_position` in the
    /// world: each cell holds what `f` returns for the position of the cell
    /// in the world and its position in the chunk. Every cell has to have a
    /// position in the world.
    pub fn from_fn<F: Fn(LevelPosition, LevelPosition) -> Block>(
        chunk_position: LevelPosition,
        f: F,
    ) -> (r: Self)
        requires
            chunk_position.x + CHUNK_SIZE - 1 <= i32::MAX,
            chunk_position.y + CHUNK_SIZE - 1 <= i32::MAX,
            chunk_position.z + CHUNK_SIZE - 1 <= i32::MAX,
            forall|p: LevelPosition|
                p.in_chunk() ==> call_requires(
                    f,
                    (chunk_position.moved(p.x as int, p.y as int, p.z as int), p),
                ),
        ensures
            forall|p: LevelPosition|
                p.in_chunk() ==> call_ensures(
                    f,
                    (chunk_position.moved(p.x as int, p.y as int, p.z as int), p),
                    #[trigger] r.cell(p),
                ),
    {
        let mut buffer = ChunkBuffer::from_item(&Block::Air);
        let mut index: usize = 0;
        while index < CHUNK_VOLUME_SIZE
            invariant
                index <= CHUNK_VOLUME_SIZE,
                chunk_position.x + CHUNK_SIZE - 1 <= i32::MAX,
                chunk_position.y + CHUNK_SIZE - 1 <= i32::MAX,
                chunk_position.z + CHUNK_SIZE - 1 <= i32::MAX,
                forall|p: LevelPosition|
                    p.in_chunk() ==> call_requires(
                        f,
                        (chunk_position.moved(p.x as int, p.y as int, p.z as int), p),
                    ),
                forall|p: LevelPosition|
                    p.in_chunk() && p.linear_index() < index ==> call_ensures(
                        f,
                        (chunk_position.moved(p.x as int, p.y as int, p.z as int), p),
                        #[trigger] buffer.cell(p),
                    ),
            decreases CHUNK_VOLUME_SIZE - index,
        {
            let pos = LevelPosition::from_buffer_index(index);
            let (x, y, z) = pos.get_xyz();
            let block = f(chunk_position.offset(x, y, z), pos);
            let ghost before = buffer;
            buffer.set(pos, &block);
            proof {
                assert forall|p: LevelPosition|
                    p.in_chunk() && p.linear_index() < index + 1 implies call_ensures(
                    f,
                    (chunk_position.moved(p.x as int, p.y as int, p.z as int), p),
                    #[trigger] buffer.cell(p),
                ) by {
                    if p.linear_index() == index {
                        p.lemma_index_injective(pos);
                    } else {
                        assert(buffer.cell(p) == before.cell(p));
                    }
                }
            }
            index = index + 1;
        }
        Self(buffer)
    }

    /// Puts `block` at `position`, which has to be a cell of the chunk.
    pub fn set(&mut self, position: LevelPosition, block: &Block)
        requires
            position.in_chunk(),
        ensures
            final(self)@ == old(self)@.update(position.linear_index(), *block),
    {
        self.0.set(position, block)
    }

    /// Returns the block at `position`, which has to be a cell of the
    /// chunk.
    pub fn get(&self, position: LevelPosition) -> (r: &Block)
        requires
            position.in_chunk(),
        ensures
            *r == self.cell(position),
    {
        self.0.get(position)
    }

    /// Returns the block at `position`, or nothing where that is no cell of
    /// the chunk.
    pub fn try_get(&self, position: LevelPosition) -> (r: Option<&Block>)
        ensures
            r == match self.0.cell_or_none(position) {
                Some(block) => Some(&block),
                None => None,
            },
    {
        self.0.try_get(position)
    }

    /// Fills the chunk with the given block.
    pub fn fill(&mut self, block: &Block)
        ensures
            final(self)@ == Seq::new(CHUNK_VOLUME_SIZE as nat, |i: int| *block),
    {
        self.0.fill(block)
    }
}

impl Default for ChunkBlockData {
    /// A chunk of air.
    fn default() -> (r: Self)
        ensures
            r@ == Seq::new(CHUNK_VOLUME_SIZE as nat, |i: int| Block::Air),
    {
        Self::from_item(&Block::Air)
    }
}

} // verus!
