//! A chunk as a boxed grid, addressed by `(x, y, z)`.

use vstd::prelude::*;
use crate::block::block::Block;
use crate::level::chunk::buffer::{cell_at, in_chunk, lemma_linear_index_bijective, linear_index};
use crate::level::chunk::config::{CHUNK_PLANE_SIZE, CHUNK_VOLUME_SIZE};

pub use crate::level::chunk::config::CHUNK_SIZE;

verus! {

/// One value of type `T` for every cell of a chunk, in a box.
///
/// The array is indexed by `y`, then by `z`, then by `x`: the cells lie in
/// the order of their linear indices.
pub struct IndexableChunkList<T> {
    pub data: Box<[[[T; CHUNK_SIZE]; CHUNK_SIZE]; CHUNK_SIZE]>,
}

impl<T> IndexableChunkList<T> {
    /// The value of the cell at `(x, y, z)`.
    pub open spec fn at(&self, x: int, y: int, z: int) -> T {
        self.data[y][z][x]
    }

    /// The values of the list in the order of their linear indices.
    pub open spec fn view(&self) -> Seq<T> {
        Seq::new(
            CHUNK_VOLUME_SIZE as nat,
            |i: int| self.at(cell_at(i).0, cell_at(i).1, cell_at(i).2),
        )
    }

    /// The value of the cell at `(x, y, z)`, if that is a cell of the chunk.
    pub open spec fn at_or_none(&self, x: int, y: int, z: int) -> Option<T> {
        if in_chunk(x, y, z) {
            Some(self.at(x, y, z))
        } else {
            None
        }
    }

    /// Creates an iterator over the cells of the list, which starts at the
    /// first cell.
    pub fn iter(&self) -> (r: IndexableChunkListIterator<'_, T>)
        ensures
            r.list() == *self,
            r.position() == 0,
    {
        IndexableChunkListIterator { inner: self, index: 0 }
    }

    /// Returns the value of the cell at `(x, y, z)`, or nothing where that
    /// is no cell of the chunk.
    pub fn try_get(&self, x: isize, y: isize, z: isize) -> (r: Option<&T>)
        ensures
            r == match self.at_or_none(x as int, y as int, z as int) {
                Some(value) => Some(&value),
                None => None,
            },
    {
        if x < 0 || x >= CHUNK_SIZE as isize || y < 0 || y >= CHUNK_SIZE as isize || z < 0 || z
            >= CHUNK_SIZE as isize {
            return None;
        }
        let (x, y, z) = (x as usize, y as usize, z as usize);
        Some(&self.data[y][z][x])
    }

    /// Returns the cell at `index`, given as `(x, y, z)`, for writing. It
    /// has to be a cell of the chunk. No other cell can be written through
    /// what is returned.
    pub fn index_mut(&mut self, index: (usize, usize, usize)) -> (r: &mut T)
        requires
            in_chunk(index.0 as int, index.1 as int, index.2 as int),
        ensures
            *r == old(self).at(index.0 as int, index.1 as int, index.2 as int),
            final(self)@ == old(self)@.update(
                linear_index(index.0 as int, index.1 as int, index.2 as int),
                *final(r),
            ),
    {
        let (x, y, z) = index;
        &mut self.data[y][z][x]
    }
}

impl<T> core::ops::Index<(usize, usize, usize)> for IndexableChunkList<T> {
    type Output = T;

    /// Returns the value of the cell at `index`, given as `(x, y, z)`.
    fn index(&self, index: (usize, usize, usize)) -> (r: &T)
        ensures
            *r == self.at(index.0 as int, index.1 as int, index.2 as int),
    {
        let (x, y, z) = index;
        &self.data[y][z][x]
    }
}

impl<T> vstd::std_specs::core::IndexSpecImpl<(usize, usize, usize)> for IndexableChunkList<T> {
    /// An index has to be that of a cell of the chunk.
    open spec fn index_req(&self, index: &(usize, usize, usize)) -> bool {
        in_chunk(index.0 as int, index.1 as int, index.2 as int)
    }
}

/// An iterator over the cells of a list, in the order of their linear
/// indices.
pub struct IndexableChunkListIterator<'a, T> {
    inner: &'a IndexableChunkList<T>,
    index: usize,
}

impl<'a, T> IndexableChunkListIterator<'a, T> {
    /// The list that is walked.
    pub closed spec fn list(&self) -> IndexableChunkList<T> {
        *self.inner
    }

    /// The number of items that were yielded.
    pub closed spec fn position(&self) -> int {
        self.index as int
    }

    /// Yields the next cell, as `(x, y, z)`, with its value, or nothing once
    /// every cell was yielded.
    pub fn next(&mut self) -> (r: Option<((usize, usize, usize), &'a T)>)
        ensures
            final(self).list() == old(self).list(),
            r == if old(self).position() < CHUNK_VOLUME_SIZE {
                let cell = cell_at(old(self).position());
                Some(
                    (
                        (cell.0 as usize, cell.1 as usize, cell.2 as usize),
                        &old(self).list()@[old(self).position()],
                    ),
                )
            } else {
                None
            },
            final(self).position() == if old(self).position() < CHUNK_VOLUME_SIZE {
                old(self).position() + 1
            } else {
                old(self).position()
            },
    {
        let (y, r) = (self.index / CHUNK_PLANE_SIZE, self.index % CHUNK_PLANE_SIZE);
        let (z, x) = (r / CHUNK_SIZE, r % CHUNK_SIZE);
        if x >= CHUNK_SIZE || y >= CHUNK_SIZE || z >= CHUNK_SIZE {
            return None;
        }
        self.index = self.index + 1;
        Some(((x, y, z), &self.inner.data[y][z][x]))
    }
}

impl IndexableChunkList<Block> {
    /// Whether the cell `(x, y, z)` lies in the shell of the funnel that
    /// opens upwards from the first cell of a chunk: the square of its
    /// distance from the vertical axis and the square of its height differ
    /// by less than `CHUNK_SIZE`.
    pub open spec fn in_funnel(x: int, y: int, z: int) -> bool {
        -(CHUNK_SIZE as int) < x * x + z * z - y * y < CHUNK_SIZE as int
    }

    /// Creates the chunk that shows a funnel of grass in air.
    pub fn funnel() -> (r: Self)
        ensures
            forall|x: int, y: int, z: int|
                in_chunk(x, y, z) ==> #[trigger] r.at(x, y, z) == if Self::in_funnel(x, y, z) {
                    Block::Grass
                } else {
                    Block::Air
                },
    {
        let mut list = IndexableChunkList {
            data: Box::new([[[Block::Air;CHUNK_SIZE];CHUNK_SIZE];CHUNK_SIZE]),
        };
        let mut index: usize = 0;
        while index < CHUNK_VOLUME_SIZE
            invariant
                index <= CHUNK_VOLUME_SIZE,
                forall|x: int, y: int, z: int|
                    in_chunk(x, y, z) ==> #[trigger] list.at(x, y, z) == if linear_index(x, y, z)
                        < index && Self::in_funnel(x, y, z) {
                        Block::Grass
                    } else {
                        Block::Air
                    },
            decreases CHUNK_VOLUME_SIZE - index,
        {
            let (y, rest) = (index / CHUNK_PLANE_SIZE, index % CHUNK_PLANE_SIZE);
            let (z, x) = (rest / CHUNK_SIZE, rest % CHUNK_SIZE);
            let (sx, sy, sz) = (x as isize, y as isize, z as isize);
            assert(0 <= sx * sx <= 225 && 0 <= sy * sy <= 225 && 0 <= sz * sz <= 225)
                by (nonlinear_arith)
                requires
                    0 <= sx < 16,
                    0 <= sy < 16,
                    0 <= sz < 16,
            ;
            let eq = sx * sx + sz * sz - sy * sy;
            let thres = CHUNK_SIZE as isize;
            let ghost before = list;
            if eq < thres && eq > -thres {
                *list.index_mut((x, y, z)) = Block::Grass;
            }
            proof {
                assert forall|a: int, b: int, c: int| in_chunk(a, b, c) implies #[trigger] list.at(
                    a,
                    b,
                    c,
                ) == if linear_index(a, b, c) < index + 1 && Self::in_funnel(a, b, c) {
                    Block::Grass
                } else {
                    Block::Air
                } by {
                    lemma_linear_index_bijective(a, b, c, index as int);
                    assert(before.at(a, b, c) == before@[linear_index(a, b, c)]);
                    assert(list.at(a, b, c) == list@[linear_index(a, b, c)]);
                }
            }
            index = index + 1;
        }
        proof {
            assert forall|x: int, y: int, z: int| in_chunk(x, y, z) implies linear_index(x, y, z)
                < CHUNK_VOLUME_SIZE by {
                lemma_linear_index_bijective(x, y, z, 0);
            }
        }
        list
    }
}

/// The blocks of a chunk.
pub struct ChunkData {
    data: IndexableChunkList<Block>,
}

impl ChunkData {
    /// The blocks of the chunk in the order of their linear indices.
    pub closed spec fn view(&self) -> Seq<Block> {
        self.data@
    }

    /// Creates a chunk of solid stone.
    pub fn new() -> (r: ChunkData)
        ensures
            r@ == Seq::new(CHUNK_VOLUME_SIZE as nat, |i: int| Block::Stone),
    {
        let r = ChunkData {
            data: IndexableChunkList {
                data: Box::new([[[Block::Stone;CHUNK_SIZE];CHUNK_SIZE];CHUNK_SIZE]),
            },
        };
        assert(r@ =~= Seq::new(CHUNK_VOLUME_SIZE as nat, |i: int| Block::Stone));
        r
    }

    /// Returns the block at `(x, y, z)`, which has to be a cell of the
    /// chunk.
    pub fn get_block(&self, x: usize, y: usize, z: usize) -> (r: Block)
        requires
            in_chunk(x as int, y as int, z as int),
        ensures
            r == self@[linear_index(x as int, y as int, z as int)],
    {
        self.data[(x, y, z)]
    }

    /// Puts `block` at `(x, y, z)`, which has to be a cell of the chunk,
    /// and returns the chunk for the next change.
    pub fn set_block(&mut self, x: usize, y: usize, z: usize, block: Block) -> (r: &mut Self)
        requires
            in_chunk(x as int, y as int, z as int),
        ensures
            r@ == old(self)@.update(linear_index(x as int, y as int, z as int), block),
            *final(self) == *final(r),
    {
        *self.data.index_mut((x, y, z)) = block;
        self
    }
}

} // verus!
