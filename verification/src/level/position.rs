//! Positions on the block lattice.

use vstd::prelude::*;
use crate::level::chunk::buffer::{cell_at, in_chunk, linear_index};
use crate::level::chunk::config::{CHUNK_SIZE, CHUNK_VOLUME_SIZE};

verus! {

/// A position on the block lattice: of a block in the world, or of a cell
/// within its chunk.
#[derive(Clone, Copy, Debug, PartialEq, Eq, Hash, Structural)]
pub struct LevelPosition {
    pub x: i32,
    pub y: i32,
    pub z: i32,
}

impl LevelPosition {
    /// The position as a point of the integer lattice.
    pub open spec fn view(&self) -> (int, int, int) {
        (self.x as int, self.y as int, self.z as int)
    }

    /// Whether the position is that of a cell of a chunk: each coordinate
    /// lies in `[0, CHUNK_SIZE)`.
    pub open spec fn in_chunk(self) -> bool {
        in_chunk(self.x as int, self.y as int, self.z as int)
    }

    /// The index of the cell in the buffer of its chunk:
    /// `x + z * CHUNK_SIZE + y * CHUNK_SIZE²`.
    pub open spec fn linear_index(self) -> int {
        linear_index(self.x as int, self.y as int, self.z as int)
    }

    /// The cell with the given index in the buffer of its chunk.
    pub open spec fn at_index(index: int) -> Self {
        LevelPosition {
            x: cell_at(index).0 as i32,
            y: cell_at(index).1 as i32,
            z: cell_at(index).2 as i32,
        }
    }

    /// The position moved by the given steps, where that is a position.
    pub open spec fn moved(self, x: int, y: int, z: int) -> Self {
        LevelPosition {
            x: (self.x + x) as i32,
            y: (self.y + y) as i32,
            z: (self.z + z) as i32,
        }
    }

    /// Creates the position with the given coordinates.
    pub fn new(x: i32, y: i32, z: i32) -> (r: Self)
        ensures
            r == (LevelPosition { x, y, z }),
    {
        Self { x, y, z }
    }

    /// Returns the three coordinates.
    pub fn get_xyz(&self) -> (r: (i32, i32, i32))
        ensures
            r == (self.x, self.y, self.z),
    {
        (self.x, self.y, self.z)
    }

    /// Returns the position moved by the given steps. The result has to be
    /// a position: no coordinate may leave the range of `i32`.
    pub fn offset(&self, x: i32, y: i32, z: i32) -> (r: Self)
        requires
            i32::MIN <= self.x + x <= i32::MAX,
            i32::MIN <= self.y + y <= i32::MAX,
            i32::MIN <= self.z + z <= i32::MAX,
        ensures
            r@ == (self.x + x, self.y + y, self.z + z),
            r == self.moved(x as int, y as int, z as int),
    {
        Self::new(self.x + x, self.y + y, self.z + z)
    }

    /// Returns the coordinates of the chunk that holds the position: each
    /// coordinate divided by `CHUNK_SIZE`, rounded down.
    pub fn chunk_xyz(&self) -> (r: (i32, i32, i32))
        ensures
            r.0 == self.x as int / CHUNK_SIZE as int,
            r.1 == self.y as int / CHUNK_SIZE as int,
            r.2 == self.z as int / CHUNK_SIZE as int,
    {
        (self.x.div_euclid(16), self.y.div_euclid(16), self.z.div_euclid(16))
    }

    /// Returns the coordinates of the position within its chunk: the
    /// remainders of that division, which are never negative.
    pub fn chunk_dxdydz(&self) -> (r: (i32, i32, i32))
        ensures
            r.0 == self.x as int % CHUNK_SIZE as int,
            r.1 == self.y as int % CHUNK_SIZE as int,
            r.2 == self.z as int % CHUNK_SIZE as int,
            (LevelPosition { x: r.0, y: r.1, z: r.2 }).in_chunk(),
    {
        (self.x.rem_euclid(16), self.y.rem_euclid(16), self.z.rem_euclid(16))
    }

    /// Returns the position of the first cell of the chunk with the given
    /// chunk coordinates. That cell has to have a position: no coordinate
    /// may leave the range of `i32`.
    pub fn from_chunk_xyz(x: i32, y: i32, z: i32) -> (r: Self)
        requires
            i32::MIN <= x * CHUNK_SIZE <= i32::MAX,
            i32::MIN <= y * CHUNK_SIZE <= i32::MAX,
            i32::MIN <= z * CHUNK_SIZE <= i32::MAX,
        ensures
            r@ == (x * CHUNK_SIZE, y * CHUNK_SIZE, z * CHUNK_SIZE),
    {
        Self::new(x * 16, y * 16, z * 16)
    }

    /// Returns whether the given value is within the range `[min, max)`.
    pub fn in_range(min: i32, max: i32, value: i32) -> (r: bool)
        ensures
            r == (min <= value < max),
    {
        value >= min && value < max
    }

    /// Returns the index of the cell in the buffer of its chunk.
    pub fn buffer_index(&self) -> (r: usize)
        requires
            self.in_chunk(),
        ensures
            r == self.linear_index(),
            r < CHUNK_VOLUME_SIZE,
    {
        self.x as usize + self.z as usize * 16 + self.y as usize * 256
    }

    /// Returns the cell with the given index in the buffer of its chunk.
    pub fn from_buffer_index(index: usize) -> (r: Self)
        requires
            index < CHUNK_VOLUME_SIZE,
        ensures
            r == Self::at_index(index as int),
            r.in_chunk(),
            r.linear_index() == index,
    {
        let (y, rest) = (index / 256, index % 256);
        let (z, x) = (rest / 16, rest % 16);
        Self::new(x as i32, y as i32, z as i32)
    }

    /// A position is taken apart into its chunk and its place within the
    /// chunk, and put together again from the two: the place within the
    /// chunk is a cell of the chunk, for negative coordinates too.
    pub proof fn lemma_chunk_round_trip(self)
        ensures
            ({
                let chunk = (
                    self.x as int / CHUNK_SIZE as int,
                    self.y as int / CHUNK_SIZE as int,
                    self.z as int / CHUNK_SIZE as int,
                );
                let local = (
                    self.x as int % CHUNK_SIZE as int,
                    self.y as int % CHUNK_SIZE as int,
                    self.z as int % CHUNK_SIZE as int,
                );
                &&& 0 <= local.0 < CHUNK_SIZE && 0 <= local.1 < CHUNK_SIZE && 0 <= local.2
                    < CHUNK_SIZE
                &&& self@ == (
                    chunk.0 * CHUNK_SIZE + local.0,
                    chunk.1 * CHUNK_SIZE + local.1,
                    chunk.2 * CHUNK_SIZE + local.2,
                )
            }),
    {
    }

    /// The index of a cell lies in the buffer, and leads back to the cell.
    pub proof fn lemma_index_of_cell(self)
        requires
            self.in_chunk(),
        ensures
            0 <= self.linear_index() < CHUNK_VOLUME_SIZE,
            Self::at_index(self.linear_index()) == self,
    {
    }

    /// An index of the buffer is that of a cell of the chunk, and the cell
    /// leads back to the index.
    pub proof fn lemma_cell_of_index(index: int)
        requires
            0 <= index < CHUNK_VOLUME_SIZE,
        ensures
            Self::at_index(index).in_chunk(),
            Self::at_index(index).linear_index() == index,
    {
    }

    /// Two cells with the same index are the same cell.
    pub proof fn lemma_index_injective(self, other: Self)
        requires
            self.in_chunk(),
            other.in_chunk(),
            self.linear_index() == other.linear_index(),
        ensures
            self == other,
    {
        self.lemma_index_of_cell();
        other.lemma_index_of_cell();
    }

    /// The buffer is walked layer by layer from the bottom, each layer row
    /// by row along z, each row along x: of two indices the smaller one
    /// belongs to the cell that comes first in that order.
    pub proof fn lemma_index_order(i: int, j: int)
        requires
            0 <= i < j < CHUNK_VOLUME_SIZE,
        ensures
            ({
                let p = Self::at_index(i);
                let q = Self::at_index(j);
                p.y < q.y || (p.y == q.y && p.z < q.z) || (p.y == q.y && p.z == q.z && p.x < q.x)
            }),
    {
    }
}

} // verus!
