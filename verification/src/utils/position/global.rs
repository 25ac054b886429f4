//! Positions of blocks, and how they split into a chunk and a place in it.

use vstd::prelude::*;
use crate::level::chunk::buffer::{cell_at, in_chunk, linear_index, BufferIndex};
use crate::level::chunk::config::{CHUNK_SIZE, CHUNK_VOLUME_SIZE};
use crate::utils::position::chunk::ChunkPosition;

verus! {

/// A length or a coordinate, counted in blocks.
#[derive(Copy, Clone, Debug, PartialEq, Eq, PartialOrd, Ord, Hash, Structural)]
pub struct GlobalUnit(pub i32);

impl GlobalUnit {
    /// The number of blocks.
    pub open spec fn view(&self) -> int {
        self.0 as int
    }
}

impl From<i32> for GlobalUnit {
    fn from(value: i32) -> (r: Self) {
        Self(value)
    }
}

impl vstd::std_specs::convert::FromSpecImpl<i32> for GlobalUnit {
    open spec fn obeys_from_spec() -> bool {
        true
    }

    open spec fn from_spec(value: i32) -> Self {
        GlobalUnit(value)
    }
}

impl From<GlobalUnit> for i32 {
    fn from(value: GlobalUnit) -> (r: Self) {
        value.0
    }
}

impl vstd::std_specs::convert::FromSpecImpl<GlobalUnit> for i32 {
    open spec fn obeys_from_spec() -> bool {
        true
    }

    open spec fn from_spec(value: GlobalUnit) -> Self {
        value.0
    }
}

/// The position of a block: in the world, or within its chunk.
#[derive(Copy, Clone, Debug, PartialEq, Eq, PartialOrd, Ord, Hash, Structural)]
pub struct GlobalPosition(pub GlobalUnit, pub GlobalUnit, pub GlobalUnit);

impl GlobalPosition {
    /// The position as a point of the integer lattice.
    pub open spec fn view(&self) -> (int, int, int) {
        (self.0@, self.1@, self.2@)
    }

    /// The position at the given point of the lattice, where that is a
    /// position.
    pub open spec fn at(x: int, y: int, z: int) -> Self {
        GlobalPosition(GlobalUnit(x as i32), GlobalUnit(y as i32), GlobalUnit(z as i32))
    }

    /// Whether the position is that of a cell of a chunk: each coordinate
    /// lies in `[0, CHUNK_SIZE)`.
    pub open spec fn is_local(self) -> bool {
        in_chunk(self.0@, self.1@, self.2@)
    }

    /// The chunk that holds the position: each coordinate divided by
    /// `CHUNK_SIZE`, rounded down.
    pub open spec fn chunk(self) -> ChunkPosition {
        ChunkPosition::at(
            self.0@ / CHUNK_SIZE as int,
            self.1@ / CHUNK_SIZE as int,
            self.2@ / CHUNK_SIZE as int,
        )
    }

    /// The place of the position within its chunk: the remainders of that
    /// division.
    pub open spec fn local(self) -> GlobalPosition {
        Self::at(
            self.0@ % CHUNK_SIZE as int,
            self.1@ % CHUNK_SIZE as int,
            self.2@ % CHUNK_SIZE as int,
        )
    }

    /// The point of the lattice at the place `local` within the chunk
    /// `chunk`.
    pub open spec fn join(chunk: ChunkPosition, local: GlobalPosition) -> (int, int, int) {
        (
            chunk.0@ * CHUNK_SIZE + local.0@,
            chunk.1@ * CHUNK_SIZE + local.1@,
            chunk.2@ * CHUNK_SIZE + local.2@,
        )
    }

    /// Whether the given point of the lattice has a position.
    pub open spec fn is_position(point: (int, int, int)) -> bool {
        &&& i32::MIN <= point.0 <= i32::MAX
        &&& i32::MIN <= point.1 <= i32::MAX
        &&& i32::MIN <= point.2 <= i32::MAX
    }

    /// Returns the position moved by `other`. The result has to be a
    /// position: no coordinate may leave the range of `i32`.
    pub fn offset(&self, other: Self) -> (r: Self)
        requires
            Self::is_position((self.0@ + other.0@, self.1@ + other.1@, self.2@ + other.2@)),
        ensures
            r@ == (self.0@ + other.0@, self.1@ + other.1@, self.2@ + other.2@),
    {
        Self(
            GlobalUnit(self.0.0 + other.0.0),
            GlobalUnit(self.1.0 + other.1.0),
            GlobalUnit(self.2.0 + other.2.0),
        )
    }

    /// Returns the position, within its chunk, of the cell with the given
    /// linear index, which has to be an index of the buffer of a chunk.
    pub fn from_index(index: BufferIndex) -> (r: Self)
        requires
            index < CHUNK_VOLUME_SIZE,
        ensures
            r@ == cell_at(index as int),
            r.is_local(),
            linear_index(r.0@, r.1@, r.2@) == index,
    {
        let (rzy, x) = (index / CHUNK_SIZE, index % CHUNK_SIZE);
        let (y, z) = (rzy / CHUNK_SIZE, rzy % CHUNK_SIZE);
        Self(GlobalUnit(x as i32), GlobalUnit(y as i32), GlobalUnit(z as i32))
    }

    /// Returns the linear index of the cell at this position within its
    /// chunk. The position has to be that of a cell of a chunk.
    pub fn to_index(self) -> (r: BufferIndex)
        requires
            self.is_local(),
        ensures
            r == linear_index(self.0@, self.1@, self.2@),
            r < CHUNK_VOLUME_SIZE,
            cell_at(r as int) == self@,
    {
        let (x, y, z) = (self.0.0 as usize, self.1.0 as usize, self.2.0 as usize);
        x + (z * CHUNK_SIZE) + (y * CHUNK_SIZE * CHUNK_SIZE)
    }

    /// Returns the position of the first cell of the given chunk. That cell
    /// has to have a position: no coordinate may leave the range of `i32`.
    pub fn from_chunk(position: ChunkPosition) -> (r: Self)
        requires
            Self::is_position(Self::join(position, Self::at(0, 0, 0))),
        ensures
            r@ == Self::join(position, Self::at(0, 0, 0)),
    {
        Self(
            GlobalUnit(position.0.0 * CHUNK_SIZE as i32),
            GlobalUnit(position.1.0 * CHUNK_SIZE as i32),
            GlobalUnit(position.2.0 * CHUNK_SIZE as i32),
        )
    }

    /// Returns the position in the world of the cell at the place `local`
    /// of the chunk `chunk`. `local` has to be the position of a cell of a
    /// chunk, and the cell has to have a position in the world.
    pub fn from_chunk_and_local(chunk: ChunkPosition, local: GlobalPosition) -> (r: Self)
        requires
            local.is_local(),
            Self::is_position(Self::join(chunk, local)),
        ensures
            r@ == Self::join(chunk, local),
            r.chunk() == chunk,
            r.local() == local,
    {
        Self(
            GlobalUnit(chunk.0.0 * CHUNK_SIZE as i32 + local.0.0),
            GlobalUnit(chunk.1.0 * CHUNK_SIZE as i32 + local.1.0),
            GlobalUnit(chunk.2.0 * CHUNK_SIZE as i32 + local.2.0),
        )
    }

    /// Returns the chunk that holds the position and the place of the
    /// position within that chunk, which is a cell of the chunk for a
    /// negative coordinate too.
    pub fn chunk_and_local(self) -> (r: (ChunkPosition, GlobalPosition))
        ensures
            r.0 == self.chunk(),
            r.1 == self.local(),
            r.1.is_local(),
            Self::join(r.0, r.1) == self@,
    {
        let (gx, gy, gz) = (self.0.0, self.1.0, self.2.0);
        (
            ChunkPosition::new(
                gx.div_euclid(CHUNK_SIZE as i32),
                gy.div_euclid(CHUNK_SIZE as i32),
                gz.div_euclid(CHUNK_SIZE as i32),
            ),
            GlobalPosition(
                GlobalUnit(gx.rem_euclid(CHUNK_SIZE as i32)),
                GlobalUnit(gy.rem_euclid(CHUNK_SIZE as i32)),
                GlobalUnit(gz.rem_euclid(CHUNK_SIZE as i32)),
            ),
        )
    }

    /// A position is taken apart into its chunk and its place within the
    /// chunk, and put together again from the two. The place within the
    /// chunk is a cell of the chunk, for a negative coordinate too.
    pub proof fn lemma_chunk_and_local_round_trip(self)
        ensures
            self.local().is_local(),
            Self::join(self.chunk(), self.local()) == self@,
            Self::is_position(Self::join(self.chunk(), self.local())),
    {
    }

    /// A chunk and a place within it are put together into a position and
    /// found again when the position is taken apart.
    pub proof fn lemma_join_then_split(chunk: ChunkPosition, local: GlobalPosition)
        requires
            local.is_local(),
            Self::is_position(Self::join(chunk, local)),
        ensures
            ({
                let p = Self::join(chunk, local);
                Self::at(p.0, p.1, p.2).chunk() == chunk && Self::at(p.0, p.1, p.2).local() == local
            }),
    {
    }
}

impl From<(GlobalUnit, GlobalUnit, GlobalUnit)> for GlobalPosition {
    fn from(position: (GlobalUnit, GlobalUnit, GlobalUnit)) -> (r: Self) {
        Self(position.0, position.1, position.2)
    }
}

impl vstd::std_specs::convert::FromSpecImpl<(GlobalUnit, GlobalUnit, GlobalUnit)> for GlobalPosition {
    open spec fn obeys_from_spec() -> bool {
        true
    }

    open spec fn from_spec(position: (GlobalUnit, GlobalUnit, GlobalUnit)) -> Self {
        GlobalPosition(position.0, position.1, position.2)
    }
}

impl From<GlobalPosition> for (GlobalUnit, GlobalUnit, GlobalUnit) {
    fn from(position: GlobalPosition) -> (r: Self) {
        (position.0, position.1, position.2)
    }
}

impl vstd::std_specs::convert::FromSpecImpl<GlobalPosition> for (GlobalUnit, GlobalUnit, GlobalUnit) {
    open spec fn obeys_from_spec() -> bool {
        true
    }

    open spec fn from_spec(position: GlobalPosition) -> Self {
        (position.0, position.1, position.2)
    }
}

} // verus!
