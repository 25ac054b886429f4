//! Positions of chunks.

use vstd::prelude::*;
use crate::utils::position::global::GlobalPosition;

verus! {

/// A length or a coordinate, counted in chunks.
#[derive(Copy, Clone, Debug, PartialEq, Eq, PartialOrd, Ord, Hash, Structural)]
pub struct ChunkUnit(pub i32);

impl ChunkUnit {
    /// The number of chunks.
    pub open spec fn view(&self) -> int {
        self.0 as int
    }
}

impl From<i32> for ChunkUnit {
    fn from(value: i32) -> (r: Self) {
        Self(value)
    }
}

impl vstd::std_specs::convert::FromSpecImpl<i32> for ChunkUnit {
    open spec fn obeys_from_spec() -> bool {
        true
    }

    open spec fn from_spec(value: i32) -> Self {
        ChunkUnit(value)
    }
}

impl From<ChunkUnit> for i32 {
    fn from(value: ChunkUnit) -> (r: Self) {
        value.0
    }
}

impl vstd::std_specs::convert::FromSpecImpl<ChunkUnit> for i32 {
    open spec fn obeys_from_spec() -> bool {
        true
    }

    open spec fn from_spec(value: ChunkUnit) -> Self {
        value.0
    }
}

/// The position of a chunk in the world, counted in chunks.
#[derive(Copy, Clone, Debug, PartialEq, Eq, PartialOrd, Ord, Hash, Structural)]
pub struct ChunkPosition(pub ChunkUnit, pub ChunkUnit, pub ChunkUnit);

impl ChunkPosition {
    /// The position as a point of the integer lattice.
    pub open spec fn view(&self) -> (int, int, int) {
        (self.0@, self.1@, self.2@)
    }

    /// The position at the given point of the lattice, where that is a
    /// position.
    pub open spec fn at(x: int, y: int, z: int) -> Self {
        ChunkPosition(ChunkUnit(x as i32), ChunkUnit(y as i32), ChunkUnit(z as i32))
    }

    /// Creates the position with the given coordinates.
    pub fn new(x: i32, y: i32, z: i32) -> (r: Self)
        ensures
            r == Self::at(x as int, y as int, z as int),
            r@ == (x as int, y as int, z as int),
    {
        Self(ChunkUnit(x), ChunkUnit(y), ChunkUnit(z))
    }

    /// Returns the position moved by `other`. The result has to be a
    /// position: no coordinate may leave the range of `i32`.
    pub fn offset(&self, other: Self) -> (r: Self)
        requires
            i32::MIN <= self.0@ + other.0@ <= i32::MAX,
            i32::MIN <= self.1@ + other.1@ <= i32::MAX,
            i32::MIN <= self.2@ + other.2@ <= i32::MAX,
        ensures
            r@ == (self.0@ + other.0@, self.1@ + other.1@, self.2@ + other.2@),
    {
        Self::new(self.0.0 + other.0.0, self.1.0 + other.1.0, self.2.0 + other.2.0)
    }
}

impl From<(ChunkUnit, ChunkUnit, ChunkUnit)> for ChunkPosition {
    fn from(position: (ChunkUnit, ChunkUnit, ChunkUnit)) -> (r: Self) {
        Self(position.0, position.1, position.2)
    }
}

impl vstd::std_specs::convert::FromSpecImpl<(ChunkUnit, ChunkUnit, ChunkUnit)> for ChunkPosition {
    open spec fn obeys_from_spec() -> bool {
        true
    }

    open spec fn from_spec(position: (ChunkUnit, ChunkUnit, ChunkUnit)) -> Self {
        ChunkPosition(position.0, position.1, position.2)
    }
}

impl From<ChunkPosition> for (ChunkUnit, ChunkUnit, ChunkUnit) {
    fn from(position: ChunkPosition) -> (r: Self) {
        (position.0, position.1, position.2)
    }
}

impl vstd::std_specs::convert::FromSpecImpl<ChunkPosition> for (ChunkUnit, ChunkUnit, ChunkUnit) {
    open spec fn obeys_from_spec() -> bool {
        true
    }

    open spec fn from_spec(position: ChunkPosition) -> Self {
        (position.0, position.1, position.2)
    }
}

/// The chunk that holds a position in the world.
impl From<GlobalPosition> for ChunkPosition {
    fn from(position: GlobalPosition) -> (r: Self) {
        position.chunk_and_local().0
    }
}

impl vstd::std_specs::convert::FromSpecImpl<GlobalPosition> for ChunkPosition {
    open spec fn obeys_from_spec() -> bool {
        true
    }

    open spec fn from_spec(position: GlobalPosition) -> Self {
        position.chunk()
    }
}

/// The chunk that holds a position in the world, and the place of the
/// position within that chunk.
impl From<GlobalPosition> for (ChunkPosition, GlobalPosition) {
    fn from(position: GlobalPosition) -> (r: Self) {
        position.chunk_and_local()
    }
}

impl vstd::std_specs::convert::FromSpecImpl<GlobalPosition> for (ChunkPosition, GlobalPosition) {
    open spec fn obeys_from_spec() -> bool {
        true
    }

    open spec fn from_spec(position: GlobalPosition) -> Self {
        (position.chunk(), position.local())
    }
}

} // verus!
