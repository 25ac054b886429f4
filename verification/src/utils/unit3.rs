//! Vectors of lengths that carry their unit: blocks or chunks.

use vstd::prelude::*;
use crate::level::chunk::config::CHUNK_SIZE;

verus! {

/// A vector of three lengths that are counted in blocks.
#[derive(Clone, Copy, Debug, PartialEq, Eq, Structural)]
pub struct BlockUnits<T> {
    pub x: T,
    pub y: T,
    pub z: T,
}

/// A vector of three lengths that are counted in chunks.
#[derive(Clone, Copy, Debug, PartialEq, Eq, Structural)]
pub struct ChunkUnits<T> {
    pub x: T,
    pub y: T,
    pub z: T,
}

impl<T> BlockUnits<T> {
    /// Creates the vector with the given lengths.
    pub fn new(x: T, y: T, z: T) -> (r: Self)
        ensures
            r == (BlockUnits { x, y, z }),
    {
        Self { x, y, z }
    }
}

impl<T> ChunkUnits<T> {
    /// Creates the vector with the given lengths.
    pub fn new(x: T, y: T, z: T) -> (r: Self)
        ensures
            r == (ChunkUnits { x, y, z }),
    {
        Self { x, y, z }
    }
}

/// The same numbers, read as chunks in place of blocks.
impl<T> From<BlockUnits<T>> for ChunkUnits<T> {
    fn from(value: BlockUnits<T>) -> (r: Self) {
        Self { x: value.x, y: value.y, z: value.z }
    }
}

impl<T> vstd::std_specs::convert::FromSpecImpl<BlockUnits<T>> for ChunkUnits<T> {
    open spec fn obeys_from_spec() -> bool {
        true
    }

    open spec fn from_spec(value: BlockUnits<T>) -> Self {
        ChunkUnits { x: value.x, y: value.y, z: value.z }
    }
}

/// The same numbers, read as blocks in place of chunks.
impl<T> From<ChunkUnits<T>> for BlockUnits<T> {
    fn from(value: ChunkUnits<T>) -> (r: Self) {
        Self { x: value.x, y: value.y, z: value.z }
    }
}

impl<T> vstd::std_specs::convert::FromSpecImpl<ChunkUnits<T>> for BlockUnits<T> {
    open spec fn obeys_from_spec() -> bool {
        true
    }

    open spec fn from_spec(value: ChunkUnits<T>) -> Self {
        BlockUnits { x: value.x, y: value.y, z: value.z }
    }
}

/// A vector of three lengths together with the unit in which they are
/// counted.
#[derive(Clone, Copy, Debug, PartialEq, Eq, Structural)]
pub enum Vector3i<T> {
    Block(BlockUnits<T>),
    Chunk(ChunkUnits<T>),
}

/// A vector of three `i32` lengths.
pub type Vector3i32 = Vector3i<i32>;

/// `num_traits::Euclid::div_euclid` for `i32`, as `cgmath` hands it on: it
/// forwards to `i32::div_euclid`, the quotient of Euclidean division, which
/// rounds towards negative infinity for a positive divisor. It panics for a
/// divisor of zero and where the quotient overflows.
#[verifier::external_body]
fn div_euclid(value: i32, divisor: i32) -> (r: i32)
    requires
        divisor != 0,
        !(value == i32::MIN && divisor == -1),
    ensures
        r == value as int / divisor as int,
{
    cgmath::num_traits::Euclid::div_euclid(&value, &divisor)
}

impl<T: Copy> Vector3i<T> {
    /// The three numbers of the vector, whatever their unit.
    pub open spec fn xyz(self) -> (T, T, T) {
        match self {
            Self::Block(unit) => (unit.x, unit.y, unit.z),
            Self::Chunk(unit) => (unit.x, unit.y, unit.z),
        }
    }

    /// Returns the three numbers of the vector, whatever their unit.
    pub fn get_xyz(&self) -> (r: (T, T, T))
        ensures
            r == self.xyz(),
    {
        match self {
            Self::Block(unit) => (unit.x, unit.y, unit.z),
            Self::Chunk(unit) => (unit.x, unit.y, unit.z),
        }
    }

    /// Returns the vector with the same numbers, counted in blocks.
    pub fn block(&self) -> (r: Self)
        ensures
            r is Block,
            r.xyz() == self.xyz(),
    {
        match self {
            Self::Block(unit) => Self::Block(*unit),
            Self::Chunk(unit) => Self::Block(BlockUnits::<T>::from(*unit)),
        }
    }

    /// Returns the vector with the same numbers, counted in chunks.
    pub fn chunk(&self) -> (r: Self)
        ensures
            r is Chunk,
            r.xyz() == self.xyz(),
    {
        match self {
            Self::Block(unit) => Self::Chunk(ChunkUnits::<T>::from(*unit)),
            Self::Chunk(unit) => Self::Chunk(*unit),
        }
    }
}

impl Vector3i<i32> {
    /// The lengths of the vector in blocks: a length in chunks is
    /// `CHUNK_SIZE` times as many blocks.
    pub open spec fn in_blocks(self) -> (int, int, int) {
        match self {
            Self::Block(unit) => (unit.x as int, unit.y as int, unit.z as int),
            Self::Chunk(unit) => (unit.x * CHUNK_SIZE, unit.y * CHUNK_SIZE, unit.z * CHUNK_SIZE),
        }
    }

    /// The lengths of the vector in whole chunks: a length in blocks is
    /// divided by `CHUNK_SIZE` and rounded down.
    pub open spec fn in_chunks(self) -> (int, int, int) {
        match self {
            Self::Block(unit) => (
                unit.x as int / CHUNK_SIZE as int,
                unit.y as int / CHUNK_SIZE as int,
                unit.z as int / CHUNK_SIZE as int,
            ),
            Self::Chunk(unit) => (unit.x as int, unit.y as int, unit.z as int),
        }
    }

    /// Returns the lengths of the vector in blocks. They have to fit in
    /// `i32`.
    pub fn block_units(&self) -> (r: BlockUnits<i32>)
        requires
            i32::MIN <= self.in_blocks().0 <= i32::MAX,
            i32::MIN <= self.in_blocks().1 <= i32::MAX,
            i32::MIN <= self.in_blocks().2 <= i32::MAX,
        ensures
            (r.x as int, r.y as int, r.z as int) == self.in_blocks(),
    {
        match self {
            Self::Block(unit) => *unit,
            Self::Chunk(unit) => BlockUnits::new(
                unit.x * CHUNK_SIZE as i32,
                unit.y * CHUNK_SIZE as i32,
                unit.z * CHUNK_SIZE as i32,
            ),
        }
    }

    /// Returns the lengths of the vector in whole chunks.
    pub fn chunk_units(&self) -> (r: ChunkUnits<i32>)
        ensures
            (r.x as int, r.y as int, r.z as int) == self.in_chunks(),
    {
        match self {
            Self::Block(unit) => ChunkUnits::new(
                div_euclid(unit.x, CHUNK_SIZE as i32),
                div_euclid(unit.y, CHUNK_SIZE as i32),
                div_euclid(unit.z, CHUNK_SIZE as i32),
            ),
            Self::Chunk(unit) => *unit,
        }
    }

    /// Lengths in chunks that are turned into blocks and back into chunks
    /// are what they were.
    pub proof fn lemma_chunks_to_blocks_and_back(self)
        requires
            self is Chunk,
            i32::MIN <= self.in_blocks().0 <= i32::MAX,
            i32::MIN <= self.in_blocks().1 <= i32::MAX,
            i32::MIN <= self.in_blocks().2 <= i32::MAX,
        ensures
            ({
                let b = self.in_blocks();
                let blocks = Vector3i::Block(
                    BlockUnits { x: b.0 as i32, y: b.1 as i32, z: b.2 as i32 },
                );
                blocks.in_chunks() == self.in_chunks()
            }),
    {
    }
}

} // verus!
