//! The dense buffer of a chunk and the linear index of its cells.

use vstd::prelude::*;
use crate::level::chunk::config::{CHUNK_PLANE_SIZE, CHUNK_SIZE, CHUNK_VOLUME_SIZE};
use crate::level::position::LevelPosition;

verus! {

/// An index into the cells of a chunk, in `[0, CHUNK_VOLUME_SIZE)`.
pub type BufferIndex = usize;

/// The linear index of the cell at `(x, y, z)`:
/// `x + z * CHUNK_SIZE + y * CHUNK_SIZE²`.
pub open spec fn linear_index(x: int, y: int, z: int) -> int {
    x + z * CHUNK_SIZE + y * CHUNK_PLANE_SIZE
}

/// The cell `(x, y, z)` with the given linear index: the index divided by
/// `CHUNK_SIZE²` is its layer `y`, and the remainder divided by `CHUNK_SIZE`
/// is its row `z` and leaves its place `x` in the row.
pub open spec fn cell_at(index: int) -> (int, int, int) {
    (
        (index % CHUNK_PLANE_SIZE as int) % CHUNK_SIZE as int,
        index / CHUNK_PLANE_SIZE as int,
        (index % CHUNK_PLANE_SIZE as int) / CHUNK_SIZE as int,
    )
}

/// Whether `(x, y, z)` is a cell of a chunk.
pub open spec fn in_chunk(x: int, y: int, z: int) -> bool {
    0 <= x < CHUNK_SIZE && 0 <= y < CHUNK_SIZE && 0 <= z < CHUNK_SIZE
}

/// The cells of a chunk and the indices below `CHUNK_VOLUME_SIZE` stand in
/// one-to-one correspondence: a cell leads to its index and back, an index
/// to its cell and back.
pub proof fn lemma_linear_index_bijective(x: int, y: int, z: int, index: int)
    ensures
        in_chunk(x, y, z) ==> 0 <= linear_index(x, y, z) < CHUNK_VOLUME_SIZE && cell_at(
            linear_index(x, y, z),
        ) == (x, y, z),
        0 <= index < CHUNK_VOLUME_SIZE ==> in_chunk(
            cell_at(index).0,
            cell_at(index).1,
            cell_at(index).2,
        ) && linear_index(cell_at(index).0, cell_at(index).1, cell_at(index).2) == index,
{
}

/// One value of type `T` for every cell of a chunk.
///
/// The cells are held layer by layer: the array is indexed by `y`, then by
/// `z`, then by `x`, so that the cell at `(x, y, z)` is the one with the
/// linear index `x + z * CHUNK_SIZE + y * CHUNK_SIZE²`.
#[derive(Copy, Clone)]
pub struct ChunkBuffer<T: Copy + Default>(pub [[[T; CHUNK_SIZE]; CHUNK_SIZE]; CHUNK_SIZE]);

impl<T: Copy + Default> ChunkBuffer<T> {
    /// The values of the buffer in the order of their linear indices.
    pub open spec fn view(&self) -> Seq<T> {
        Seq::new(
            CHUNK_VOLUME_SIZE as nat,
            |i: int| self.0[cell_at(i).1][cell_at(i).2][cell_at(i).0],
        )
    }

    /// The value of the cell at `position`.
    pub open spec fn cell(&self, position: LevelPosition) -> T {
        self@[position.linear_index()]
    }

    /// The value of the cell at `position`, if that is a cell of the chunk.
    pub open spec fn cell_or_none(&self, position: LevelPosition) -> Option<T> {
        if position.in_chunk() {
            Some(self.cell(position))
        } else {
            None
        }
    }

    /// The cells of the buffer with their positions, in the order in which
    /// an iterator yields them: that of their linear indices.
    pub open spec fn entries(&self) -> Seq<(LevelPosition, T)> {
        Seq::new(CHUNK_VOLUME_SIZE as nat, |i: int| (LevelPosition::at_index(i), self@[i]))
    }

    /// Creates a buffer filled with the given value.
    pub fn from_item(value: &T) -> (r: Self)
        ensures
            r@ == Seq::new(CHUNK_VOLUME_SIZE as nat, |i: int| *value),
    {
        let r = Self([[[*value;CHUNK_SIZE];CHUNK_SIZE];CHUNK_SIZE]);
        assert(r@ =~= Seq::new(CHUNK_VOLUME_SIZE as nat, |i: int| *value));
        r
    }

    /// Creates a buffer from an array of layers, each an array of rows along
    /// `z`, each an array of cells along `x`.
    pub fn from_array(data: [[[T; CHUNK_SIZE]; CHUNK_SIZE]; CHUNK_SIZE]) -> (r: Self)
        ensures
            r.0 == data,
            forall|p: LevelPosition|
                p.in_chunk() ==> #[trigger] r.cell(p) == data[p.y as int][p.z as int][p.x as int],
    {
        Self(data)
    }

    /// Creates a buffer in which each cell holds what `f` returns for the
    /// position of the cell. `f` is called once for each cell, in the order
    /// of the linear indices.
    pub fn from_fn<F: Fn(LevelPosition) -> T>(f: F) -> (r: Self)
        requires
            forall|p: LevelPosition| p.in_chunk() ==> call_requires(f, (p,)),
        ensures
            forall|p: LevelPosition| p.in_chunk() ==> call_ensures(f, (p,), #[trigger] r.cell(p)),
    {
        let mut buffer = Self::default();
        let mut index: usize = 0;
        while index < CHUNK_VOLUME_SIZE
            invariant
                index <= CHUNK_VOLUME_SIZE,
                forall|p: LevelPosition| p.in_chunk() ==> call_requires(f, (p,)),
                forall|p: LevelPosition|
                    p.in_chunk() && p.linear_index() < index ==> call_ensures(
                        f,
                        (p,),
                        #[trigger] buffer.cell(p),
                    ),
            decreases CHUNK_VOLUME_SIZE - index,
        {
            let position = LevelPosition::from_buffer_index(index);
            let value = f(position);
            let ghost before = buffer;
            buffer.set(position, &value);
            proof {
                assert forall|p: LevelPosition|
                    p.in_chunk() && p.linear_index() < index + 1 implies call_ensures(
                    f,
                    (p,),
                    #[trigger] buffer.cell(p),
                ) by {
                    if p.linear_index() == index {
                        p.lemma_index_injective(position);
                    } else {
                        assert(buffer.cell(p) == before.cell(p));
                    }
                }
            }
            index = index + 1;
        }
        buffer
    }

    /// Sets the value of the cell at `position`, which has to be a cell of
    /// the chunk. No other cell changes.
    pub fn set(&mut self, position: LevelPosition, value: &T)
        requires
            position.in_chunk(),
        ensures
            final(self)@ == old(self)@.update(position.linear_index(), *value),
    {
        let (x, y, z) = position.get_xyz();
        self.0[y as usize][z as usize][x as usize] = *value;
        assert(self@ =~= old(self)@.update(position.linear_index(), *value));
    }

    /// Returns the value of the cell at `position`, which has to be a cell
    /// of the chunk.
    pub fn get(&self, position: LevelPosition) -> (r: &T)
        requires
            position.in_chunk(),
        ensures
            *r == self.cell(position),
    {
        let (x, y, z) = position.get_xyz();
        &self.0[y as usize][z as usize][x as usize]
    }

    /// Returns the value of the cell at `position`, or nothing where that
    /// is no cell of the chunk.
    pub fn try_get(&self, position: LevelPosition) -> (r: Option<&T>)
        ensures
            r == match self.cell_or_none(position) {
                Some(value) => Some(&value),
                None => None,
            },
    {
        if LevelPosition::in_range(0, CHUNK_SIZE as i32, position.x) && LevelPosition::in_range(
            0,
            CHUNK_SIZE as i32,
            position.y,
        ) && LevelPosition::in_range(0, CHUNK_SIZE as i32, position.z) {
            return Some(self.get(position));
        }
        None
    }

    /// Gives every cell the given value.
    pub fn fill(&mut self, value: &T)
        ensures
            final(self)@ == Seq::new(CHUNK_VOLUME_SIZE as nat, |i: int| *value),
    {
        *self = Self::from_item(value);
    }

    /// Gives every cell the default value of `T`.
    pub fn clear(&mut self)
        ensures
            final(self).is_uniform(),
            call_ensures(T::default, (), final(self)@[0]),
    {
        *self = Self::default();
    }

    /// Whether all cells hold the same value, that of the first cell.
    pub open spec fn is_uniform(&self) -> bool {
        forall|i: int| 0 <= i < CHUNK_VOLUME_SIZE ==> #[trigger] self@[i] == self@[0]
    }

    /// Creates an iterator over the cells of the buffer, which starts at
    /// the first cell.
    pub fn iter(&self) -> (r: ChunkBufferIter<'_, T>)
        ensures
            r.buffer() == *self,
            r.position() == 0,
    {
        ChunkBufferIter { buffer: self, index: 0 }
    }

    /// Reading a cell after writing it gives what was written, and a write
    /// is not seen in any other cell.
    pub proof fn lemma_get_after_set(self, position: LevelPosition, value: T, other: LevelPosition)
        requires
            position.in_chunk(),
            other.in_chunk(),
        ensures
            self@.update(position.linear_index(), value)[position.linear_index()] == value,
            other != position ==> self@.update(position.linear_index(), value)[other.linear_index()]
                == self.cell(other),
    {
        position.lemma_index_of_cell();
        other.lemma_index_of_cell();
        if other != position {
            assert(other.linear_index() != position.linear_index()) by {
                if other.linear_index() == position.linear_index() {
                    other.lemma_index_injective(position);
                }
            }
        }
    }

    /// An iteration yields `CHUNK_VOLUME_SIZE` items. Each cell of the chunk
    /// appears in it once, at its linear index and with its value; the
    /// items come layer by layer from the bottom, within a layer row by row
    /// along z, and within a row along x.
    pub proof fn lemma_entries(self)
        ensures
            self.entries().len() == CHUNK_VOLUME_SIZE,
            forall|p: LevelPosition|
                p.in_chunk() ==> 0 <= #[trigger] p.linear_index() < CHUNK_VOLUME_SIZE
                    && self.entries()[p.linear_index()] == (p, self.cell(p)),
            forall|i: int|
                0 <= i < CHUNK_VOLUME_SIZE ==> (#[trigger] self.entries()[i]).0.in_chunk()
                    && self.entries()[i].0.linear_index() == i,
            forall|i: int, j: int|
                0 <= i < j < CHUNK_VOLUME_SIZE ==> ({
                    let p = (#[trigger] self.entries()[i]).0;
                    let q = (#[trigger] self.entries()[j]).0;
                    p.y < q.y || (p.y == q.y && p.z < q.z) || (p.y == q.y && p.z == q.z && p.x
                        < q.x)
                }),
    {
        assert forall|p: LevelPosition| p.in_chunk() implies 0 <= #[trigger] p.linear_index()
            < CHUNK_VOLUME_SIZE && self.entries()[p.linear_index()] == (p, self.cell(p)) by {
            p.lemma_index_of_cell();
        }
        assert forall|i: int| 0 <= i < CHUNK_VOLUME_SIZE implies (
        #[trigger] self.entries()[i]).0.in_chunk() && self.entries()[i].0.linear_index()
            == i by {
            LevelPosition::lemma_cell_of_index(i);
        }
        assert forall|i: int, j: int| 0 <= i < j < CHUNK_VOLUME_SIZE implies ({
            let p = (#[trigger] self.entries()[i]).0;
            let q = (#[trigger] self.entries()[j]).0;
            p.y < q.y || (p.y == q.y && p.z < q.z) || (p.y == q.y && p.z == q.z && p.x < q.x)
        }) by {
            LevelPosition::lemma_index_order(i, j);
        }
    }
}

impl<T: Copy + Default> Default for ChunkBuffer<T> {
    /// A buffer filled with the default value of `T`.
    fn default() -> (r: Self)
        ensures
            r.is_uniform(),
            call_ensures(T::default, (), r@[0]),
    {
        let value = T::default();
        Self::from_item(&value)
    }
}

/// An iterator over the cells of a buffer, in the order of their linear
/// indices.
pub struct ChunkBufferIter<'a, T: Copy + Default> {
    buffer: &'a ChunkBuffer<T>,
    index: usize,
}

impl<'a, T: Copy + Default> ChunkBufferIter<'a, T> {
    /// The buffer that is walked.
    pub closed spec fn buffer(&self) -> ChunkBuffer<T> {
        *self.buffer
    }

    /// The number of items that were yielded.
    pub closed spec fn position(&self) -> int {
        self.index as int
    }

    /// Yields the next cell with its position, or nothing once every cell
    /// was yielded.
    pub fn next(&mut self) -> (r: Option<(LevelPosition, &'a T)>)
        ensures
            final(self).buffer() == old(self).buffer(),
            r == if old(self).position() < CHUNK_VOLUME_SIZE {
                let item = old(self).buffer().entries()[old(self).position()];
                Some((item.0, &item.1))
            } else {
                None
            },
            final(self).position() == if old(self).position() < CHUNK_VOLUME_SIZE {
                old(self).position() + 1
            } else {
                old(self).position()
            },
    {
        if self.index >= CHUNK_VOLUME_SIZE {
            return None;
        }
        let position = LevelPosition::from_buffer_index(self.index);
        self.index = self.index + 1;
        Some((position, self.buffer.get(position)))
    }
}

} // verus!
