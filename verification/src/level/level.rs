//! The chunks with which a level starts.

use vstd::prelude::*;
use crate::level::chunk::config::CHUNK_SIZE;
use crate::level::position::LevelPosition;

verus! {

/// The level: which chunks it starts with.
pub struct Level;

impl Level {
    /// The position of chunk `i` (`0` to `15`) of the square of chunks, four
    /// by four around the origin, with which a level starts.
    pub open spec fn spawn_position(i: int) -> LevelPosition {
        LevelPosition {
            x: ((i / 4 - 2) * CHUNK_SIZE) as i32,
            y: 0,
            z: ((i % 4 - 2) * CHUNK_SIZE) as i32,
        }
    }

    /// Returns the positions of the chunks with which a level starts: the
    /// square of chunks around the origin, row by row, and then the chunk
    /// above the origin.
    pub fn spawn_queue() -> (r: Vec<LevelPosition>)
        ensures
            r@.len() == 17,
            forall|i: int| 0 <= i < 16 ==> #[trigger] r@[i] == Self::spawn_position(i),
            r@[16] == (LevelPosition { x: 0, y: CHUNK_SIZE as i32, z: 0 }),
    {
        let mut chunks: Vec<LevelPosition> = Vec::new();
        let mut i: i32 = 0;
        while i < 16
            invariant
                0 <= i <= 16,
                chunks@.len() == i,
                forall|k: int| 0 <= k < i ==> #[trigger] chunks@[k] == Self::spawn_position(k),
            decreases 16 - i,
        {
            let (x, z) = (i / 4 - 2, i % 4 - 2);
            chunks.push(LevelPosition::from_chunk_xyz(x, 0, z));
            i = i + 1;
        }
        chunks.push(LevelPosition::from_chunk_xyz(0, 1, 0));
        chunks
    }
}

} // verus!
