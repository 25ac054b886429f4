//! A world of layers.

use vstd::prelude::*;
use crate::block::block::Block;
use crate::level::chunk::config::{ChunkConfigs, CHUNK_SIZE, CHUNK_VOLUME_SIZE};
use crate::level::chunk::data::ChunkBlockData;
use crate::level::generators::WorldGenerator;
use crate::level::position::LevelPosition;

verus! {

/// The generator of a world of layers: bedrock at the bottom, then stone,
/// a few blocks of dirt, and grass from there up.
pub struct SimpleWorldGenerator {
    pub seed: u64,
}

impl SimpleWorldGenerator {
    /// Whether the height `y` lies in the given range. A bound that is
    /// missing does not bound.
    pub open spec fn in_bounds(bounds: (Option<i32>, Option<i32>), y: int) -> bool {
        &&& bounds.0 matches Some(lower) ==> lower <= y
        &&& bounds.1 matches Some(upper) ==> y < upper
        &&& bounds.1 is None ==> y < i32::MAX
    }

    /// The block at the height `y` by the given layers: that of the first
    /// layer whose range holds `y`, or air.
    pub open spec fn layer_at(config: Seq<((Option<i32>, Option<i32>), Block)>, y: int) -> Block
        decreases config.len(),
    {
        if config.len() == 0 {
            Block::Air
        } else if Self::in_bounds(config[0].0, y) {
            config[0].1
        } else {
            Self::layer_at(config.subrange(1, config.len() as int), y)
        }
    }

    /// The block of the generated world at the height `y`.
    pub open spec fn block_at(y: int) -> Block {
        if y < 1 {
            Block::Bedrock
        } else if y < CHUNK_SIZE - 4 {
            Block::Stone
        } else if y < CHUNK_SIZE - 1 {
            Block::Dirt
        } else if y < i32::MAX {
            Block::Grass
        } else {
            Block::Air
        }
    }

    /// Returns the block at `position` by the given layers, which depends
    /// on its height alone.
    pub fn calc(
        &self,
        position: LevelPosition,
        config: &[((Option<i32>, Option<i32>), Block)],
    ) -> (r: Block)
        ensures
            r == Self::layer_at(config@, position.y as int),
    {
        let mut i: usize = 0;
        assert(config@.subrange(0, config@.len() as int) =~= config@);
        while i < config.len()
            invariant
                i <= config@.len(),
                Self::layer_at(config@, position.y as int) == Self::layer_at(
                    config@.subrange(i as int, config@.len() as int),
                    position.y as int,
                ),
            decreases config@.len() - i,
        {
            let option = &config[i];
            let ghost rest = config@.subrange(i as int, config@.len() as int);
            assert(rest[0] == config@[i as int]);
            assert(rest.subrange(1, rest.len() as int) =~= config@.subrange(
                i as int + 1,
                config@.len() as int,
            ));
            let lower_bound = match option.0.0 {
                Some(bound) => bound,
                None => i32::MIN,
            };
            let upper_bound = match option.0.1 {
                Some(bound) => bound,
                None => i32::MAX,
            };
            if position.y >= lower_bound && position.y < upper_bound {
                return option.1;
            }
            i = i + 1;
        }
        assert(config@.subrange(i as int, config@.len() as int).len() == 0);
        Block::Air
    }
}

impl WorldGenerator for SimpleWorldGenerator {
    /// Returns the chunk whose first cell lies at `position`: each cell
    /// holds the block that the world has at the height of the cell.
    fn generate_chunk(&mut self, configs: ChunkConfigs, position: LevelPosition) -> (r:
        ChunkBlockData)
        ensures
            forall|p: LevelPosition|
                p.in_chunk() ==> #[trigger] r.cell(p) == Self::block_at(position.y + p.y),
            final(self).seed == old(self).seed,
    {
        let config = [
            ((None, Some(1)), Block::Bedrock),
            ((Some(1), Some(CHUNK_SIZE as i32 - 4)), Block::Stone),
            ((Some(CHUNK_SIZE as i32 - 4), Some(CHUNK_SIZE as i32 - 1)), Block::Dirt),
            ((Some(CHUNK_SIZE as i32 - 1), None), Block::Grass),
        ];
        let mut data = ChunkBlockData::default();
        let mut index: usize = 0;
        while index < CHUNK_VOLUME_SIZE
            invariant
                index <= CHUNK_VOLUME_SIZE,
                position.x + CHUNK_SIZE - 1 <= i32::MAX,
                position.y + CHUNK_SIZE - 1 <= i32::MAX,
                position.z + CHUNK_SIZE - 1 <= i32::MAX,
                *self == *old(self),
                config@ == seq![
                    ((None::<i32>, Some(1i32)), Block::Bedrock),
                    ((Some(1i32), Some(12i32)), Block::Stone),
                    ((Some(12i32), Some(15i32)), Block::Dirt),
                    ((Some(15i32), None::<i32>), Block::Grass),
                ],
                forall|p: LevelPosition|
                    p.in_chunk() && p.linear_index() < index ==> #[trigger] data.cell(p)
                        == Self::block_at(position.y + p.y),
            decreases CHUNK_VOLUME_SIZE - index,
        {
            let local = LevelPosition::from_buffer_index(index);
            let (x, y, z) = local.get_xyz();
            let world = position.offset(x, y, z);
            let block = self.calc(world, &config);
            proof {
                Self::lemma_layers(config@, world.y as int);
            }
            let ghost before = data;
            data.set(local, &block);
            proof {
                assert forall|p: LevelPosition|
                    p.in_chunk() && p.linear_index() < index + 1 implies #[trigger] data.cell(p)
                    == Self::block_at(position.y + p.y) by {
                    if p.linear_index() == index {
                        p.lemma_index_injective(local);
                    } else {
                        assert(data.cell(p) == before.cell(p));
                    }
                }
            }
            index = index + 1;
        }
        data
    }
}

impl SimpleWorldGenerator {
    /// The layers of the generated world give each height its block.
    proof fn lemma_layers(config: Seq<((Option<i32>, Option<i32>), Block)>, y: int)
        requires
            config == seq![
                ((None::<i32>, Some(1i32)), Block::Bedrock),
                ((Some(1i32), Some(12i32)), Block::Stone),
                ((Some(12i32), Some(15i32)), Block::Dirt),
                ((Some(15i32), None::<i32>), Block::Grass),
            ],
        ensures
            Self::layer_at(config, y) == Self::block_at(y),
    {
        let c1 = config.subrange(1, 4);
        let c2 = c1.subrange(1, 3);
        let c3 = c2.subrange(1, 2);
        let c4 = c3.subrange(1, 1);
        assert(c1[0] == config[1] && c2[0] == config[2] && c3[0] == config[3]);
        assert(c4.len() == 0);
        assert(Self::layer_at(c4, y) == Block::Air);
        assert(Self::layer_at(c3, y) == if Self::in_bounds(config[3].0, y) {
            Block::Grass
        } else {
            Block::Air
        });
        assert(Self::layer_at(c2, y) == if Self::in_bounds(config[2].0, y) {
            Block::Dirt
        } else {
            Self::layer_at(c3, y)
        });
        assert(Self::layer_at(c1, y) == if Self::in_bounds(config[1].0, y) {
            Block::Stone
        } else {
            Self::layer_at(c2, y)
        });
    }
}

} // verus!
