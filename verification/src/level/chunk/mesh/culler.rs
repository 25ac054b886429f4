//! The culler: which faces of which cells can be seen.

use vstd::prelude::*;
use crate::block::block::Block;
use crate::block::utils::BlockFaceCodes;
use crate::level::chunk::buffer::{in_chunk, linear_index, ChunkBuffer};
use crate::level::chunk::config::{ChunkConfigs, CHUNK_VOLUME_SIZE};
use crate::level::chunk::data::ChunkBlockData;
use crate::level::position::LevelPosition;

verus! {

/// The block next to the cell `(x, y, z)` across the given face, or nothing
/// where that neighbour lies outside the chunk.
pub open spec fn neighbour(
    blocks: Seq<Block>,
    x: int,
    y: int,
    z: int,
    face: BlockFaceCodes,
) -> Option<Block> {
    let n = face.normal();
    if in_chunk(x + n.0, y + n.1, z + n.2) {
        Some(blocks[linear_index(x + n.0, y + n.1, z + n.2)])
    } else {
        None
    }
}

/// Whether the given face of the cell `(x, y, z)` can be seen: the
/// neighbour across it is transparent, or lies outside the chunk. What lies
/// beyond the chunk is not looked at, so a face on the border of the chunk
/// always counts as seen.
pub open spec fn face_visible(
    blocks: Seq<Block>,
    x: int,
    y: int,
    z: int,
    face: BlockFaceCodes,
) -> bool {
    match neighbour(blocks, x, y, z, face) {
        Some(block) => block.is_transparent(),
        None => true,
    }
}

/// Which faces of a cell are to be drawn: one bit per face, at the place of
/// the face's code.
#[derive(Copy, Clone, Debug, PartialEq, Eq, Structural)]
pub struct BlockFaceRenderConfig(u8);

impl BlockFaceRenderConfig {
    /// The byte that holds the bits.
    pub closed spec fn view(&self) -> u8 {
        self.0
    }

    /// Whether the bit of the given face is set.
    pub open spec fn has(&self, face: BlockFaceCodes) -> bool {
        (self@ >> (face.code() as u8)) & 1 == 1
    }

    /// Creates the configuration with the bits of `code`.
    pub fn from_u8(code: u8) -> (r: Self)
        ensures
            r@ == code,
    {
        Self(code)
    }

    /// Returns the configuration with the bit of `block_face` set, and the
    /// other bits as they are.
    pub fn with(self, block_face: BlockFaceCodes) -> (r: Self)
        ensures
            r@ == self@ | (1u8 << (block_face.code() as u8)),
            forall|face: BlockFaceCodes| #[trigger]
                r.has(face) == (face == block_face || self.has(face)),
            self@ < 64 ==> r@ < 64,
    {
        let mask = block_face.mask_u8();
        let r = Self(self.0 | mask);
        proof {
            let a = self.0;
            let c: u8 = block_face.code() as u8;
            assert(a < 64 && c < 6 ==> (a | (1u8 << c)) < 64) by (bit_vector);
            assert forall|face: BlockFaceCodes| #[trigger]
                r.has(face) == (face == block_face || self.has(face)) by {
                let o: u8 = face.code() as u8;
                assert(c < 6 && o < 6 ==> ((((a | (1u8 << c)) >> o) & 1 == 1) <==> (o == c || (a
                    >> o) & 1 == 1))) by (bit_vector);
            }
        }
        r
    }

    /// Returns whether the bit of `block_face` is set.
    pub fn is_with(&self, block_face: BlockFaceCodes) -> (r: bool)
        ensures
            r == self.has(block_face),
    {
        (self.0 >> block_face.as_u8()) & 1 == 1
    }

    /// Returns the configuration without any face.
    pub fn empty() -> (r: Self)
        ensures
            r@ == 0,
            forall|face: BlockFaceCodes| !#[trigger] r.has(face),
    {
        let r = Self::from_u8(0);
        proof {
            assert forall|face: BlockFaceCodes| !#[trigger] r.has(face) by {
                let o: u8 = face.code() as u8;
                assert((0u8 >> o) & 1 == 0) by (bit_vector);
            }
        }
        r
    }

    /// Returns the configuration with all six faces.
    pub fn full() -> (r: Self)
        ensures
            r@ == 63,
            forall|face: BlockFaceCodes| #[trigger] r.has(face),
    {
        let r = Self::empty().with(BlockFaceCodes::BlockFacePositiveX).with(
            BlockFaceCodes::BlockFaceNegativeX,
        ).with(BlockFaceCodes::BlockFacePositiveY).with(BlockFaceCodes::BlockFaceNegativeY).with(
            BlockFaceCodes::BlockFacePositiveZ,
        ).with(BlockFaceCodes::BlockFaceNegativeZ);
        proof {
            assert(0u8 | (1u8 << 0u8) | (1u8 << 1u8) | (1u8 << 2u8) | (1u8 << 3u8) | (1u8 << 4u8)
                | (1u8 << 5u8) == 63) by (bit_vector);
            assert forall|face: BlockFaceCodes| #[trigger] r.has(face) by {
                face.lemma_code_round_trip();
            }
        }
        r
    }

    /// A configuration is known by its byte.
    pub proof fn lemma_byte_determines(self, other: Self)
        requires
            self@ == other@,
        ensures
            self == other,
    {
    }

    /// A configuration without stray bits is known by its faces: two such
    /// configurations with the same faces are the same.
    pub proof fn lemma_faces_determine(self, other: Self)
        requires
            self@ < 64,
            other@ < 64,
            forall|face: BlockFaceCodes| #[trigger] self.has(face) == other.has(face),
        ensures
            self == other,
    {
        let (a, b) = (self.0, other.0);
        assert(self.has(BlockFaceCodes::BlockFacePositiveX) == other.has(
            BlockFaceCodes::BlockFacePositiveX,
        ));
        assert(self.has(BlockFaceCodes::BlockFaceNegativeX) == other.has(
            BlockFaceCodes::BlockFaceNegativeX,
        ));
        assert(self.has(BlockFaceCodes::BlockFacePositiveY) == other.has(
            BlockFaceCodes::BlockFacePositiveY,
        ));
        assert(self.has(BlockFaceCodes::BlockFaceNegativeY) == other.has(
            BlockFaceCodes::BlockFaceNegativeY,
        ));
        assert(self.has(BlockFaceCodes::BlockFacePositiveZ) == other.has(
            BlockFaceCodes::BlockFacePositiveZ,
        ));
        assert(self.has(BlockFaceCodes::BlockFaceNegativeZ) == other.has(
            BlockFaceCodes::BlockFaceNegativeZ,
        ));
        assert(a == b) by (bit_vector)
            requires
                a < 64,
                b < 64,
                ((a >> 0u8) & 1 == 1) == ((b >> 0u8) & 1 == 1),
                ((a >> 1u8) & 1 == 1) == ((b >> 1u8) & 1 == 1),
                ((a >> 2u8) & 1 == 1) == ((b >> 2u8) & 1 == 1),
                ((a >> 3u8) & 1 == 1) == ((b >> 3u8) & 1 == 1),
                ((a >> 4u8) & 1 == 1) == ((b >> 4u8) & 1 == 1),
                ((a >> 5u8) & 1 == 1) == ((b >> 5u8) & 1 == 1),
        ;
    }
}

impl Default for BlockFaceRenderConfig {
    /// All six faces: until a cell was looked at, nothing of it is hidden.
    fn default() -> (r: Self)
        ensures
            r@ == 63,
            forall|face: BlockFaceCodes| #[trigger] r.has(face),
    {
        Self::full()
    }
}

/// The culler's cache: for each cell of a chunk, which of its faces can be
/// seen.
///
/// The cache follows the blocks of the chunk. It is fresh after `populate`
/// and stale as soon as a block of the chunk changes.
pub struct ChunkCacheBuffer(pub ChunkBuffer<BlockFaceRenderConfig>);

impl ChunkCacheBuffer {
    /// The configurations of the cells in the order of their linear
    /// indices.
    pub open spec fn view(&self) -> Seq<BlockFaceRenderConfig> {
        self.0@
    }

    /// The configuration of the cell at `position`.
    pub open spec fn cell(&self, position: LevelPosition) -> BlockFaceRenderConfig {
        self.0.cell(position)
    }

    /// Whether `config` says of the cell at `position` what the blocks say:
    /// it has the faces that can be seen, and no stray bit.
    pub open spec fn is_config_of(
        config: BlockFaceRenderConfig,
        blocks: Seq<Block>,
        position: LevelPosition,
    ) -> bool {
        &&& config@ < 64
        &&& forall|face: BlockFaceCodes| #[trigger]
            config.has(face) == face_visible(
                blocks,
                position.x as int,
                position.y as int,
                position.z as int,
                face,
            )
    }

    /// Whether the cache is fresh for the given blocks: every cell has the
    /// configuration that the blocks give it.
    pub open spec fn is_fresh_for(&self, blocks: Seq<Block>) -> bool {
        forall|p: LevelPosition|
            p.in_chunk() ==> Self::is_config_of(#[trigger] self.cell(p), blocks, p)
    }

    /// In a chunk of transparent blocks alone, such as a chunk of air, every
    /// face of every cell can be seen: a fresh cache has all six faces in
    /// every cell.
    pub proof fn lemma_fresh_for_transparent(self, blocks: Seq<Block>, position: LevelPosition)
        requires
            self.is_fresh_for(blocks),
            forall|i: int| 0 <= i < CHUNK_VOLUME_SIZE ==> (#[trigger] blocks[i]).is_transparent(),
            position.in_chunk(),
        ensures
            self.cell(position)@ == 63,
    {
        let config = self.cell(position);
        assert(Self::is_config_of(config, blocks, position));
        assert forall|face: BlockFaceCodes| #[trigger] config.has(face) by {
            let n = face.normal();
            crate::level::chunk::buffer::lemma_linear_index_bijective(
                position.x + n.0,
                position.y + n.1,
                position.z + n.2,
                0,
            );
        }
        let full = BlockFaceRenderConfig(63);
        assert forall|face: BlockFaceCodes| #[trigger] full.has(face) by {
            let o: u8 = face.code() as u8;
            assert(o < 6 ==> (63u8 >> o) & 1 == 1) by (bit_vector);
        }
        config.lemma_faces_determine(full);
    }

    /// Sets the configuration of the cell at `pos`, which has to be a cell
    /// of the chunk.
    pub fn set(&mut self, pos: LevelPosition, config: &BlockFaceRenderConfig)
        requires
            pos.in_chunk(),
        ensures
            final(self)@ == old(self)@.update(pos.linear_index(), *config),
    {
        self.0.set(pos, config)
    }

    /// Returns the configuration of the cell at `pos`, which has to be a
    /// cell of the chunk.
    pub fn get(&self, pos: LevelPosition) -> (r: &BlockFaceRenderConfig)
        requires
            pos.in_chunk(),
        ensures
            *r == self.cell(pos),
    {
        self.0.get(pos)
    }

    /// Returns whether the face of the cell at `pos` towards `face` can be
    /// seen, going by the blocks in `block_data`.
    fn sees(pos: LevelPosition, face: BlockFaceCodes, block_data: &ChunkBlockData) -> (r: bool)
        requires
            pos.in_chunk(),
        ensures
            r == face_visible(block_data@, pos.x as int, pos.y as int, pos.z as int, face),
    {
        let (dx, dy, dz) = face.direction();
        match block_data.try_get(pos.offset(dx, dy, dz)) {
            Some(block) => block.transparent(),
            None => true,
        }
    }

    /// Returns the configuration that the blocks in `block_data` give the
    /// cell at `pos`, which has to be a cell of the chunk: a face is in it
    /// where the neighbour across that face is transparent or lies outside
    /// the chunk.
    pub fn config(&self, pos: LevelPosition, block_data: &ChunkBlockData) -> (r:
        BlockFaceRenderConfig)
        requires
            pos.in_chunk(),
        ensures
            Self::is_config_of(r, block_data@, pos),
    {
        let variants = BlockFaceCodes::variants();
        let mut config = BlockFaceRenderConfig::empty();
        let mut i: usize = 0;
        while i < 6
            invariant
                i <= 6,
                pos.in_chunk(),
                config@ < 64,
                forall|k: int| 0 <= k < 6 ==> (#[trigger] variants[k]).code() == k,
                forall|face: BlockFaceCodes| #[trigger]
                    config.has(face) == (face.code() < i && face_visible(
                        block_data@,
                        pos.x as int,
                        pos.y as int,
                        pos.z as int,
                        face,
                    )),
            decreases 6 - i,
        {
            let face = variants[i];
            if Self::sees(pos, face, block_data) {
                config = config.with(face);
            }
            proof {
                assert forall|other: BlockFaceCodes| other.code() == face.code() implies other
                    == face by {
                    other.lemma_code_round_trip();
                    face.lemma_code_round_trip();
                }
            }
            i = i + 1;
        }
        proof {
            assert forall|face: BlockFaceCodes| face.code() < 6 by {
                face.lemma_code_round_trip();
            }
        }
        config
    }

    /// Makes the cache fresh for the blocks in `block_data`.
    pub fn populate(&mut self, block_data: &ChunkBlockData)
        ensures
            final(self).is_fresh_for(block_data@),
    {
        let mut index: usize = 0;
        while index < CHUNK_VOLUME_SIZE
            invariant
                index <= CHUNK_VOLUME_SIZE,
                forall|p: LevelPosition|
                    p.in_chunk() && p.linear_index() < index ==> Self::is_config_of(
                        #[trigger] self.cell(p),
                        block_data@,
                        p,
                    ),
            decreases CHUNK_VOLUME_SIZE - index,
        {
            let pos = LevelPosition::from_buffer_index(index);
            let config = self.config(pos, block_data);
            let ghost before = *self;
            self.set(pos, &config);
            proof {
                assert forall|p: LevelPosition|
                    p.in_chunk() && p.linear_index() < index + 1 implies Self::is_config_of(
                    #[trigger] self.cell(p),
                    block_data@,
                    p,
                ) by {
                    if p.linear_index() == index {
                        p.lemma_index_injective(pos);
                    } else {
                        assert(self.cell(p) == before.cell(p));
                    }
                }
            }
            index = index + 1;
        }
    }
}

impl Default for ChunkCacheBuffer {
    /// A cache in which every face of every cell counts as seen.
    fn default() -> (r: Self)
        ensures
            r@.len() == CHUNK_VOLUME_SIZE,
            forall|i: int| 0 <= i < CHUNK_VOLUME_SIZE ==> (#[trigger] r@[i])@ == 63,
    {
        Self(ChunkBuffer::from_item(&BlockFaceRenderConfig::full()))
    }
}

/// Refreshes the culler's cache of a chunk where that is owed.
///
/// Where `config` asks for the cache to be refreshed, the cache is made
/// fresh for the blocks in `block_data`, the request is taken back, and a
/// refresh of the mesh is asked for. Where it does not, nothing changes.
pub fn refresh_cache(
    config: &mut ChunkConfigs,
    block_data: &ChunkBlockData,
    cache_buffer: &mut ChunkCacheBuffer,
)
    ensures
        old(config).mesh_cache_refresh_req ==> final(cache_buffer).is_fresh_for(block_data@)
            && *final(config) == (ChunkConfigs {
            mesh_cache_refresh_req: false,
            mesh_data_refresh_req: true,
            ..*old(config)
        }),
        !old(config).mesh_cache_refresh_req ==> *final(config) == *old(config)
            && *final(cache_buffer) == *old(cache_buffer),
{
    if config.mesh_cache_refresh_req {
        config.mesh_cache_refresh_req = false;
        config.mesh_data_refresh_req = true;
        cache_buffer.populate(block_data);
    }
}

} // verus!
