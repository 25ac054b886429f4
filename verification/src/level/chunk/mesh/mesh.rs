//! The mesher: one quad for every face that the culler's cache lets through.

use vstd::prelude::*;
use crate::block::block::{Block, FALLBACK_TILE};
use crate::block::utils::{is_vec2, is_vec3, BlockFaceCodes};
use crate::level::chunk::buffer::cell_at;
use crate::level::chunk::config::{ChunkConfigs, CHUNK_VOLUME_SIZE};
use crate::level::chunk::data::ChunkBlockData;
use crate::level::chunk::mesh::culler::{face_visible, BlockFaceRenderConfig, ChunkCacheBuffer};
use crate::level::position::LevelPosition;

verus! {

/// A vertex of a mesh: its position, a lattice point in the chunk; its
/// texture coordinates, counted in tiles of the atlas; and its normal, an
/// axis unit vector.
pub type Vertex = ([i32; 3], [i32; 2], [i32; 3]);

/// A face of a mesh: its four vertices.
pub type Quad = [Vertex; 4];

/// The most faces that the mesh of a chunk can have: six for each cell.
pub const MAX_FACES: usize = 24576;

/// Which corner of a quad is corner `k` (`0` to `5`) of its two triangles:
/// the first triangle has the corners `0, 1, 2` of the quad, the second one
/// its corners `2, 1, 3`.
pub open spec fn triangle_corner(k: int) -> int {
    if k == 0 {
        0
    } else if k == 1 {
        1
    } else if k == 2 {
        2
    } else if k == 3 {
        2
    } else if k == 4 {
        1
    } else {
        3
    }
}

/// The faces of the cell with the given linear index that are in `mask`,
/// among the faces with a code below `count`, in the order of their codes.
/// Each is given with the index of the cell.
pub open spec fn cell_faces(mask: BlockFaceRenderConfig, cell: int, count: nat) -> Seq<
    (int, BlockFaceCodes),
>
    decreases count,
{
    if count == 0 {
        Seq::empty()
    } else {
        let rest = cell_faces(mask, cell, (count - 1) as nat);
        let face = BlockFaceCodes::of_code(count - 1);
        if mask.has(face) {
            rest.push((cell, face))
        } else {
            rest
        }
    }
}

/// The faces that the mesher emits for the first `count` cells of a chunk,
/// in the order of their linear indices: of each cell that is not air, the
/// faces that are in its mask. An air cell has no faces, whatever its mask.
pub open spec fn chunk_faces(
    blocks: Seq<Block>,
    masks: Seq<BlockFaceRenderConfig>,
    count: nat,
) -> Seq<(int, BlockFaceCodes)>
    decreases count,
{
    if count == 0 {
        Seq::empty()
    } else {
        let rest = chunk_faces(blocks, masks, (count - 1) as nat);
        if blocks[count - 1] == Block::Air {
            rest
        } else {
            rest + cell_faces(masks[count - 1], count - 1, 6)
        }
    }
}

/// Corner `k` of the quad of the given face, in the chunk: the corner of
/// the face on the unit cube, moved to the cell.
pub open spec fn vertex_position(face: (int, BlockFaceCodes), k: int) -> (int, int, int) {
    let cell = cell_at(face.0);
    let corner = face.1.corner(k);
    (cell.0 + corner.0, cell.1 + corner.1, cell.2 + corner.2)
}

/// Texture corner `k` of a face of the given block, in tiles of the atlas:
/// the corner of the unit square, moved to the tile of the block.
pub open spec fn vertex_texture(block: Block, k: int) -> (int, int) {
    let tile = block.tile_or_fallback();
    let corner = BlockFaceCodes::texture_corner(k);
    (corner.0 + tile.0, corner.1 + tile.1)
}

/// Whether `vertex` is corner `k` of the given face of a cell that holds
/// `block`.
pub open spec fn is_vertex_of(
    vertex: Vertex,
    face: (int, BlockFaceCodes),
    block: Block,
    k: int,
) -> bool {
    &&& is_vec3(vertex.0, vertex_position(face, k))
    &&& is_vec2(vertex.1, vertex_texture(block, k))
    &&& is_vec3(vertex.2, face.1.normal())
}

/// Whether the quads show the given faces of a chunk with the given blocks,
/// one after the other.
pub open spec fn depicts(
    quads: Seq<Quad>,
    faces: Seq<(int, BlockFaceCodes)>,
    blocks: Seq<Block>,
) -> bool {
    &&& quads.len() == faces.len()
    &&& forall|f: int, k: int|
        0 <= f < faces.len() && 0 <= k < 4 ==> is_vertex_of(
            #[trigger] quads[f][k],
            faces[f],
            blocks[faces[f].0],
            k,
        )
}

/// The faces of a chunk are at most six for each cell.
pub proof fn lemma_chunk_faces_bound(
    blocks: Seq<Block>,
    masks: Seq<BlockFaceRenderConfig>,
    count: nat,
)
    ensures
        chunk_faces(blocks, masks, count).len() <= 6 * count,
    decreases count,
{
    if count > 0 {
        lemma_chunk_faces_bound(blocks, masks, (count - 1) as nat);
        lemma_cell_faces(masks[count - 1], count - 1, 6);
    }
}

/// The faces of a cell among those with a code below `count` are at most
/// `count`. They are the faces of the mask with a code below `count`, each
/// once and in the order of the codes.
pub proof fn lemma_cell_faces(mask: BlockFaceRenderConfig, cell: int, count: nat)
    requires
        count <= 6,
    ensures
        cell_faces(mask, cell, count).len() <= count,
        forall|i: int|
            0 <= i < cell_faces(mask, cell, count).len() ==> (#[trigger] cell_faces(
                mask,
                cell,
                count,
            )[i]).0 == cell && cell_faces(mask, cell, count)[i].1.code() < count && mask.has(
                cell_faces(mask, cell, count)[i].1,
            ),
        forall|i: int, j: int|
            0 <= i < j < cell_faces(mask, cell, count).len() ==> (#[trigger] cell_faces(
                mask,
                cell,
                count,
            )[i]).1.code() < (#[trigger] cell_faces(mask, cell, count)[j]).1.code(),
        forall|face: BlockFaceCodes|
            face.code() < count && mask.has(face) ==> cell_faces(mask, cell, count).contains(
                (cell, face),
            ),
    decreases count,
{
    if count > 0 {
        let rest = cell_faces(mask, cell, (count - 1) as nat);
        let all = cell_faces(mask, cell, count);
        let last = BlockFaceCodes::of_code(count - 1);
        lemma_cell_faces(mask, cell, (count - 1) as nat);
        assert(last.code() == count - 1);
        assert forall|face: BlockFaceCodes|
            face.code() < count && mask.has(face) implies all.contains((cell, face)) by {
            face.lemma_code_round_trip();
            if face.code() < count - 1 {
                let i = choose|i: int| 0 <= i < rest.len() && rest[i] == (cell, face);
                assert(all[i] == (cell, face));
            } else {
                assert(face == last);
                assert(all[rest.len() as int] == (cell, face));
            }
        }
    }
}

/// The faces of a chunk are those of its cells that are not air, by the
/// masks of the cells: each such face is there once, and the faces come in
/// the order of the cells and, within a cell, in the order of their codes.
pub proof fn lemma_chunk_faces(blocks: Seq<Block>, masks: Seq<BlockFaceRenderConfig>, count: nat)
    ensures
        forall|i: int|
            0 <= i < chunk_faces(blocks, masks, count).len() ==> {
                let face = #[trigger] chunk_faces(blocks, masks, count)[i];
                0 <= face.0 < count && blocks[face.0] != Block::Air && masks[face.0].has(face.1)
            },
        forall|i: int, j: int|
            0 <= i < j < chunk_faces(blocks, masks, count).len() ==> {
                let first = #[trigger] chunk_faces(blocks, masks, count)[i];
                let second = #[trigger] chunk_faces(blocks, masks, count)[j];
                first.0 < second.0 || (first.0 == second.0 && first.1.code() < second.1.code())
            },
        forall|cell: int, face: BlockFaceCodes|
            0 <= cell < count && blocks[cell] != Block::Air && masks[cell].has(face)
                ==> chunk_faces(blocks, masks, count).contains((cell, face)),
    decreases count,
{
    if count > 0 {
        let rest = chunk_faces(blocks, masks, (count - 1) as nat);
        let all = chunk_faces(blocks, masks, count);
        let own = cell_faces(masks[count - 1], count - 1, 6);
        lemma_chunk_faces(blocks, masks, (count - 1) as nat);
        lemma_cell_faces(masks[count - 1], count - 1, 6);
        assert forall|cell: int, face: BlockFaceCodes|
            0 <= cell < count && blocks[cell] != Block::Air && masks[cell].has(
                face,
            ) implies all.contains((cell, face)) by {
            face.lemma_code_round_trip();
            if cell < count - 1 {
                let i = choose|i: int| 0 <= i < rest.len() && rest[i] == (cell, face);
                assert(all[i] == (cell, face));
            } else {
                let i = choose|i: int| 0 <= i < own.len() && own[i] == (cell, face);
                assert(all[rest.len() + i] == (cell, face));
            }
        }
        if blocks[count - 1] != Block::Air {
            assert forall|i: int| 0 <= i < all.len() implies {
                let face = #[trigger] all[i];
                0 <= face.0 < count && blocks[face.0] != Block::Air && masks[face.0].has(face.1)
            } by {
                if i >= rest.len() {
                    assert(all[i] == own[i - rest.len()]);
                }
            }
            assert forall|i: int, j: int| 0 <= i < j < all.len() implies {
                let first = #[trigger] all[i];
                let second = #[trigger] all[j];
                first.0 < second.0 || (first.0 == second.0 && first.1.code() < second.1.code())
            } by {
                if j >= rest.len() {
                    assert(all[j] == own[j - rest.len()]);
                    if i >= rest.len() {
                        assert(all[i] == own[i - rest.len()]);
                    } else {
                        assert(all[i] == rest[i]);
                    }
                }
            }
        }
    }
}

/// A chunk of nothing but air has no faces, whatever its masks.
pub proof fn lemma_air_has_no_faces(
    blocks: Seq<Block>,
    masks: Seq<BlockFaceRenderConfig>,
    count: nat,
)
    requires
        forall|i: int| 0 <= i < count ==> blocks[i] == Block::Air,
    ensures
        chunk_faces(blocks, masks, count).len() == 0,
    decreases count,
{
    if count > 0 {
        lemma_air_has_no_faces(blocks, masks, (count - 1) as nat);
    }
}

/// With a fresh cache, the faces of a chunk are the faces that can be
/// seen of the cells that are not air: a face of such a cell is drawn where
/// the neighbour across it is transparent or lies outside the chunk, and
/// nowhere else.
pub proof fn lemma_fresh_faces_are_the_visible(
    block_data: ChunkBlockData,
    cache_buffer: ChunkCacheBuffer,
    cell: int,
    face: BlockFaceCodes,
)
    requires
        cache_buffer.is_fresh_for(block_data@),
    ensures
        chunk_faces(block_data@, cache_buffer@, CHUNK_VOLUME_SIZE as nat).contains((cell, face))
            <==> 0 <= cell < CHUNK_VOLUME_SIZE && block_data@[cell] != Block::Air && face_visible(
            block_data@,
            cell_at(cell).0,
            cell_at(cell).1,
            cell_at(cell).2,
            face,
        ),
{
    let faces = chunk_faces(block_data@, cache_buffer@, CHUNK_VOLUME_SIZE as nat);
    lemma_chunk_faces(block_data@, cache_buffer@, CHUNK_VOLUME_SIZE as nat);
    if faces.contains((cell, face)) {
        let i = choose|i: int| 0 <= i < faces.len() && faces[i] == (cell, face);
        assert(0 <= faces[i].0 < CHUNK_VOLUME_SIZE);
    }
    if 0 <= cell < CHUNK_VOLUME_SIZE {
        let p = LevelPosition::at_index(cell);
        LevelPosition::lemma_cell_of_index(cell);
        let config = cache_buffer.cell(p);
        assert(config == cache_buffer@[cell]);
        assert(ChunkCacheBuffer::is_config_of(config, block_data@, p));
        assert(config.has(face) == face_visible(
            block_data@,
            p.x as int,
            p.y as int,
            p.z as int,
            face,
        ));
    }
}

/// No face of a chunk is drawn twice.
pub proof fn lemma_faces_once(blocks: Seq<Block>, masks: Seq<BlockFaceRenderConfig>, count: nat)
    ensures
        chunk_faces(blocks, masks, count).no_duplicates(),
{
    lemma_chunk_faces(blocks, masks, count);
}

/// With a fresh cache, the mesher that goes by the cache and the mesher
/// that looks at the neighbours itself draw the same faces.
pub proof fn lemma_same_faces_as_one_pass(
    block_data: ChunkBlockData,
    cache_buffer: ChunkCacheBuffer,
    cell: int,
    face: BlockFaceCodes,
)
    requires
        cache_buffer.is_fresh_for(block_data@),
    ensures
        chunk_faces(block_data@, cache_buffer@, CHUNK_VOLUME_SIZE as nat).contains((cell, face))
            <==> crate::chunk::mesher::chunk_faces(block_data@, CHUNK_VOLUME_SIZE as nat).contains(
            (cell, face),
        ),
{
    lemma_fresh_faces_are_the_visible(block_data, cache_buffer, cell, face);
    crate::chunk::mesher::lemma_chunk_faces(block_data@, CHUNK_VOLUME_SIZE as nat);
    let faces = crate::chunk::mesher::chunk_faces(block_data@, CHUNK_VOLUME_SIZE as nat);
    if faces.contains((cell, face)) {
        let i = choose|i: int| 0 <= i < faces.len() && faces[i] == (cell, face);
        assert(0 <= faces[i].0 < CHUNK_VOLUME_SIZE);
    }
    assert(crate::chunk::mesher::cell_face_visible(block_data@, cell, face) == face_visible(
        block_data@,
        cell_at(cell).0,
        cell_at(cell).1,
        cell_at(cell).2,
        face,
    ));
}

/// The mesh of a chunk: one quad for each face that is drawn.
///
/// The geometry is kept on the lattice. A renderer widens the positions and
/// the normals to floating point and divides the texture coordinates by the
/// number of tiles along a side of the atlas.
pub struct ChunkMeshBuffer(Vec<Quad>);

impl ChunkMeshBuffer {
    /// A mesh has at most `MAX_FACES` faces, so that the indices of its
    /// vertices stay within `u32`.
    #[verifier::type_invariant]
    spec fn fits(self) -> bool {
        self.0@.len() <= MAX_FACES
    }

    /// The quads of the mesh.
    pub closed spec fn view(&self) -> Seq<Quad> {
        self.0@
    }

    /// Returns the quads of the mesh.
    pub fn get(&self) -> (r: &Vec<Quad>)
        ensures
            r@ == self@,
            r@.len() <= MAX_FACES,
    {
        proof {
            use_type_invariant(self);
        }
        &self.0
    }

    /// Returns the positions of the vertices, four for each face.
    pub fn vertex_buffer(&self) -> (r: Vec<[i32; 3]>)
        ensures
            r@.len() == 4 * self@.len(),
            forall|j: int| 0 <= j < r@.len() ==> (#[trigger] r@[j]) == self@[j / 4][j % 4].0,
    {
        let mut buffer: Vec<[i32; 3]> = Vec::new();
        let mut f: usize = 0;
        while f < self.0.len()
            invariant
                f <= self.0@.len(),
                buffer@.len() == 4 * f,
                forall|j: int|
                    0 <= j < buffer@.len() ==> (#[trigger] buffer@[j]) == self.0@[j / 4][j % 4].0,
            decreases self.0@.len() - f,
        {
            let quad = &self.0[f];
            buffer.push(quad[0].0);
            buffer.push(quad[1].0);
            buffer.push(quad[2].0);
            buffer.push(quad[3].0);
            f = f + 1;
        }
        buffer
    }

    /// Returns the texture coordinates of the vertices, four for each face.
    pub fn uv_buffer(&self) -> (r: Vec<[i32; 2]>)
        ensures
            r@.len() == 4 * self@.len(),
            forall|j: int| 0 <= j < r@.len() ==> (#[trigger] r@[j]) == self@[j / 4][j % 4].1,
    {
        let mut buffer: Vec<[i32; 2]> = Vec::new();
        let mut f: usize = 0;
        while f < self.0.len()
            invariant
                f <= self.0@.len(),
                buffer@.len() == 4 * f,
                forall|j: int|
                    0 <= j < buffer@.len() ==> (#[trigger] buffer@[j]) == self.0@[j / 4][j % 4].1,
            decreases self.0@.len() - f,
        {
            let quad = &self.0[f];
            buffer.push(quad[0].1);
            buffer.push(quad[1].1);
            buffer.push(quad[2].1);
            buffer.push(quad[3].1);
            f = f + 1;
        }
        buffer
    }

    /// Returns the normals of the vertices, four for each face.
    pub fn normal_buffer(&self) -> (r: Vec<[i32; 3]>)
        ensures
            r@.len() == 4 * self@.len(),
            forall|j: int| 0 <= j < r@.len() ==> (#[trigger] r@[j]) == self@[j / 4][j % 4].2,
    {
        let mut buffer: Vec<[i32; 3]> = Vec::new();
        let mut f: usize = 0;
        while f < self.0.len()
            invariant
                f <= self.0@.len(),
                buffer@.len() == 4 * f,
                forall|j: int|
                    0 <= j < buffer@.len() ==> (#[trigger] buffer@[j]) == self.0@[j / 4][j % 4].2,
            decreases self.0@.len() - f,
        {
            let quad = &self.0[f];
            buffer.push(quad[0].2);
            buffer.push(quad[1].2);
            buffer.push(quad[2].2);
            buffer.push(quad[3].2);
            f = f + 1;
        }
        buffer
    }

    /// Returns the indices of the triangles, six for each face: the places,
    /// in the buffers of the vertices, of the corners of its two triangles.
    pub fn face_buffer(&self) -> (r: Vec<u32>)
        ensures
            r@.len() == 6 * self@.len(),
            forall|j: int|
                0 <= j < r@.len() ==> (#[trigger] r@[j]) == 4 * (j / 6) + triangle_corner(j % 6),
    {
        proof {
            use_type_invariant(self);
        }
        let mut buffer: Vec<u32> = Vec::new();
        let mut f: usize = 0;
        while f < self.0.len()
            invariant
                f <= self.0@.len(),
                self.0@.len() <= MAX_FACES,
                buffer@.len() == 6 * f,
                forall|j: int|
                    0 <= j < buffer@.len() ==> (#[trigger] buffer@[j]) == 4 * (j / 6)
                        + triangle_corner(j % 6),
            decreases self.0@.len() - f,
        {
            let i = f as u32 * 4;
            buffer.push(i);
            buffer.push(i + 1);
            buffer.push(i + 2);
            buffer.push(i + 2);
            buffer.push(i + 1);
            buffer.push(i + 3);
            f = f + 1;
        }
        buffer
    }

    /// Returns the quad of the face towards `code` of the cell at
    /// `position`, which holds `block`.
    fn quad(position: LevelPosition, code: BlockFaceCodes, block: &Block) -> (r: Quad)
        requires
            position.in_chunk(),
        ensures
            forall|k: int|
                0 <= k < 4 ==> is_vertex_of(
                    #[trigger] r[k],
                    (position.linear_index(), code),
                    *block,
                    k,
                ),
    {
        let (x, y, z) = position.get_xyz();
        let v = code.vertex_data();
        let uv = code.texture_data();
        let normal_data = code.normal_data();
        let (tu, tv) = match block.atlas_position() {
            Some(tile) => tile,
            None => FALLBACK_TILE,
        };
        let (tu, tv) = (tu as i32, tv as i32);
        proof {
            position.lemma_index_of_cell();
            block.lemma_tiles_in_atlas(*block);
            code.lemma_corners_on_face(0);
            code.lemma_corners_on_face(1);
            code.lemma_corners_on_face(2);
            code.lemma_corners_on_face(3);
        }
        [
            ([v[0][0] + x, v[0][1] + y, v[0][2] + z], [uv[0][0] + tu, uv[0][1] + tv], normal_data),
            ([v[1][0] + x, v[1][1] + y, v[1][2] + z], [uv[1][0] + tu, uv[1][1] + tv], normal_data),
            ([v[2][0] + x, v[2][1] + y, v[2][2] + z], [uv[2][0] + tu, uv[2][1] + tv], normal_data),
            ([v[3][0] + x, v[3][1] + y, v[3][2] + z], [uv[3][0] + tu, uv[3][1] + tv], normal_data),
        ]
    }

    /// Builds the mesh of a chunk from its blocks and the culler's cache.
    ///
    /// The cells are walked in the order of their linear indices and air is
    /// skipped. Of every other cell the faces in its mask are emitted, in
    /// the order of their codes, each as one quad with the texture of the
    /// block.
    pub fn populate(block_data: &ChunkBlockData, cache_buffer: &ChunkCacheBuffer) -> (r: Self)
        ensures
            depicts(
                r@,
                chunk_faces(block_data@, cache_buffer@, CHUNK_VOLUME_SIZE as nat),
                block_data@,
            ),
    {
        let variants = BlockFaceCodes::variants();
        let mut buffer: Vec<Quad> = Vec::new();
        let mut index: usize = 0;
        while index < CHUNK_VOLUME_SIZE
            invariant
                index <= CHUNK_VOLUME_SIZE,
                forall|k: int| 0 <= k < 6 ==> (#[trigger] variants[k]).code() == k,
                depicts(
                    buffer@,
                    chunk_faces(block_data@, cache_buffer@, index as nat),
                    block_data@,
                ),
            decreases CHUNK_VOLUME_SIZE - index,
        {
            let position = LevelPosition::from_buffer_index(index);
            let block = block_data.get(position);
            let config = cache_buffer.get(position);
            if *block != Block::Air {
                let mut i: usize = 0;
                while i < 6
                    invariant
                        i <= 6,
                        index < CHUNK_VOLUME_SIZE,
                        position.in_chunk(),
                        position.linear_index() == index,
                        *block == block_data@[index as int],
                        *config == cache_buffer@[index as int],
                        forall|k: int| 0 <= k < 6 ==> (#[trigger] variants[k]).code() == k,
                        depicts(
                            buffer@,
                            chunk_faces(block_data@, cache_buffer@, index as nat) + cell_faces(
                                *config,
                                index as int,
                                i as nat,
                            ),
                            block_data@,
                        ),
                    decreases 6 - i,
                {
                    let code = variants[i];
                    proof {
                        code.lemma_code_round_trip();
                    }
                    if config.is_with(code) {
                        let ghost before = chunk_faces(block_data@, cache_buffer@, index as nat)
                            + cell_faces(*config, index as int, i as nat);
                        let ghost quads = buffer@;
                        let quad = Self::quad(position, code, block);
                        buffer.push(quad);
                        proof {
                            let after = before.push((index as int, code));
                            assert(after =~= chunk_faces(block_data@, cache_buffer@, index as nat)
                                + cell_faces(*config, index as int, (i + 1) as nat));
                            assert forall|f: int, k: int|
                                0 <= f < after.len() && 0 <= k < 4 implies is_vertex_of(
                                #[trigger] buffer@[f][k],
                                after[f],
                                block_data@[after[f].0],
                                k,
                            ) by {
                                if f < before.len() {
                                    assert(buffer@[f] == quads[f]);
                                    assert(is_vertex_of(
                                        quads[f][k],
                                        before[f],
                                        block_data@[before[f].0],
                                        k,
                                    ));
                                }
                            }
                        }
                    }
                    i = i + 1;
                }
            }
            index = index + 1;
        }
        proof {
            lemma_chunk_faces_bound(block_data@, cache_buffer@, CHUNK_VOLUME_SIZE as nat);
        }
        Self(buffer)
    }
}

/// The step of the scheduler that rebuilds meshes.
pub struct ChunkMeshes;

impl ChunkMeshes {
    /// Whether the mesh of a chunk is to be rebuilt: a refresh of the mesh
    /// is asked for, and none of the cache, which has to be fresh first.
    pub open spec fn is_due(config: ChunkConfigs) -> bool {
        config.mesh_data_refresh_req && !config.mesh_cache_refresh_req
    }

    /// Rebuilds the mesh of a chunk where that is due, and returns it;
    /// returns nothing where it is not.
    ///
    /// The request for the mesh is left standing: it is for the scheduler
    /// to take it back once the mesh has reached the renderer.
    pub fn refresh(
        config: &ChunkConfigs,
        cache_buffer: &ChunkCacheBuffer,
        block_data: &ChunkBlockData,
    ) -> (r: Option<ChunkMeshBuffer>)
        ensures
            r is Some <==> Self::is_due(*config),
            r matches Some(mesh) ==> depicts(
                mesh@,
                chunk_faces(block_data@, cache_buffer@, CHUNK_VOLUME_SIZE as nat),
                block_data@,
            ),
    {
        // The mesh does not need to be rebuilt.
        if !config.mesh_data_refresh_req {
            return None;
        }
        // The cache needs to be refreshed first.
        if config.mesh_cache_refresh_req {
            return None;
        }
        Some(ChunkMeshBuffer::populate(block_data, cache_buffer))
    }
}

} // verus!
