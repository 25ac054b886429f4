//! The one-pass mesher: it looks at the neighbours of every block itself
//! and draws each face with a texture picked at random.

use vstd::prelude::*;
use crate::block::block::Block;
use crate::block::utils::{is_vec2, is_vec3, triangle_normal, BlockFaceCodes};
use crate::chunk::chunk::IndexableChunkList;
use crate::level::chunk::buffer::{cell_at, in_chunk, linear_index};
use crate::level::chunk::config::{CHUNK_SIZE, CHUNK_VOLUME_SIZE};
use crate::level::chunk::mesh::culler::face_visible;

verus! {

/// Number of tiles along each side of the texture atlas of this mesher.
pub const ATLAS_SIZE: u8 = 8;

/// The mesh of a chunk, as four flat buffers.
///
/// Each face of the mesh is a quad of its own: four vertices, four normals,
/// four texture coordinates and six indices, which name the two triangles of
/// the quad. Vertices are lattice points in the chunk, normals are axis unit
/// vectors, and texture coordinates are counted in tiles of the atlas: a
/// renderer divides them by `ATLAS_SIZE`.
pub struct ChunkMesh {
    pub verticies: Vec<[i32; 3]>,
    pub normals: Vec<[i32; 3]>,
    pub uvs: Vec<[i32; 2]>,
    pub indices: Vec<u32>,
}

/// Corner `i` (`0` to `7`) of the unit cube: the top four, then the bottom
/// four.
pub open spec fn point(i: int) -> (int, int, int) {
    if i == 0 {
        (1, 1, 1)
    } else if i == 1 {
        (1, 1, 0)
    } else if i == 2 {
        (0, 1, 0)
    } else if i == 3 {
        (0, 1, 1)
    } else if i == 4 {
        (1, 0, 0)
    } else if i == 5 {
        (1, 0, 1)
    } else if i == 6 {
        (0, 0, 1)
    } else {
        (0, 0, 0)
    }
}

/// Which corner of the unit cube is corner `k` (`0` to `3`) of the quad of
/// the given face.
pub open spec fn quad_point(face: BlockFaceCodes, k: int) -> int {
    match face {
        BlockFaceCodes::BlockFacePositiveY => k,
        BlockFaceCodes::BlockFaceNegativeY => 4 + k,
        BlockFaceCodes::BlockFacePositiveZ => if k == 0 {
            6
        } else if k == 1 {
            5
        } else if k == 2 {
            0
        } else {
            3
        },
        BlockFaceCodes::BlockFaceNegativeZ => if k == 0 {
            2
        } else if k == 1 {
            1
        } else if k == 2 {
            4
        } else {
            7
        },
        BlockFaceCodes::BlockFacePositiveX => if k == 0 {
            1
        } else if k == 1 {
            0
        } else if k == 2 {
            5
        } else {
            4
        },
        BlockFaceCodes::BlockFaceNegativeX => if k == 0 {
            3
        } else if k == 1 {
            2
        } else if k == 2 {
            7
        } else {
            6
        },
    }
}

/// Corner `k` (`0` to `3`) of the quad of the given face of the unit cube.
/// The corners go round the quad.
pub open spec fn quad_corner(face: BlockFaceCodes, k: int) -> (int, int, int) {
    point(quad_point(face, k))
}

/// Texture corner `k` (`0` to `3`) of a quad, in the unit square: the
/// corners go round the square as those of the quad go round the quad.
pub open spec fn quad_texture_corner(k: int) -> (int, int) {
    if k == 0 {
        (0, 0)
    } else if k == 1 {
        (1, 0)
    } else if k == 2 {
        (1, 1)
    } else {
        (0, 1)
    }
}

/// Which corner of a quad is corner `k` (`0` to `5`) of its two triangles:
/// the first triangle has the corners `0, 1, 2` of the quad, the second one
/// its corners `2, 3, 0`.
pub open spec fn triangle_corner(k: int) -> int {
    if k == 0 {
        0
    } else if k == 1 {
        1
    } else if k == 2 {
        2
    } else if k == 3 {
        2
    } else if k == 4 {
        3
    } else {
        0
    }
}

/// The order in which the mesher walks the faces of a cell: top, bottom,
/// front, back, right, left.
pub open spec fn face_order(j: int) -> BlockFaceCodes {
    if j == 0 {
        BlockFaceCodes::BlockFacePositiveY
    } else if j == 1 {
        BlockFaceCodes::BlockFaceNegativeY
    } else if j == 2 {
        BlockFaceCodes::BlockFacePositiveZ
    } else if j == 3 {
        BlockFaceCodes::BlockFaceNegativeZ
    } else if j == 4 {
        BlockFaceCodes::BlockFacePositiveX
    } else {
        BlockFaceCodes::BlockFaceNegativeX
    }
}

/// The faces of the cell with the given linear index that the mesher
/// emits among the first `count` faces of its order: those that can be
/// seen. Each is given with the index of the cell.
pub open spec fn cell_faces(blocks: Seq<Block>, cell: int, count: nat) -> Seq<(int, BlockFaceCodes)>
    decreases count,
{
    if count == 0 {
        Seq::empty()
    } else {
        let rest = cell_faces(blocks, cell, (count - 1) as nat);
        let face = face_order(count - 1);
        if cell_face_visible(blocks, cell, face) {
            rest.push((cell, face))
        } else {
            rest
        }
    }
}

/// The faces that the mesher emits for the first `count` cells of a chunk,
/// in the order of their linear indices: the faces of the cells that are
/// not air. An air cell has no faces.
pub open spec fn chunk_faces(blocks: Seq<Block>, count: nat) -> Seq<(int, BlockFaceCodes)>
    decreases count,
{
    if count == 0 {
        Seq::empty()
    } else {
        let rest = chunk_faces(blocks, (count - 1) as nat);
        if blocks[count - 1] == Block::Air {
            rest
        } else {
            rest + cell_faces(blocks, count - 1, 6)
        }
    }
}

/// The place (`0` to `5`) of a face in the order of the mesher.
pub open spec fn face_place(face: BlockFaceCodes) -> int {
    match face {
        BlockFaceCodes::BlockFacePositiveY => 0,
        BlockFaceCodes::BlockFaceNegativeY => 1,
        BlockFaceCodes::BlockFacePositiveZ => 2,
        BlockFaceCodes::BlockFaceNegativeZ => 3,
        BlockFaceCodes::BlockFacePositiveX => 4,
        BlockFaceCodes::BlockFaceNegativeX => 5,
    }
}

/// Whether the given face of the cell with the given linear index can be
/// seen.
pub open spec fn cell_face_visible(blocks: Seq<Block>, cell: int, face: BlockFaceCodes) -> bool {
    face_visible(blocks, cell_at(cell).0, cell_at(cell).1, cell_at(cell).2, face)
}

/// The faces of a chunk are at most six for each cell.
pub proof fn lemma_chunk_faces_bound(blocks: Seq<Block>, count: nat)
    ensures
        chunk_faces(blocks, count).len() <= 6 * count,
    decreases count,
{
    if count > 0 {
        lemma_chunk_faces_bound(blocks, (count - 1) as nat);
        lemma_cell_faces(blocks, count - 1, 6);
    }
}

/// The faces of a cell among the first `count` of the order are at most
/// `count`. They are the faces among those that can be seen, each once and
/// in the order of the mesher.
pub proof fn lemma_cell_faces(blocks: Seq<Block>, cell: int, count: nat)
    requires
        count <= 6,
    ensures
        cell_faces(blocks, cell, count).len() <= count,
        forall|i: int|
            0 <= i < cell_faces(blocks, cell, count).len() ==> (#[trigger] cell_faces(
                blocks,
                cell,
                count,
            )[i]).0 == cell && face_place(cell_faces(blocks, cell, count)[i].1) < count
                && cell_face_visible(blocks, cell, cell_faces(blocks, cell, count)[i].1),
        forall|i: int, j: int|
            0 <= i < j < cell_faces(blocks, cell, count).len() ==> face_place(
                (#[trigger] cell_faces(blocks, cell, count)[i]).1,
            ) < face_place((#[trigger] cell_faces(blocks, cell, count)[j]).1),
        forall|face: BlockFaceCodes|
            face_place(face) < count && cell_face_visible(blocks, cell, face) ==> cell_faces(
                blocks,
                cell,
                count,
            ).contains((cell, face)),
    decreases count,
{
    if count > 0 {
        let rest = cell_faces(blocks, cell, (count - 1) as nat);
        let all = cell_faces(blocks, cell, count);
        let last = face_order(count - 1);
        lemma_cell_faces(blocks, cell, (count - 1) as nat);
        assert(face_place(last) == count - 1);
        assert forall|face: BlockFaceCodes|
            face_place(face) < count && cell_face_visible(
                blocks,
                cell,
                face,
            ) implies all.contains((cell, face)) by {
            if face_place(face) < count - 1 {
                let i = choose|i: int| 0 <= i < rest.len() && rest[i] == (cell, face);
                assert(all[i] == (cell, face));
            } else {
                assert(face == last);
                assert(all[rest.len() as int] == (cell, face));
            }
        }
    }
}

/// The faces of a chunk are the faces that can be seen of its cells that
/// are not air: each such face is there once, and the faces come in the
/// order of the cells and, within a cell, in the order of the mesher.
pub proof fn lemma_chunk_faces(blocks: Seq<Block>, count: nat)
    ensures
        forall|i: int|
            0 <= i < chunk_faces(blocks, count).len() ==> {
                let face = #[trigger] chunk_faces(blocks, count)[i];
                0 <= face.0 < count && blocks[face.0] != Block::Air && cell_face_visible(
                    blocks,
                    face.0,
                    face.1,
                )
            },
        forall|i: int, j: int|
            0 <= i < j < chunk_faces(blocks, count).len() ==> {
                let first = #[trigger] chunk_faces(blocks, count)[i];
                let second = #[trigger] chunk_faces(blocks, count)[j];
                first.0 < second.0 || (first.0 == second.0 && face_place(first.1) < face_place(
                    second.1,
                ))
            },
        forall|cell: int, face: BlockFaceCodes|
            0 <= cell < count && blocks[cell] != Block::Air && cell_face_visible(
                blocks,
                cell,
                face,
            ) ==> chunk_faces(blocks, count).contains((cell, face)),
    decreases count,
{
    if count > 0 {
        let rest = chunk_faces(blocks, (count - 1) as nat);
        let all = chunk_faces(blocks, count);
        let own = cell_faces(blocks, count - 1, 6);
        lemma_chunk_faces(blocks, (count - 1) as nat);
        lemma_cell_faces(blocks, count - 1, 6);
        assert forall|cell: int, face: BlockFaceCodes|
            0 <= cell < count && blocks[cell] != Block::Air && cell_face_visible(
                blocks,
                cell,
                face,
            ) implies all.contains((cell, face)) by {
            if cell < count - 1 {
                let i = choose|i: int| 0 <= i < rest.len() && rest[i] == (cell, face);
                assert(all[i] == (cell, face));
            } else {
                let i = choose|i: int| 0 <= i < own.len() && own[i] == (cell, face);
                assert(all[rest.len() + i] == (cell, face));
            }
        }
        if blocks[count - 1] != Block::Air {
            assert forall|i: int| 0 <= i < all.len() implies {
                let face = #[trigger] all[i];
                0 <= face.0 < count && blocks[face.0] != Block::Air && cell_face_visible(
                    blocks,
                    face.0,
                    face.1,
                )
            } by {
                if i >= rest.len() {
                    assert(all[i] == own[i - rest.len()]);
                }
            }
            assert forall|i: int, j: int| 0 <= i < j < all.len() implies {
                let first = #[trigger] all[i];
                let second = #[trigger] all[j];
                first.0 < second.0 || (first.0 == second.0 && face_place(first.1) < face_place(
                    second.1,
                ))
            } by {
                if j >= rest.len() {
                    assert(all[j] == own[j - rest.len()]);
                    if i >= rest.len() {
                        assert(all[i] == own[i - rest.len()]);
                    } else {
                        assert(all[i] == rest[i]);
                    }
                }
            }
        }
    }
}

/// No face of a chunk is drawn twice.
pub proof fn lemma_faces_once(blocks: Seq<Block>, count: nat)
    ensures
        chunk_faces(blocks, count).no_duplicates(),
{
    lemma_chunk_faces(blocks, count);
}

/// A chunk of nothing but air has no faces.
pub proof fn lemma_air_has_no_faces(blocks: Seq<Block>, count: nat)
    requires
        forall|i: int| 0 <= i < count ==> blocks[i] == Block::Air,
    ensures
        chunk_faces(blocks, count).len() == 0,
    decreases count,
{
    if count > 0 {
        lemma_air_has_no_faces(blocks, (count - 1) as nat);
    }
}

/// Every corner of a quad lies in the plane of its face, and both
/// triangles of the quad, its corners `0, 1, 2` and its corners `2, 3, 0`,
/// wind counter-clockwise when seen from outside the block: the normal of
/// each, by the right-hand rule, is the outward normal of the face.
pub proof fn lemma_quad_faces_outward(face: BlockFaceCodes, k: int)
    requires
        0 <= k < 4,
    ensures
        ({
            let c = quad_corner(face, k);
            let n = face.normal();
            &&& 0 <= c.0 <= 1 && 0 <= c.1 <= 1 && 0 <= c.2 <= 1
            &&& n.0 == 1 ==> c.0 == 1
            &&& n.0 == -1 ==> c.0 == 0
            &&& n.1 == 1 ==> c.1 == 1
            &&& n.1 == -1 ==> c.1 == 0
            &&& n.2 == 1 ==> c.2 == 1
            &&& n.2 == -1 ==> c.2 == 0
        }),
        triangle_normal(quad_corner(face, 0), quad_corner(face, 1), quad_corner(face, 2))
            == face.normal(),
        triangle_normal(quad_corner(face, 2), quad_corner(face, 3), quad_corner(face, 0))
            == face.normal(),
{
    match face {
        BlockFaceCodes::BlockFacePositiveY => {
            assert(triangle_normal((1int, 1int, 1int), (1int, 1int, 0int), (0int, 1int, 0int))
                == (0int, 1int, 0int)) by (nonlinear_arith);
            assert(triangle_normal((0int, 1int, 0int), (0int, 1int, 1int), (1int, 1int, 1int))
                == (0int, 1int, 0int)) by (nonlinear_arith);
        },
        BlockFaceCodes::BlockFaceNegativeY => {
            assert(triangle_normal((1int, 0int, 0int), (1int, 0int, 1int), (0int, 0int, 1int))
                == (0int, -1int, 0int)) by (nonlinear_arith);
            assert(triangle_normal((0int, 0int, 1int), (0int, 0int, 0int), (1int, 0int, 0int))
                == (0int, -1int, 0int)) by (nonlinear_arith);
        },
        BlockFaceCodes::BlockFacePositiveZ => {
            assert(triangle_normal((0int, 0int, 1int), (1int, 0int, 1int), (1int, 1int, 1int))
                == (0int, 0int, 1int)) by (nonlinear_arith);
            assert(triangle_normal((1int, 1int, 1int), (0int, 1int, 1int), (0int, 0int, 1int))
                == (0int, 0int, 1int)) by (nonlinear_arith);
        },
        BlockFaceCodes::BlockFaceNegativeZ => {
            assert(triangle_normal((0int, 1int, 0int), (1int, 1int, 0int), (1int, 0int, 0int))
                == (0int, 0int, -1int)) by (nonlinear_arith);
            assert(triangle_normal((1int, 0int, 0int), (0int, 0int, 0int), (0int, 1int, 0int))
                == (0int, 0int, -1int)) by (nonlinear_arith);
        },
        BlockFaceCodes::BlockFacePositiveX => {
            assert(triangle_normal((1int, 1int, 0int), (1int, 1int, 1int), (1int, 0int, 1int))
                == (1int, 0int, 0int)) by (nonlinear_arith);
            assert(triangle_normal((1int, 0int, 1int), (1int, 0int, 0int), (1int, 1int, 0int))
                == (1int, 0int, 0int)) by (nonlinear_arith);
        },
        BlockFaceCodes::BlockFaceNegativeX => {
            assert(triangle_normal((0int, 1int, 1int), (0int, 1int, 0int), (0int, 0int, 0int))
                == (-1int, 0int, 0int)) by (nonlinear_arith);
            assert(triangle_normal((0int, 0int, 0int), (0int, 0int, 1int), (0int, 1int, 1int))
                == (-1int, 0int, 0int)) by (nonlinear_arith);
        },
    }
}

/// `rand::random::<u8>()`: a byte from the generator of the thread. Nothing
/// is known of the byte.
#[verifier::external_body]
fn random_byte() -> u8 {
    rand::random::<u8>()
}

/// Returns the face at place `j` (`0` to `5`) in the order of the mesher.
fn face_at(j: usize) -> (r: BlockFaceCodes)
    requires
        j < 6,
    ensures
        r == face_order(j as int),
{
    if j == 0 {
        BlockFaceCodes::BlockFacePositiveY
    } else if j == 1 {
        BlockFaceCodes::BlockFaceNegativeY
    } else if j == 2 {
        BlockFaceCodes::BlockFacePositiveZ
    } else if j == 3 {
        BlockFaceCodes::BlockFaceNegativeZ
    } else if j == 4 {
        BlockFaceCodes::BlockFacePositiveX
    } else {
        BlockFaceCodes::BlockFaceNegativeX
    }
}

/// Returns the eight corners of the unit cube.
fn points() -> (r: [[i32; 3]; 8])
    ensures
        forall|i: int| 0 <= i < 8 ==> is_vec3(#[trigger] r[i], point(i)),
{
    [
        [1, 1, 1],
        [1, 1, 0],
        [0, 1, 0],
        [0, 1, 1],
        [1, 0, 0],
        [1, 0, 1],
        [0, 0, 1],
        [0, 0, 0],
    ]
}

/// Returns the four corners of the quad of the given face of the unit
/// cube.
pub fn quad_vertices(face: BlockFaceCodes) -> (r: [[i32; 3]; 4])
    ensures
        forall|k: int| 0 <= k < 4 ==> is_vec3(#[trigger] r[k], quad_corner(face, k)),
{
    let p = points();
    match face {
        BlockFaceCodes::BlockFacePositiveY => [p[0], p[1], p[2], p[3]],
        BlockFaceCodes::BlockFaceNegativeY => [p[4], p[5], p[6], p[7]],
        BlockFaceCodes::BlockFacePositiveZ => [p[6], p[5], p[0], p[3]],
        BlockFaceCodes::BlockFaceNegativeZ => [p[2], p[1], p[4], p[7]],
        BlockFaceCodes::BlockFacePositiveX => [p[1], p[0], p[5], p[4]],
        BlockFaceCodes::BlockFaceNegativeX => [p[3], p[2], p[7], p[6]],
    }
}

impl ChunkMesh {
    /// Whether the mesh shows the given faces, each given by the linear
    /// index of its cell and its direction, one after the other.
    ///
    /// Vertex `k` of face `f` stands at place `4 * f + k` of the vertices:
    /// it is corner `k` of the quad of that face, moved to the cell. Its
    /// normal, at the same place, is the outward normal of the face. The
    /// indices at the places from `6 * f` on name the corners of the two
    /// triangles of face `f`. The texture coordinates of a face are the
    /// four corners of one tile of the atlas; the mesh decides which.
    pub open spec fn depicts(&self, faces: Seq<(int, BlockFaceCodes)>) -> bool {
        &&& Self::are_vertices(self.verticies@, faces)
        &&& Self::are_normals(self.normals@, faces)
        &&& Self::are_tiles(self.uvs@, faces.len())
        &&& Self::are_triangles(self.indices@, faces.len())
    }

    /// Whether `vertices` holds the corners of the quads of the given
    /// faces, four for each face.
    pub open spec fn are_vertices(
        vertices: Seq<[i32; 3]>,
        faces: Seq<(int, BlockFaceCodes)>,
    ) -> bool {
        &&& vertices.len() == 4 * faces.len()
        &&& forall|j: int|
            0 <= j < 4 * faces.len() ==> is_vec3(
                #[trigger] vertices[j],
                Self::vertex(faces[j / 4], j % 4),
            )
    }

    /// Whether `normals` holds the outward normals of the given faces,
    /// four times for each face.
    pub open spec fn are_normals(
        normals: Seq<[i32; 3]>,
        faces: Seq<(int, BlockFaceCodes)>,
    ) -> bool {
        &&& normals.len() == 4 * faces.len()
        &&& forall|j: int|
            0 <= j < 4 * faces.len() ==> is_vec3(#[trigger] normals[j], faces[j / 4].1.normal())
    }

    /// Whether `uvs` holds, for each of `count` faces, the four corners of
    /// one tile of the atlas.
    pub open spec fn are_tiles(uvs: Seq<[i32; 2]>, count: nat) -> bool {
        &&& uvs.len() == 4 * count
        &&& forall|j: int|
            0 <= j < 4 * count ==> Self::in_tile(#[trigger] uvs[j], uvs[4 * (j / 4)], j % 4)
    }

    /// Whether `indices` names, for each of `count` faces, the corners of
    /// its two triangles.
    pub open spec fn are_triangles(indices: Seq<u32>, count: nat) -> bool {
        &&& indices.len() == 6 * count
        &&& forall|j: int|
            0 <= j < 6 * count ==> (#[trigger] indices[j]) == 4 * (j / 6) + triangle_corner(
                j % 6,
            )
    }

    /// Corner `k` of the quad of the given face, in the chunk.
    pub open spec fn vertex(face: (int, BlockFaceCodes), k: int) -> (int, int, int) {
        let cell = cell_at(face.0);
        let corner = quad_corner(face.1, k);
        (cell.0 + corner.0, cell.1 + corner.1, cell.2 + corner.2)
    }

    /// Whether `uv` is texture corner `k` of the tile of the atlas whose
    /// first corner is `first`.
    pub open spec fn in_tile(uv: [i32; 2], first: [i32; 2], k: int) -> bool {
        &&& 0 <= first[0] < ATLAS_SIZE
        &&& 0 <= first[1] < ATLAS_SIZE
        &&& is_vec2(
            uv,
            (first[0] + quad_texture_corner(k).0, first[1] + quad_texture_corner(k).1),
        )
    }

    /// Creates a mesh without faces.
    pub fn new() -> (r: Self)
        ensures
            r.depicts(Seq::empty()),
    {
        ChunkMesh {
            verticies: Vec::new(),
            normals: Vec::new(),
            uvs: Vec::new(),
            indices: Vec::new(),
        }
    }

    /// Returns the four vertices moved by the position `index` of a cell.
    fn translate_vector(vertices: &[[i32; 3]; 4], index: &[i32; 3]) -> (r: [[i32; 3]; 4])
        requires
            forall|k: int, a: int|
                0 <= k < 4 && 0 <= a < 3 ==> i32::MIN <= (#[trigger] vertices[k][a]) + index[a]
                    <= i32::MAX,
        ensures
            forall|k: int, a: int|
                0 <= k < 4 && 0 <= a < 3 ==> (#[trigger] r[k][a]) == vertices[k][a] + index[a],
    {
        [
            [vertices[0][0] + index[0], vertices[0][1] + index[1], vertices[0][2] + index[2]],
            [vertices[1][0] + index[0], vertices[1][1] + index[1], vertices[1][2] + index[2]],
            [vertices[2][0] + index[0], vertices[2][1] + index[1], vertices[2][2] + index[2]],
            [vertices[3][0] + index[0], vertices[3][1] + index[1], vertices[3][2] + index[2]],
        ]
    }

    /// Adds one face to the mesh: the face towards `face` of the cell at
    /// `(x, y, z)`, with the texture of the tile in column `u % ATLAS_SIZE`
    /// and row `v % ATLAS_SIZE` of the atlas.
    ///
    /// Four vertices, four normals, four texture coordinates and six
    /// indices are added behind those that are there; the indices count on
    /// from the vertices that are there. The cell has to be a cell of the
    /// chunk, and the indices have to stay within `u32`.
    pub fn push_face(&mut self, cell: (usize, usize, usize), face: BlockFaceCodes, u: u8, v: u8)
        requires
            in_chunk(cell.0 as int, cell.1 as int, cell.2 as int),
            old(self).verticies@.len() + 4 <= u32::MAX,
        ensures
            final(self).verticies@.len() == old(self).verticies@.len() + 4,
            final(self).normals@.len() == old(self).normals@.len() + 4,
            final(self).uvs@.len() == old(self).uvs@.len() + 4,
            final(self).indices@.len() == old(self).indices@.len() + 6,
            final(self).verticies@.subrange(0, old(self).verticies@.len() as int) == old(
                self,
            ).verticies@,
            final(self).normals@.subrange(0, old(self).normals@.len() as int) == old(
                self,
            ).normals@,
            final(self).uvs@.subrange(0, old(self).uvs@.len() as int) == old(self).uvs@,
            final(self).indices@.subrange(0, old(self).indices@.len() as int) == old(
                self,
            ).indices@,
            forall|k: int|
                0 <= k < 4 ==> is_vec3(
                    #[trigger] final(self).verticies@[old(self).verticies@.len() + k],
                    Self::vertex(
                        (linear_index(cell.0 as int, cell.1 as int, cell.2 as int), face),
                        k,
                    ),
                ),
            forall|k: int|
                0 <= k < 4 ==> is_vec3(
                    #[trigger] final(self).normals@[old(self).normals@.len() + k],
                    face.normal(),
                ),
            forall|k: int|
                0 <= k < 4 ==> is_vec2(
                    #[trigger] final(self).uvs@[old(self).uvs@.len() + k],
                    (
                        u % ATLAS_SIZE + quad_texture_corner(k).0,
                        v % ATLAS_SIZE + quad_texture_corner(k).1,
                    ),
                ),
            forall|k: int|
                0 <= k < 6 ==> (#[trigger] final(self).indices@[old(self).indices@.len() + k])
                    == old(self).verticies@.len() + triangle_corner(k),
            forall|faces: Seq<(int, BlockFaceCodes)>|
                old(self).depicts(faces) ==> final(self).depicts(
                    #[trigger] faces.push(
                        (linear_index(cell.0 as int, cell.1 as int, cell.2 as int), face),
                    ),
                ),
    {
        let index: [i32; 3] = [cell.0 as i32, cell.1 as i32, cell.2 as i32];
        let corners = quad_vertices(face);
        let moved = Self::translate_vector(&corners, &index);
        let normal = face.normal_data();
        let (tu, tv) = ((u % ATLAS_SIZE) as i32, (v % ATLAS_SIZE) as i32);
        let vlen = self.verticies.len() as u32;

        self.verticies.push(moved[0]);
        self.verticies.push(moved[1]);
        self.verticies.push(moved[2]);
        self.verticies.push(moved[3]);
        self.normals.push(normal);
        self.normals.push(normal);
        self.normals.push(normal);
        self.normals.push(normal);
        self.uvs.push([tu, tv]);
        self.uvs.push([tu + 1, tv]);
        self.uvs.push([tu + 1, tv + 1]);
        self.uvs.push([tu, tv + 1]);
        self.indices.push(vlen);
        self.indices.push(vlen + 1);
        self.indices.push(vlen + 2);
        self.indices.push(vlen + 2);
        self.indices.push(vlen + 3);
        self.indices.push(vlen);

        proof {
            let added = (linear_index(cell.0 as int, cell.1 as int, cell.2 as int), face);
            crate::level::chunk::buffer::lemma_linear_index_bijective(
                cell.0 as int,
                cell.1 as int,
                cell.2 as int,
                0,
            );
            assert(self.verticies@ =~= old(self).verticies@.push(moved[0]).push(moved[1]).push(
                moved[2],
            ).push(moved[3]));
            assert(self.normals@ =~= old(self).normals@.push(normal).push(normal).push(
                normal,
            ).push(normal));
            assert forall|faces: Seq<(int, BlockFaceCodes)>|
                old(self).depicts(faces) implies self.depicts(#[trigger] faces.push(added)) by {
                Self::lemma_push_vertices(old(self).verticies@, faces, added, moved);
                Self::lemma_push_normals(old(self).normals@, faces, added, normal);
                Self::lemma_push_tile(old(self).uvs@, faces.len(), self.uvs@);
                Self::lemma_push_triangles(old(self).indices@, faces.len(), self.indices@);
            }
            assert(self.verticies@.subrange(0, old(self).verticies@.len() as int) =~= old(
                self,
            ).verticies@);
            assert(self.normals@.subrange(0, old(self).normals@.len() as int) =~= old(
                self,
            ).normals@);
            assert(self.uvs@.subrange(0, old(self).uvs@.len() as int) =~= old(self).uvs@);
            assert(self.indices@.subrange(0, old(self).indices@.len() as int) =~= old(
                self,
            ).indices@);
        }
    }

    /// The vertices of some faces, followed by the four corners of the
    /// quad of one more, are the vertices of all of them.
    proof fn lemma_push_vertices(
        vertices: Seq<[i32; 3]>,
        faces: Seq<(int, BlockFaceCodes)>,
        added: (int, BlockFaceCodes),
        quad: [[i32; 3]; 4],
    )
        requires
            Self::are_vertices(vertices, faces),
            forall|k: int| 0 <= k < 4 ==> is_vec3(#[trigger] quad[k], Self::vertex(added, k)),
        ensures
            Self::are_vertices(
                vertices.push(quad[0]).push(quad[1]).push(quad[2]).push(quad[3]),
                faces.push(added),
            ),
    {
        let n = faces.len() as int;
        let more = faces.push(added);
        let all = vertices.push(quad[0]).push(quad[1]).push(quad[2]).push(quad[3]);
        assert forall|j: int| 0 <= j < 4 * more.len() implies is_vec3(
            #[trigger] all[j],
            Self::vertex(more[j / 4], j % 4),
        ) by {
            if j < 4 * n {
                assert(all[j] == vertices[j]);
                assert(more[j / 4] == faces[j / 4]);
            } else {
                assert(j / 4 == n && j % 4 == j - 4 * n);
                assert(all[j] == quad[j - 4 * n]);
            }
        }
    }

    /// The normals of some faces, followed by four times the normal of one
    /// more, are the normals of all of them.
    proof fn lemma_push_normals(
        normals: Seq<[i32; 3]>,
        faces: Seq<(int, BlockFaceCodes)>,
        added: (int, BlockFaceCodes),
        normal: [i32; 3],
    )
        requires
            Self::are_normals(normals, faces),
            is_vec3(normal, added.1.normal()),
        ensures
            Self::are_normals(
                normals.push(normal).push(normal).push(normal).push(normal),
                faces.push(added),
            ),
    {
        let n = faces.len() as int;
        let more = faces.push(added);
        let all = normals.push(normal).push(normal).push(normal).push(normal);
        assert forall|j: int| 0 <= j < 4 * more.len() implies is_vec3(
            #[trigger] all[j],
            more[j / 4].1.normal(),
        ) by {
            if j < 4 * n {
                assert(all[j] == normals[j]);
                assert(more[j / 4] == faces[j / 4]);
            } else {
                assert(j / 4 == n);
            }
        }
    }

    /// The tiles of some faces, followed by the four corners of one more
    /// tile, are the tiles of one face more.
    proof fn lemma_push_tile(uvs: Seq<[i32; 2]>, count: nat, all: Seq<[i32; 2]>)
        requires
            Self::are_tiles(uvs, count),
            all.len() == uvs.len() + 4,
            forall|j: int| 0 <= j < uvs.len() ==> all[j] == uvs[j],
            forall|k: int|
                0 <= k < 4 ==> Self::in_tile(
                    #[trigger] all[4 * count + k],
                    all[4 * count as int],
                    k,
                ),
        ensures
            Self::are_tiles(all, count + 1),
    {
        assert forall|j: int| 0 <= j < 4 * (count + 1) implies Self::in_tile(
            #[trigger] all[j],
            all[4 * (j / 4)],
            j % 4,
        ) by {
            if j < 4 * count {
                assert(all[j] == uvs[j]);
                assert(all[4 * (j / 4)] == uvs[4 * (j / 4)]);
            } else {
                assert(j / 4 == count && j % 4 == j - 4 * count);
                let k = j - 4 * count;
                assert(Self::in_tile(all[4 * count + k], all[4 * count as int], k));
            }
        }
    }

    /// The triangles of some faces, followed by the six indices of one more
    /// quad, are the triangles of one face more.
    proof fn lemma_push_triangles(indices: Seq<u32>, count: nat, all: Seq<u32>)
        requires
            Self::are_triangles(indices, count),
            all.len() == indices.len() + 6,
            forall|j: int| 0 <= j < indices.len() ==> all[j] == indices[j],
            forall|k: int|
                0 <= k < 6 ==> (#[trigger] all[6 * count + k]) == 4 * count + triangle_corner(k),
        ensures
            Self::are_triangles(all, count + 1),
    {
        assert forall|j: int| 0 <= j < 6 * (count + 1) implies (#[trigger] all[j]) == 4 * (j / 6)
            + triangle_corner(j % 6) by {
            if j < 6 * count {
                assert(all[j] == indices[j]);
            } else {
                assert(j / 6 == count && j % 6 == j - 6 * count);
                assert(all[6 * count + (j - 6 * count)] == 4 * count + triangle_corner(
                    j - 6 * count,
                ));
            }
        }
    }

    /// Builds the mesh of a chunk.
    ///
    /// The cells are walked in the order of their linear indices and air is
    /// skipped. A face of a cell is emitted where it can be seen: where the
    /// neighbour across it is transparent or lies outside the chunk. Each
    /// face gets the texture of a tile of the atlas that is drawn at random.
    pub fn generate_mesh(list: &IndexableChunkList<Block>) -> (r: ChunkMesh)
        ensures
            r.depicts(chunk_faces(list@, CHUNK_VOLUME_SIZE as nat)),
    {
        let mut mesh = ChunkMesh::new();
        let mut iter = list.iter();
        let mut count: usize = 0;
        loop
            invariant_except_break
                count <= CHUNK_VOLUME_SIZE,
                iter.list() == *list,
                iter.position() == count,
                mesh.depicts(chunk_faces(list@, count as nat)),
            ensures
                mesh.depicts(chunk_faces(list@, CHUNK_VOLUME_SIZE as nat)),
            decreases CHUNK_VOLUME_SIZE - count,
        {
            let item = iter.next();
            let ((x, y, z), block) = match item {
                Some(item) => item,
                None => {
                    break ;
                },
            };
            proof {
                crate::level::chunk::buffer::lemma_linear_index_bijective(0, 0, 0, count as int);
                lemma_chunk_faces_bound(list@, count as nat);
            }
            if *block != Block::Air {
                let mut j: usize = 0;
                while j < 6
                    invariant
                        j <= 6,
                        count < CHUNK_VOLUME_SIZE,
                        (x as int, y as int, z as int) == cell_at(count as int),
                        in_chunk(x as int, y as int, z as int),
                        linear_index(x as int, y as int, z as int) == count,
                        chunk_faces(list@, count as nat).len() <= 6 * count,
                        mesh.depicts(
                            chunk_faces(list@, count as nat) + cell_faces(
                                list@,
                                count as int,
                                j as nat,
                            ),
                        ),
                    decreases 6 - j,
                {
                    let face = face_at(j);
                    let (dx, dy, dz) = face.direction();
                    let seen = match list.try_get(
                        x as isize + dx as isize,
                        y as isize + dy as isize,
                        z as isize + dz as isize,
                    ) {
                        Some(neighbour) => neighbour.transparent(),
                        None => true,
                    };
                    proof {
                        lemma_cell_faces(list@, count as int, j as nat);
                        lemma_list_neighbour(list, x as int, y as int, z as int, face);
                    }
                    if seen {
                        let ghost before = chunk_faces(list@, count as nat) + cell_faces(
                            list@,
                            count as int,
                            j as nat,
                        );
                        mesh.push_face((x, y, z), face, random_byte(), random_byte());
                        assert(before.push((count as int, face)) =~= chunk_faces(
                            list@,
                            count as nat,
                        ) + cell_faces(list@, count as int, (j + 1) as nat));
                    }
                    j = j + 1;
                }
            } else {
                assert(chunk_faces(list@, (count + 1) as nat) == chunk_faces(list@, count as nat));
            }
            count = count + 1;
        }
        mesh
    }
}

/// What `try_get` finds next to a cell of a list is the neighbour of the
/// cell in the view of the list.
proof fn lemma_list_neighbour(
    list: &IndexableChunkList<Block>,
    x: int,
    y: int,
    z: int,
    face: BlockFaceCodes,
)
    ensures
        ({
            let n = face.normal();
            list.at_or_none(x + n.0, y + n.1, z + n.2)
                == crate::level::chunk::mesh::culler::neighbour(list@, x, y, z, face)
        }),
{
    let n = face.normal();
    crate::level::chunk::buffer::lemma_linear_index_bijective(x + n.0, y + n.1, z + n.2, 0);
}

} // verus!
