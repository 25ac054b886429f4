use craftoria::block::block::Block;
use craftoria::block::utils::BlockFaceCodes;
use craftoria::chunk::chunk::{IndexableChunkList, CHUNK_SIZE};
use craftoria::chunk::mesher::{quad_vertices, ChunkMesh};

fn air() -> IndexableChunkList<Block> {
    IndexableChunkList::<Block> {
        data: Box::new([[[Block::Air; CHUNK_SIZE]; CHUNK_SIZE]; CHUNK_SIZE]),
    }
}

/// The normal of the triangle `a`, `b`, `c` by the right-hand rule.
fn triangle_normal(a: [i32; 3], b: [i32; 3], c: [i32; 3]) -> [i32; 3] {
    let e = [b[0] - a[0], b[1] - a[1], b[2] - a[2]];
    let f = [c[0] - a[0], c[1] - a[1], c[2] - a[2]];
    [
        e[1] * f[2] - e[2] * f[1],
        e[2] * f[0] - e[0] * f[2],
        e[0] * f[1] - e[1] * f[0],
    ]
}

/// Checks what holds of every mesh: the buffers agree in length, every face
/// has the texture of one tile, and every triangle faces along its normals.
fn check_mesh(mesh: &ChunkMesh) {
    let faces = mesh.indices.len() / 6;
    assert_eq!(mesh.indices.len(), 6 * faces);
    assert_eq!(mesh.verticies.len(), 4 * faces);
    assert_eq!(mesh.normals.len(), 4 * faces);
    assert_eq!(mesh.uvs.len(), 4 * faces);
    for f in 0..faces {
        let base = 4 * f as u32;
        assert_eq!(
            mesh.indices[6 * f..6 * f + 6],
            [base, base + 1, base + 2, base + 2, base + 3, base]
        );
        let tile = mesh.uvs[4 * f];
        assert!(0 <= tile[0] && tile[0] < 8);
        assert!(0 <= tile[1] && tile[1] < 8);
        assert_eq!(mesh.uvs[4 * f + 1], [tile[0] + 1, tile[1]]);
        assert_eq!(mesh.uvs[4 * f + 2], [tile[0] + 1, tile[1] + 1]);
        assert_eq!(mesh.uvs[4 * f + 3], [tile[0], tile[1] + 1]);
        for t in 0..2 {
            let corner = |k: usize| mesh.verticies[mesh.indices[6 * f + 3 * t + k] as usize];
            let normal = mesh.normals[4 * f];
            assert_eq!(triangle_normal(corner(0), corner(1), corner(2)), normal);
        }
        for k in 0..4 {
            assert_eq!(mesh.normals[4 * f + k], mesh.normals[4 * f]);
        }
    }
}

#[test]
fn test_generate_mesh_empty() {
    let list = IndexableChunkList::<Block> {
        data: Box::new([[[Block::Air; CHUNK_SIZE]; CHUNK_SIZE]; CHUNK_SIZE]),
    };
    let mesh = ChunkMesh::generate_mesh(&list);
    assert_eq!(mesh.verticies.len(), 0);
    assert_eq!(mesh.normals.len(), 0);
    assert_eq!(mesh.uvs.len(), 0);
    assert_eq!(mesh.indices.len(), 0);
}

#[test]
fn test_generate_mesh_single() {
    let mut list = IndexableChunkList::<Block> {
        data: Box::new([[[Block::Air; CHUNK_SIZE]; CHUNK_SIZE]; CHUNK_SIZE]),
    };

    *list.index_mut((7, 7, 7)) = Block::Stone;

    let mesh = ChunkMesh::generate_mesh(&list);
    assert_eq!(mesh.verticies.len(), 24);
    assert_eq!(mesh.normals.len(), 24);
    assert_eq!(mesh.uvs.len(), 24);
    assert_eq!(mesh.indices.len(), 36);
}

#[test]
fn test_generate_mesh_double_disconnected() {
    let mut list = IndexableChunkList::<Block> {
        data: Box::new([[[Block::Air; CHUNK_SIZE]; CHUNK_SIZE]; CHUNK_SIZE]),
    };

    *list.index_mut((7, 7, 7)) = Block::Stone;
    *list.index_mut((8, 8, 8)) = Block::Stone;

    let mesh = ChunkMesh::generate_mesh(&list);
    assert_eq!(mesh.verticies.len(), 48);
    assert_eq!(mesh.normals.len(), 48);
    assert_eq!(mesh.uvs.len(), 48);
    assert_eq!(mesh.indices.len(), 72);
}

#[test]
fn test_generate_mesh_double_connected() {
    let mut list = IndexableChunkList::<Block> {
        data: Box::new([[[Block::Air; CHUNK_SIZE]; CHUNK_SIZE]; CHUNK_SIZE]),
    };

    *list.index_mut((7, 7, 7)) = Block::Stone;
    *list.index_mut((7, 7, 8)) = Block::Stone;

    let mesh = ChunkMesh::generate_mesh(&list);
    assert_eq!(mesh.verticies.len(), 40);
    assert_eq!(mesh.normals.len(), 40);
    assert_eq!(mesh.uvs.len(), 40);
    assert_eq!(mesh.indices.len(), 60);
}

#[test]
fn test_generate_mesh_double_encased() {
    let mut list = IndexableChunkList::<Block> {
        data: Box::new([[[Block::Air; CHUNK_SIZE]; CHUNK_SIZE]; CHUNK_SIZE]),
    };

    *list.index_mut((7, 7, 7)) = Block::Stone;
    *list.index_mut((7, 8, 7)) = Block::Stone;
    *list.index_mut((7, 6, 7)) = Block::Stone;
    *list.index_mut((7, 7, 8)) = Block::Stone;
    *list.index_mut((7, 7, 6)) = Block::Stone;
    *list.index_mut((8, 7, 7)) = Block::Stone;
    *list.index_mut((6, 7, 7)) = Block::Stone;

    let mesh = ChunkMesh::generate_mesh(&list);
    assert_eq!(mesh.verticies.len(), 6 * 20);
    assert_eq!(mesh.normals.len(), 6 * 20);
    assert_eq!(mesh.uvs.len(), 6 * 20);
    assert_eq!(mesh.indices.len(), 6 * 6 * 5);
}

#[test]
fn single_block_has_the_six_quads_of_its_cell() {
    let mut list = air();
    *list.index_mut((7, 3, 9)) = Block::Stone;
    let mesh = ChunkMesh::generate_mesh(&list);
    check_mesh(&mesh);
    // Top, bottom, front, back, right, left.
    let normals = [[0, 1, 0], [0, -1, 0], [0, 0, 1], [0, 0, -1], [1, 0, 0], [-1, 0, 0]];
    for (f, normal) in normals.iter().enumerate() {
        assert_eq!(mesh.normals[4 * f], *normal);
    }
    // The top face, corner by corner.
    assert_eq!(mesh.verticies[0], [8, 4, 10]);
    assert_eq!(mesh.verticies[1], [8, 4, 9]);
    assert_eq!(mesh.verticies[2], [7, 4, 9]);
    assert_eq!(mesh.verticies[3], [7, 4, 10]);
    // The left face lies in the plane x = 7.
    for k in 20..24 {
        assert_eq!(mesh.verticies[k][0], 7);
    }
    // Every vertex is a corner of the cell.
    for v in mesh.verticies.iter() {
        assert!(v[0] == 7 || v[0] == 8);
        assert!(v[1] == 3 || v[1] == 4);
        assert!(v[2] == 9 || v[2] == 10);
    }
}

#[test]
fn faces_between_two_blocks_are_hidden() {
    let mut list = air();
    *list.index_mut((7, 7, 7)) = Block::Stone;
    *list.index_mut((7, 7, 8)) = Block::Stone;
    let mesh = ChunkMesh::generate_mesh(&list);
    check_mesh(&mesh);
    // The first block comes first and lacks its front, the second its back.
    let first: Vec<[i32; 3]> = (0..5).map(|f| mesh.normals[4 * f]).collect();
    assert_eq!(first, [[0, 1, 0], [0, -1, 0], [0, 0, -1], [1, 0, 0], [-1, 0, 0]]);
    let second: Vec<[i32; 3]> = (5..10).map(|f| mesh.normals[4 * f]).collect();
    assert_eq!(second, [[0, 1, 0], [0, -1, 0], [0, 0, 1], [1, 0, 0], [-1, 0, 0]]);
}

#[test]
fn encased_block_has_no_face_and_each_neighbour_loses_one() {
    let mut list = air();
    let cells = [
        (7, 7, 7),
        (7, 8, 7),
        (7, 6, 7),
        (7, 7, 8),
        (7, 7, 6),
        (8, 7, 7),
        (6, 7, 7),
    ];
    for cell in cells {
        *list.index_mut(cell) = Block::Stone;
    }
    let mesh = ChunkMesh::generate_mesh(&list);
    check_mesh(&mesh);
    assert_eq!(mesh.indices.len() / 6, 30);
    // No face lies between the centre and a neighbour: every quad has a
    // corner that is no corner of the centre cell.
    for f in 0..30 {
        let on_centre = (0..4).all(|k| {
            let v = mesh.verticies[4 * f + k];
            (7..=8).contains(&v[0]) && (7..=8).contains(&v[1]) && (7..=8).contains(&v[2])
        });
        assert!(!on_centre);
    }
}

#[test]
fn block_on_the_border_shows_its_outer_faces() {
    let mut list = air();
    *list.index_mut((0, 0, 0)) = Block::Stone;
    *list.index_mut((15, 15, 15)) = Block::Stone;
    let mesh = ChunkMesh::generate_mesh(&list);
    check_mesh(&mesh);
    assert_eq!(mesh.verticies.len(), 48);
}

#[test]
fn transparent_neighbour_does_not_hide_a_face() {
    let mut list = air();
    *list.index_mut((4, 4, 4)) = Block::Stone;
    *list.index_mut((5, 4, 4)) = Block::Water;
    let mesh = ChunkMesh::generate_mesh(&list);
    check_mesh(&mesh);
    // Stone shows all six faces; water lacks only the one towards stone.
    assert_eq!(mesh.indices.len() / 6, 11);
}

#[test]
fn full_chunk_shows_its_surface() {
    let list = IndexableChunkList::<Block> {
        data: Box::new([[[Block::Stone; CHUNK_SIZE]; CHUNK_SIZE]; CHUNK_SIZE]),
    };
    let mesh = ChunkMesh::generate_mesh(&list);
    check_mesh(&mesh);
    assert_eq!(mesh.indices.len() / 6, 6 * 16 * 16);
}

#[test]
fn push_face_adds_one_quad_with_the_given_tile() {
    let mut mesh = ChunkMesh::new();
    mesh.push_face((1, 2, 3), BlockFaceCodes::BlockFacePositiveX, 13, 250);
    mesh.push_face((0, 0, 0), BlockFaceCodes::BlockFaceNegativeY, 7, 8);
    check_mesh(&mesh);
    assert_eq!(mesh.verticies, [
        [2, 3, 3],
        [2, 3, 4],
        [2, 2, 4],
        [2, 2, 3],
        [1, 0, 0],
        [1, 0, 1],
        [0, 0, 1],
        [0, 0, 0],
    ]);
    assert_eq!(mesh.normals[0], [1, 0, 0]);
    assert_eq!(mesh.normals[7], [0, -1, 0]);
    assert_eq!(mesh.uvs, [[5, 2], [6, 2], [6, 3], [5, 3], [7, 0], [8, 0], [8, 1], [7, 1]]);
    assert_eq!(mesh.indices, [0, 1, 2, 2, 3, 0, 4, 5, 6, 6, 7, 4]);
}

#[test]
fn quad_vertices_go_round_each_face() {
    assert_eq!(
        quad_vertices(BlockFaceCodes::BlockFacePositiveY),
        [[1, 1, 1], [1, 1, 0], [0, 1, 0], [0, 1, 1]]
    );
    assert_eq!(
        quad_vertices(BlockFaceCodes::BlockFaceNegativeY),
        [[1, 0, 0], [1, 0, 1], [0, 0, 1], [0, 0, 0]]
    );
    assert_eq!(
        quad_vertices(BlockFaceCodes::BlockFacePositiveZ),
        [[0, 0, 1], [1, 0, 1], [1, 1, 1], [0, 1, 1]]
    );
    assert_eq!(
        quad_vertices(BlockFaceCodes::BlockFaceNegativeZ),
        [[0, 1, 0], [1, 1, 0], [1, 0, 0], [0, 0, 0]]
    );
    assert_eq!(
        quad_vertices(BlockFaceCodes::BlockFacePositiveX),
        [[1, 1, 0], [1, 1, 1], [1, 0, 1], [1, 0, 0]]
    );
    assert_eq!(
        quad_vertices(BlockFaceCodes::BlockFaceNegativeX),
        [[0, 1, 1], [0, 1, 0], [0, 0, 0], [0, 0, 1]]
    );
}

#[test]
fn funnel_is_grass_where_the_squares_differ_by_less_than_the_edge() {
    let list = IndexableChunkList::<Block>::funnel();
    let mut grass = 0;
    for y in 0..16i32 {
        for z in 0..16i32 {
            for x in 0..16i32 {
                let eq = x * x + z * z - y * y;
                let expected = if -16 < eq && eq < 16 { Block::Grass } else { Block::Air };
                assert_eq!(list[(x as usize, y as usize, z as usize)], expected);
                if expected == Block::Grass {
                    grass += 1;
                }
            }
        }
    }
    assert_eq!(list[(0, 0, 0)], Block::Grass);
    assert_eq!(list[(3, 0, 3)], Block::Air);
    assert_eq!(list[(4, 5, 3)], Block::Grass);
    assert_eq!(list[(4, 0, 0)], Block::Air);
    assert!(grass > 0);
    check_mesh(&ChunkMesh::generate_mesh(&list));
}
