use craftoria::block::atlas::{BlockAtlas, BlockTextureConfig};
use craftoria::block::block::Block;
use craftoria::block::blocks::Block as CatalogBlock;
use craftoria::block::cobblestone::Cobblestone;
use craftoria::block::flower::Flower;
use craftoria::block::mushroom::Mushroom;
use craftoria::block::sponge::Sponge;
use craftoria::block::utils::BlockFaceCodes;
use craftoria::block::wood::Wood;
use craftoria::block::wool::Wool;

const PX: BlockFaceCodes = BlockFaceCodes::BlockFacePositiveX;
const NX: BlockFaceCodes = BlockFaceCodes::BlockFaceNegativeX;
const PY: BlockFaceCodes = BlockFaceCodes::BlockFacePositiveY;
const NY: BlockFaceCodes = BlockFaceCodes::BlockFaceNegativeY;
const PZ: BlockFaceCodes = BlockFaceCodes::BlockFacePositiveZ;
const NZ: BlockFaceCodes = BlockFaceCodes::BlockFaceNegativeZ;

fn faces(config: &BlockTextureConfig) -> [Option<BlockAtlas>; 6] {
    [PX, NX, PY, NY, PZ, NZ].map(|f| config.get(f))
}

#[test]
fn face_codes_round_trip() {
    let variants = BlockFaceCodes::variants();
    assert_eq!(variants, [PX, NX, PY, NY, PZ, NZ]);
    for (i, face) in variants.iter().enumerate() {
        assert_eq!(face.as_u8() as usize, i);
        assert_eq!(BlockFaceCodes::from_u8(i as u8), *face);
        assert_eq!(face.mask_u8(), 1 << i);
    }
    assert_eq!(NZ.mask_u8(), 32);
}

#[test]
fn face_directions_and_normals() {
    assert_eq!(PX.direction(), (1, 0, 0));
    assert_eq!(NX.direction(), (-1, 0, 0));
    assert_eq!(PY.direction(), (0, 1, 0));
    assert_eq!(NY.direction(), (0, -1, 0));
    assert_eq!(PZ.direction(), (0, 0, 1));
    assert_eq!(NZ.direction(), (0, 0, -1));
    for face in BlockFaceCodes::variants() {
        let (x, y, z) = face.direction();
        assert_eq!(face.normal_data(), [x, y, z]);
    }
}

#[test]
fn face_vertex_data_is_the_table() {
    assert_eq!(PX.vertex_data(), [[1, 1, 0], [1, 1, 1], [1, 0, 0], [1, 0, 1]]);
    assert_eq!(NX.vertex_data(), [[0, 1, 1], [0, 1, 0], [0, 0, 1], [0, 0, 0]]);
    assert_eq!(PY.vertex_data(), [[0, 1, 1], [1, 1, 1], [0, 1, 0], [1, 1, 0]]);
    assert_eq!(NY.vertex_data(), [[0, 0, 0], [1, 0, 0], [0, 0, 1], [1, 0, 1]]);
    assert_eq!(PZ.vertex_data(), [[1, 1, 1], [0, 1, 1], [1, 0, 1], [0, 0, 1]]);
    assert_eq!(NZ.vertex_data(), [[0, 1, 0], [1, 1, 0], [0, 0, 0], [1, 0, 0]]);
    for face in BlockFaceCodes::variants() {
        assert_eq!(face.texture_data(), [[0, 0], [1, 0], [0, 1], [1, 1]]);
    }
}

#[test]
fn face_corners_lie_on_the_face_and_wind_outwards() {
    for face in BlockFaceCodes::variants() {
        let v = face.vertex_data();
        let n = face.normal_data();
        for corner in v {
            for axis in 0..3 {
                if n[axis] == 1 {
                    assert_eq!(corner[axis], 1);
                }
                if n[axis] == -1 {
                    assert_eq!(corner[axis], 0);
                }
            }
        }
        for (a, b, c) in [(0, 1, 2), (2, 1, 3)] {
            let e = [v[b][0] - v[a][0], v[b][1] - v[a][1], v[b][2] - v[a][2]];
            let f = [v[c][0] - v[a][0], v[c][1] - v[a][1], v[c][2] - v[a][2]];
            let cross = [
                e[1] * f[2] - e[2] * f[1],
                e[2] * f[0] - e[0] * f[2],
                e[0] * f[1] - e[1] * f[0],
            ];
            assert_eq!(cross, n);
        }
    }
}

#[test]
fn small_catalog_codes() {
    let kinds = [
        Block::Air,
        Block::Stone,
        Block::Dirt,
        Block::Grass,
        Block::Cobblestone,
        Block::Water,
        Block::Sand,
        Block::Bedrock,
    ];
    for (code, kind) in kinds.iter().enumerate() {
        assert_eq!(kind.as_u8() as usize, code);
        assert_eq!(Block::from_u8(code as u8), *kind);
    }
    assert_eq!(Block::default(), Block::Air);
}

#[test]
fn small_catalog_properties() {
    let table = [
        (Block::Air, false, true, None, "Air"),
        (Block::Stone, true, false, Some((0, 0)), "Stone"),
        (Block::Dirt, true, false, Some((1, 0)), "Dirt"),
        (Block::Grass, true, false, Some((2, 0)), "Grass"),
        (Block::Cobblestone, true, false, Some((3, 0)), "Cobblestone"),
        (Block::Water, false, true, Some((0, 1)), "Water"),
        (Block::Sand, false, true, Some((1, 1)), "Sand"),
        (Block::Bedrock, true, false, Some((2, 1)), "Bedrock"),
    ];
    for (kind, opaque, transparent, tile, name) in table {
        assert_eq!(kind.opaque(), opaque);
        assert_eq!(kind.transparent(), transparent);
        assert_eq!(kind.atlas_position(), tile);
        assert_eq!(kind.name(), name);
    }
}

#[test]
fn atlas_index_is_the_table() {
    assert_eq!(BlockAtlas::Stone.index(), (0, 1));
    assert_eq!(BlockAtlas::OakLogInner.index(), (0, 7));
    assert_eq!(BlockAtlas::BirchLogSide.index(), (1, 0));
    assert_eq!(BlockAtlas::Water0.index(), (1, 6));
    assert_eq!(BlockAtlas::Lava0.index(), (1, 7));
    assert_eq!(BlockAtlas::IronBlock.index(), (2, 7));
    assert_eq!(BlockAtlas::WoolGray.index(), (3, 7));
    assert_eq!(BlockAtlas::WoolBlack.index(), (4, 0));
    assert_eq!(BlockAtlas::WoolPink.index(), (5, 4));
    assert_eq!(BlockAtlas::Brick.index(), (5, 7));
    assert_eq!(BlockAtlas::MossyCobblestone.index(), (6, 5));
    assert_eq!(BlockAtlas::SaplingOak.index(), (7, 0));
    assert_eq!(BlockAtlas::MushroomRed.index(), (7, 5));
}

#[test]
fn atlas_tiles_are_distinct_and_inside() {
    let all = [
        BlockAtlas::Stone,
        BlockAtlas::Cobblestone,
        BlockAtlas::Dirt,
        BlockAtlas::Grass,
        BlockAtlas::Bedrock,
        BlockAtlas::OakLogSide,
        BlockAtlas::OakLogInner,
        BlockAtlas::BirchLogSide,
        BlockAtlas::BirchLogInner,
        BlockAtlas::OakPlanks,
        BlockAtlas::BirchPlanks,
        BlockAtlas::OakLeaves,
        BlockAtlas::BirchLeaves,
        BlockAtlas::Water0,
        BlockAtlas::Lava0,
        BlockAtlas::Sand,
        BlockAtlas::Gravel,
        BlockAtlas::CoalOre,
        BlockAtlas::IronOre,
        BlockAtlas::GoldOre,
        BlockAtlas::DiamondOre,
        BlockAtlas::CoalBlock,
        BlockAtlas::IronBlock,
        BlockAtlas::GoldBlock,
        BlockAtlas::DiamondBlock,
        BlockAtlas::SpongeDry,
        BlockAtlas::SpongeWet,
        BlockAtlas::Glass,
        BlockAtlas::WoolWhite,
        BlockAtlas::WoolLightGray,
        BlockAtlas::WoolGray,
        BlockAtlas::WoolBlack,
        BlockAtlas::WoolBrown,
        BlockAtlas::WoolRed,
        BlockAtlas::WoolOrange,
        BlockAtlas::WoolYellow,
        BlockAtlas::WoolLime,
        BlockAtlas::WoolGreen,
        BlockAtlas::WoolCyan,
        BlockAtlas::WoolLightBlue,
        BlockAtlas::WoolBlue,
        BlockAtlas::WoolPurple,
        BlockAtlas::WoolMagenta,
        BlockAtlas::WoolPink,
        BlockAtlas::SmoothStone,
        BlockAtlas::SlabStone,
        BlockAtlas::Brick,
        BlockAtlas::TNTSide,
        BlockAtlas::TNTTop,
        BlockAtlas::TNTBottom,
        BlockAtlas::Bookshelf,
        BlockAtlas::Obsidian,
        BlockAtlas::MossyCobblestone,
        BlockAtlas::SaplingOak,
        BlockAtlas::SaplingBirch,
        BlockAtlas::FlowerRose,
        BlockAtlas::FlowerDandelion,
        BlockAtlas::MushroomBrown,
        BlockAtlas::MushroomRed,
    ];
    assert_eq!(all.len(), 59);
    let mut seen = [[false; 8]; 8];
    for (k, atlas) in all.iter().enumerate() {
        let (row, column) = atlas.index();
        assert!(row < 8 && column < 8);
        assert!(!seen[row as usize][column as usize]);
        seen[row as usize][column as usize] = true;
        // Row by row from the second tile on; the plants start the last row.
        let slot = if k < 53 { k + 1 } else { k + 3 };
        assert_eq!((row as usize, column as usize), (slot / 8, slot % 8));
    }
    assert!(!seen[0][0]);
}

#[test]
fn texture_config_starts_unset() {
    assert_eq!(faces(&BlockTextureConfig::new()), [None; 6]);
}

#[test]
fn texture_config_set_gives_all_faces_and_setters_override_one() {
    let all = BlockTextureConfig::new().set(BlockAtlas::Dirt);
    assert_eq!(faces(&all), [Some(BlockAtlas::Dirt); 6]);
    let dirt = Some(BlockAtlas::Dirt);
    let glass = Some(BlockAtlas::Glass);
    assert_eq!(faces(&all.right(BlockAtlas::Glass)), [glass, dirt, dirt, dirt, dirt, dirt]);
    assert_eq!(faces(&all.left(BlockAtlas::Glass)), [dirt, glass, dirt, dirt, dirt, dirt]);
    assert_eq!(faces(&all.top(BlockAtlas::Glass)), [dirt, dirt, glass, dirt, dirt, dirt]);
    assert_eq!(faces(&all.bottom(BlockAtlas::Glass)), [dirt, dirt, dirt, glass, dirt, dirt]);
    assert_eq!(faces(&all.front(BlockAtlas::Glass)), [dirt, dirt, dirt, dirt, glass, dirt]);
    assert_eq!(faces(&all.back(BlockAtlas::Glass)), [dirt, dirt, dirt, dirt, dirt, glass]);
    let one = BlockTextureConfig::new().top(BlockAtlas::Grass);
    assert_eq!(faces(&one), [None, None, Some(BlockAtlas::Grass), None, None, None]);
    // A later `set` overrides what was set before.
    assert_eq!(one.set(BlockAtlas::Sand), BlockTextureConfig::new().set(BlockAtlas::Sand));
}

#[test]
fn texture_config_animate_shows_the_first_frame() {
    let config = BlockTextureConfig::new().top(BlockAtlas::Glass).animate(BlockAtlas::Water0, BlockAtlas::Lava0);
    assert_eq!(faces(&config), [Some(BlockAtlas::Water0); 6]);
}

#[test]
fn catalog_textures() {
    assert_eq!(CatalogBlock::Air.atlas_position(), None);
    assert_eq!(CatalogBlock::default(), CatalogBlock::Air);
    let stone = CatalogBlock::Stone.atlas_position().unwrap();
    assert_eq!(faces(&stone), [Some(BlockAtlas::Stone); 6]);
    let grass = CatalogBlock::Grass.atlas_position().unwrap();
    let dirt = Some(BlockAtlas::Dirt);
    assert_eq!(faces(&grass), [dirt, dirt, Some(BlockAtlas::Grass), dirt, dirt, dirt]);
    let log = CatalogBlock::Log { variant: Wood::Birch }.atlas_position().unwrap();
    let side = Some(BlockAtlas::BirchLogSide);
    let inner = Some(BlockAtlas::BirchLogInner);
    assert_eq!(faces(&log), [side, side, inner, inner, side, side]);
    let tnt = CatalogBlock::Dynomite.atlas_position().unwrap();
    let side = Some(BlockAtlas::TNTSide);
    assert_eq!(faces(&tnt), [side, side, Some(BlockAtlas::TNTTop), Some(BlockAtlas::TNTBottom), side, side]);
    let shelf = CatalogBlock::Bookshelf.atlas_position().unwrap();
    let side = Some(BlockAtlas::Bookshelf);
    let planks = Some(BlockAtlas::OakPlanks);
    assert_eq!(faces(&shelf), [side, side, planks, planks, side, side]);
    let slab = CatalogBlock::DoubleSlab.atlas_position().unwrap();
    let side = Some(BlockAtlas::SlabStone);
    let smooth = Some(BlockAtlas::SmoothStone);
    assert_eq!(faces(&slab), [side, side, smooth, smooth, side, side]);
    for (block, atlas) in [
        (CatalogBlock::Water, BlockAtlas::Water0),
        (CatalogBlock::Lava, BlockAtlas::Lava0),
        (CatalogBlock::Cobblestone { variant: Cobblestone::Normal }, BlockAtlas::Cobblestone),
        (CatalogBlock::Cobblestone { variant: Cobblestone::Mossy }, BlockAtlas::MossyCobblestone),
        (CatalogBlock::Planks { variant: Wood::Oak }, BlockAtlas::OakPlanks),
        (CatalogBlock::Leaves { variant: Wood::Birch }, BlockAtlas::BirchLeaves),
        (CatalogBlock::Coal, BlockAtlas::CoalBlock),
        (CatalogBlock::Diamond, BlockAtlas::DiamondBlock),
        (CatalogBlock::Sponge { variant: Sponge::Wet }, BlockAtlas::SpongeWet),
        (CatalogBlock::Wool { variant: Wool::White }, BlockAtlas::WoolWhite),
        (CatalogBlock::Wool { variant: Wool::Pink }, BlockAtlas::WoolPink),
        (CatalogBlock::Wool { variant: Wool::LightBlue }, BlockAtlas::WoolLightBlue),
        (CatalogBlock::Slab, BlockAtlas::SlabStone),
        (CatalogBlock::Bricks, BlockAtlas::Brick),
        (CatalogBlock::Sapling { variant: Wood::Oak }, BlockAtlas::SaplingOak),
        (CatalogBlock::Flower { variant: Flower::Dandelion }, BlockAtlas::FlowerDandelion),
        (CatalogBlock::Mushroom { variant: Mushroom::Red }, BlockAtlas::MushroomRed),
    ] {
        assert_eq!(faces(&block.atlas_position().unwrap()), [Some(atlas); 6]);
    }
    assert_eq!(Wool::default(), Wool::White);
}

#[test]
fn catalog_opacity_and_names() {
    for block in [
        CatalogBlock::Air,
        CatalogBlock::Water,
        CatalogBlock::Lava,
        CatalogBlock::Glass,
        CatalogBlock::Slab,
        CatalogBlock::Sapling { variant: Wood::Birch },
        CatalogBlock::Flower { variant: Flower::Rose },
        CatalogBlock::Mushroom { variant: Mushroom::Brown },
    ] {
        assert!(!block.opaque());
    }
    for block in [
        CatalogBlock::Stone,
        CatalogBlock::DoubleSlab,
        CatalogBlock::Leaves { variant: Wood::Oak },
        CatalogBlock::Sponge { variant: Sponge::Dry },
        CatalogBlock::Wool { variant: Wool::Red },
        CatalogBlock::Obsidian,
    ] {
        assert!(block.opaque());
    }
    assert_eq!(CatalogBlock::Air.name(), "Air");
    assert_eq!(CatalogBlock::GoldOre.name(), "Gold Ore");
    assert_eq!(CatalogBlock::Dynomite.name(), "Dynamite");
    assert_eq!(CatalogBlock::SmoothStone.name(), "Smooth Stone");
    assert_eq!(CatalogBlock::Log { variant: Wood::Oak }.name(), "Log");
    assert_eq!(CatalogBlock::Wool { variant: Wool::Cyan }.name(), "Wool");
}
