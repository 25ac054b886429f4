//! The large texture atlas and the textures of the faces of a block.

use vstd::prelude::*;
use crate::block::utils::BlockFaceCodes;

verus! {

/// The textures of the large atlas, one variant per tile.
#[derive(Copy, Clone, Debug, PartialEq, Eq, Structural)]
pub enum BlockAtlas {
    Stone,
    Cobblestone,
    Dirt,
    Grass,
    Bedrock,
    OakLogSide,
    OakLogInner,
    BirchLogSide,
    BirchLogInner,
    OakPlanks,
    BirchPlanks,
    OakLeaves,
    BirchLeaves,
    Water0,
    Lava0,
    Sand,
    Gravel,
    CoalOre,
    IronOre,
    GoldOre,
    DiamondOre,
    CoalBlock,
    IronBlock,
    GoldBlock,
    DiamondBlock,
    SpongeDry,
    SpongeWet,
    Glass,
    WoolWhite,
    WoolLightGray,
    WoolGray,
    WoolBlack,
    WoolBrown,
    WoolRed,
    WoolOrange,
    WoolYellow,
    WoolLime,
    WoolGreen,
    WoolCyan,
    WoolLightBlue,
    WoolBlue,
    WoolPurple,
    WoolMagenta,
    WoolPink,
    SmoothStone,
    SlabStone,
    Brick,
    TNTSide,
    TNTTop,
    TNTBottom,
    Bookshelf,
    Obsidian,
    MossyCobblestone,
    SaplingOak,
    SaplingBirch,
    FlowerRose,
    FlowerDandelion,
    MushroomBrown,
    MushroomRed,
}

/// Number of tiles along each side of the large atlas.
pub const ATLAS_SIZE: u8 = 8;

impl BlockAtlas {
    /// The tile of the texture, as row and column in the atlas.
    ///
    /// The textures fill the atlas row by row from its second tile on; the
    /// plants start a row of their own, the last one.
    pub open spec fn tile(self) -> (u8, u8) {
        match self {
            Self::Stone => (0, 1),
            Self::Cobblestone => (0, 2),
            Self::Dirt => (0, 3),
            Self::Grass => (0, 4),
            Self::Bedrock => (0, 5),
            Self::OakLogSide => (0, 6),
            Self::OakLogInner => (0, 7),
            Self::BirchLogSide => (1, 0),
            Self::BirchLogInner => (1, 1),
            Self::OakPlanks => (1, 2),
            Self::BirchPlanks => (1, 3),
            Self::OakLeaves => (1, 4),
            Self::BirchLeaves => (1, 5),
            Self::Water0 => (1, 6),
            Self::Lava0 => (1, 7),
            Self::Sand => (2, 0),
            Self::Gravel => (2, 1),
            Self::CoalOre => (2, 2),
            Self::IronOre => (2, 3),
            Self::GoldOre => (2, 4),
            Self::DiamondOre => (2, 5),
            Self::CoalBlock => (2, 6),
            Self::IronBlock => (2, 7),
            Self::GoldBlock => (3, 0),
            Self::DiamondBlock => (3, 1),
            Self::SpongeDry => (3, 2),
            Self::SpongeWet => (3, 3),
            Self::Glass => (3, 4),
            Self::WoolWhite => (3, 5),
            Self::WoolLightGray => (3, 6),
            Self::WoolGray => (3, 7),
            Self::WoolBlack => (4, 0),
            Self::WoolBrown => (4, 1),
            Self::WoolRed => (4, 2),
            Self::WoolOrange => (4, 3),
            Self::WoolYellow => (4, 4),
            Self::WoolLime => (4, 5),
            Self::WoolGreen => (4, 6),
            Self::WoolCyan => (4, 7),
            Self::WoolLightBlue => (5, 0),
            Self::WoolBlue => (5, 1),
            Self::WoolPurple => (5, 2),
            Self::WoolMagenta => (5, 3),
            Self::WoolPink => (5, 4),
            Self::SmoothStone => (5, 5),
            Self::SlabStone => (5, 6),
            Self::Brick => (5, 7),
            Self::TNTSide => (6, 0),
            Self::TNTTop => (6, 1),
            Self::TNTBottom => (6, 2),
            Self::Bookshelf => (6, 3),
            Self::Obsidian => (6, 4),
            Self::MossyCobblestone => (6, 5),
            Self::SaplingOak => (7, 0),
            Self::SaplingBirch => (7, 1),
            Self::FlowerRose => (7, 2),
            Self::FlowerDandelion => (7, 3),
            Self::MushroomBrown => (7, 4),
            Self::MushroomRed => (7, 5),
        }
    }

    /// Returns the tile of the texture, as row and column in the atlas.
    pub fn index(&self) -> (r: (u8, u8))
        ensures
            r == self.tile(),
            r.0 < ATLAS_SIZE,
            r.1 < ATLAS_SIZE,
    {
        match self {
            Self::Stone => (0, 1),
            Self::Cobblestone => (0, 2),
            Self::Dirt => (0, 3),
            Self::Grass => (0, 4),
            Self::Bedrock => (0, 5),
            Self::OakLogSide => (0, 6),
            Self::OakLogInner => (0, 7),
            Self::BirchLogSide => (1, 0),
            Self::BirchLogInner => (1, 1),
            Self::OakPlanks => (1, 2),
            Self::BirchPlanks => (1, 3),
            Self::OakLeaves => (1, 4),
            Self::BirchLeaves => (1, 5),
            Self::Water0 => (1, 6),
            Self::Lava0 => (1, 7),
            Self::Sand => (2, 0),
            Self::Gravel => (2, 1),
            Self::CoalOre => (2, 2),
            Self::IronOre => (2, 3),
            Self::GoldOre => (2, 4),
            Self::DiamondOre => (2, 5),
            Self::CoalBlock => (2, 6),
            Self::IronBlock => (2, 7),
            Self::GoldBlock => (3, 0),
            Self::DiamondBlock => (3, 1),
            Self::SpongeDry => (3, 2),
            Self::SpongeWet => (3, 3),
            Self::Glass => (3, 4),
            Self::WoolWhite => (3, 5),
            Self::WoolLightGray => (3, 6),
            Self::WoolGray => (3, 7),
            Self::WoolBlack => (4, 0),
            Self::WoolBrown => (4, 1),
            Self::WoolRed => (4, 2),
            Self::WoolOrange => (4, 3),
            Self::WoolYellow => (4, 4),
            Self::WoolLime => (4, 5),
            Self::WoolGreen => (4, 6),
            Self::WoolCyan => (4, 7),
            Self::WoolLightBlue => (5, 0),
            Self::WoolBlue => (5, 1),
            Self::WoolPurple => (5, 2),
            Self::WoolMagenta => (5, 3),
            Self::WoolPink => (5, 4),
            Self::SmoothStone => (5, 5),
            Self::SlabStone => (5, 6),
            Self::Brick => (5, 7),
            Self::TNTSide => (6, 0),
            Self::TNTTop => (6, 1),
            Self::TNTBottom => (6, 2),
            Self::Bookshelf => (6, 3),
            Self::Obsidian => (6, 4),
            Self::MossyCobblestone => (6, 5),
            Self::SaplingOak => (7, 0),
            Self::SaplingBirch => (7, 1),
            Self::FlowerRose => (7, 2),
            Self::FlowerDandelion => (7, 3),
            Self::MushroomBrown => (7, 4),
            Self::MushroomRed => (7, 5),
        }
    }

    /// Every texture has a tile inside the atlas, none has the first tile,
    /// and no two textures share a tile.
    pub proof fn lemma_tiles_distinct(self, other: Self)
        ensures
            self.tile().0 < ATLAS_SIZE,
            self.tile().1 < ATLAS_SIZE,
            self.tile() != (0u8, 0u8),
            self.tile() == other.tile() ==> self == other,
    {
    }
}

/// The textures of the six faces of a block.
///
/// A face has no texture until one is set. `set` gives all six faces one
/// texture; the setter of a single face then overrides it for that face.
#[derive(Copy, Clone, Debug, PartialEq, Eq, Structural)]
pub struct BlockTextureConfig {
    right: Option<BlockAtlas>,
    left: Option<BlockAtlas>,
    top: Option<BlockAtlas>,
    bottom: Option<BlockAtlas>,
    front: Option<BlockAtlas>,
    back: Option<BlockAtlas>,
}

impl BlockTextureConfig {
    /// The texture of the given face, if one was set. Right and left are
    /// the faces towards positive and negative x, top and bottom those
    /// towards positive and negative y, front and back those towards
    /// positive and negative z.
    pub closed spec fn face(self, face: BlockFaceCodes) -> Option<BlockAtlas> {
        match face {
            BlockFaceCodes::BlockFacePositiveX => self.right,
            BlockFaceCodes::BlockFaceNegativeX => self.left,
            BlockFaceCodes::BlockFacePositiveY => self.top,
            BlockFaceCodes::BlockFaceNegativeY => self.bottom,
            BlockFaceCodes::BlockFacePositiveZ => self.front,
            BlockFaceCodes::BlockFaceNegativeZ => self.back,
        }
    }

    /// The configuration that differs from `self` in one face only, which
    /// has the texture `atlas`.
    pub open spec fn with_face(self, face: BlockFaceCodes, atlas: BlockAtlas) -> spec_fn(
        BlockFaceCodes,
    ) -> Option<BlockAtlas> {
        |f: BlockFaceCodes|
            if f == face {
                Some(atlas)
            } else {
                self.face(f)
            }
    }

    /// `self` gives every face the texture that `faces` gives it.
    pub open spec fn agrees(self, faces: spec_fn(BlockFaceCodes) -> Option<BlockAtlas>) -> bool {
        forall|f: BlockFaceCodes| #[trigger] self.face(f) == faces(f)
    }

    /// Returns the configuration in which no face has a texture.
    pub fn new() -> (r: Self)
        ensures
            forall|f: BlockFaceCodes| #[trigger] r.face(f) is None,
    {
        Self { right: None, left: None, top: None, bottom: None, front: None, back: None }
    }

    /// Gives all six faces the texture `atlas`.
    pub fn set(self, atlas: BlockAtlas) -> (r: Self)
        ensures
            forall|f: BlockFaceCodes| #[trigger] r.face(f) == Some(atlas),
    {
        self.right(atlas).left(atlas).top(atlas).bottom(atlas).front(atlas).back(atlas)
    }

    /// Gives the face towards positive x the texture `atlas`.
    pub fn right(self, atlas: BlockAtlas) -> (r: Self)
        ensures
            r.agrees(self.with_face(BlockFaceCodes::BlockFacePositiveX, atlas)),
    {
        let mut r = self;
        r.right = Some(atlas);
        r
    }

    /// Gives the face towards negative x the texture `atlas`.
    pub fn left(self, atlas: BlockAtlas) -> (r: Self)
        ensures
            r.agrees(self.with_face(BlockFaceCodes::BlockFaceNegativeX, atlas)),
    {
        let mut r = self;
        r.left = Some(atlas);
        r
    }

    /// Gives the face towards positive y the texture `atlas`.
    pub fn top(self, atlas: BlockAtlas) -> (r: Self)
        ensures
            r.agrees(self.with_face(BlockFaceCodes::BlockFacePositiveY, atlas)),
    {
        let mut r = self;
        r.top = Some(atlas);
        r
    }

    /// Gives the face towards negative y the texture `atlas`.
    pub fn bottom(self, atlas: BlockAtlas) -> (r: Self)
        ensures
            r.agrees(self.with_face(BlockFaceCodes::BlockFaceNegativeY, atlas)),
    {
        let mut r = self;
        r.bottom = Some(atlas);
        r
    }

    /// Gives the face towards positive z the texture `atlas`.
    pub fn front(self, atlas: BlockAtlas) -> (r: Self)
        ensures
            r.agrees(self.with_face(BlockFaceCodes::BlockFacePositiveZ, atlas)),
    {
        let mut r = self;
        r.front = Some(atlas);
        r
    }

    /// Gives the face towards negative z the texture `atlas`.
    pub fn back(self, atlas: BlockAtlas) -> (r: Self)
        ensures
            r.agrees(self.with_face(BlockFaceCodes::BlockFaceNegativeZ, atlas)),
    {
        let mut r = self;
        r.back = Some(atlas);
        r
    }

    /// Gives all six faces the first frame, `from`, of an animated texture.
    /// The last frame, `to`, is not shown yet.
    pub fn animate(self, from: BlockAtlas, to: BlockAtlas) -> (r: Self)
        ensures
            forall|f: BlockFaceCodes| #[trigger] r.face(f) == Some(from),
    {
        self.set(from)
    }

    /// Returns the texture of the given face, if one was set.
    pub fn get(&self, face: BlockFaceCodes) -> (r: Option<BlockAtlas>)
        ensures
            r == self.face(face),
    {
        match face {
            BlockFaceCodes::BlockFacePositiveX => self.right,
            BlockFaceCodes::BlockFaceNegativeX => self.left,
            BlockFaceCodes::BlockFacePositiveY => self.top,
            BlockFaceCodes::BlockFaceNegativeY => self.bottom,
            BlockFaceCodes::BlockFacePositiveZ => self.front,
            BlockFaceCodes::BlockFaceNegativeZ => self.back,
        }
    }

    /// Two configurations that give every face the same texture are the
    /// same configuration.
    pub proof fn lemma_faces_determine(self, other: Self)
        requires
            forall|f: BlockFaceCodes| #[trigger] self.face(f) == other.face(f),
        ensures
            self == other,
    {
        assert(self.face(BlockFaceCodes::BlockFacePositiveX) == other.face(
            BlockFaceCodes::BlockFacePositiveX,
        ));
        assert(self.face(BlockFaceCodes::BlockFaceNegativeX) == other.face(
            BlockFaceCodes::BlockFaceNegativeX,
        ));
        assert(self.face(BlockFaceCodes::BlockFacePositiveY) == other.face(
            BlockFaceCodes::BlockFacePositiveY,
        ));
        assert(self.face(BlockFaceCodes::BlockFaceNegativeY) == other.face(
            BlockFaceCodes::BlockFaceNegativeY,
        ));
        assert(self.face(BlockFaceCodes::BlockFacePositiveZ) == other.face(
            BlockFaceCodes::BlockFacePositiveZ,
        ));
        assert(self.face(BlockFaceCodes::BlockFaceNegativeZ) == other.face(
            BlockFaceCodes::BlockFaceNegativeZ,
        ));
    }
}

} // verus!
