//! The large catalog of block kinds.

use vstd::prelude::*;
use crate::block::atlas::{BlockAtlas, BlockTextureConfig};
use crate::block::cobblestone::Cobblestone;
use crate::block::flower::Flower;
use crate::block::mushroom::Mushroom;
use crate::block::sponge::Sponge;
use crate::block::utils::BlockFaceCodes;
use crate::block::wood::Wood;
use crate::block::wool::Wool;

verus! {

/// The kinds of block of the large catalog, whose textures lie in the large
/// atlas. Some kinds come in variants.
///
/// `Air` is the absence of a block: it is the default and it is never drawn.
#[derive(Copy, Clone, Debug, PartialEq, Eq, Structural)]
#[allow(inconsistent_fields)]
pub enum Block {
    Air,
    Stone,
    Cobblestone { variant: Cobblestone },
    Dirt,
    Grass,
    Bedrock,
    Log { variant: Wood },
    Planks { variant: Wood },
    Leaves { variant: Wood },
    Water,
    Lava,
    Sand,
    Gravel,
    CoalOre,
    IronOre,
    GoldOre,
    DiamondOre,
    Coal,
    Iron,
    Gold,
    Diamond,
    Sponge { variant: Sponge },
    Glass,
    Wool { variant: Wool },
    SmoothStone,
    DoubleSlab,
    Slab,
    Bricks,
    Dynomite,
    Bookshelf,
    Obsidian,
    Sapling { variant: Wood },
    Flower { variant: Flower },
    Mushroom { variant: Mushroom },
}

impl Default for Block {
    fn default() -> (r: Self)
        ensures
            r == Block::Air,
    {
        Block::Air
    }
}

/// The texture of a wool block of the given colour.
pub open spec fn wool_texture(variant: Wool) -> BlockAtlas {
    match variant {
        Wool::White => BlockAtlas::WoolWhite,
        Wool::LightGray => BlockAtlas::WoolLightGray,
        Wool::Gray => BlockAtlas::WoolGray,
        Wool::Black => BlockAtlas::WoolBlack,
        Wool::Brown => BlockAtlas::WoolBrown,
        Wool::Red => BlockAtlas::WoolRed,
        Wool::Orange => BlockAtlas::WoolOrange,
        Wool::Yellow => BlockAtlas::WoolYellow,
        Wool::Lime => BlockAtlas::WoolLime,
        Wool::Green => BlockAtlas::WoolGreen,
        Wool::Cyan => BlockAtlas::WoolCyan,
        Wool::LightBlue => BlockAtlas::WoolLightBlue,
        Wool::Blue => BlockAtlas::WoolBlue,
        Wool::Purple => BlockAtlas::WoolPurple,
        Wool::Magenta => BlockAtlas::WoolMagenta,
        Wool::Pink => BlockAtlas::WoolPink,
    }
}

impl Block {
    /// Whether light passes through the kind: air, the liquids, glass, the
    /// plants and the half-high slab.
    pub open spec fn is_see_through(self) -> bool {
        self is Air || self is Water || self is Lava || self is Glass || self is Sapling
            || self is Flower || self is Mushroom || self is Slab
    }

    /// The texture of the four sides of the kind; `Air` has none.
    pub open spec fn side_texture(self) -> Option<BlockAtlas> {
        match self {
            Self::Air => None,
            Self::Stone => Some(BlockAtlas::Stone),
            Self::Cobblestone { variant: Cobblestone::Normal } => Some(BlockAtlas::Cobblestone),
            Self::Cobblestone { variant: Cobblestone::Mossy } => Some(
                BlockAtlas::MossyCobblestone,
            ),
            Self::Dirt => Some(BlockAtlas::Dirt),
            Self::Grass => Some(BlockAtlas::Dirt),
            Self::Bedrock => Some(BlockAtlas::Bedrock),
            Self::Log { variant: Wood::Oak } => Some(BlockAtlas::OakLogSide),
            Self::Log { variant: Wood::Birch } => Some(BlockAtlas::BirchLogSide),
            Self::Planks { variant: Wood::Oak } => Some(BlockAtlas::OakPlanks),
            Self::Planks { variant: Wood::Birch } => Some(BlockAtlas::BirchPlanks),
            Self::Leaves { variant: Wood::Oak } => Some(BlockAtlas::OakLeaves),
            Self::Leaves { variant: Wood::Birch } => Some(BlockAtlas::BirchLeaves),
            Self::Water => Some(BlockAtlas::Water0),
            Self::Lava => Some(BlockAtlas::Lava0),
            Self::Sand => Some(BlockAtlas::Sand),
            Self::Gravel => Some(BlockAtlas::Gravel),
            Self::CoalOre => Some(BlockAtlas::CoalOre),
            Self::IronOre => Some(BlockAtlas::IronOre),
            Self::GoldOre => Some(BlockAtlas::GoldOre),
            Self::DiamondOre => Some(BlockAtlas::DiamondOre),
            Self::Coal => Some(BlockAtlas::CoalBlock),
            Self::Iron => Some(BlockAtlas::IronBlock),
            Self::Gold => Some(BlockAtlas::GoldBlock),
            Self::Diamond => Some(BlockAtlas::DiamondBlock),
            Self::Sponge { variant: Sponge::Dry } => Some(BlockAtlas::SpongeDry),
            Self::Sponge { variant: Sponge::Wet } => Some(BlockAtlas::SpongeWet),
            Self::Glass => Some(BlockAtlas::Glass),
            Self::Wool { variant } => Some(wool_texture(variant)),
            Self::SmoothStone => Some(BlockAtlas::SmoothStone),
            Self::DoubleSlab => Some(BlockAtlas::SlabStone),
            Self::Slab => Some(BlockAtlas::SlabStone),
            Self::Bricks => Some(BlockAtlas::Brick),
            Self::Dynomite => Some(BlockAtlas::TNTSide),
            Self::Bookshelf => Some(BlockAtlas::Bookshelf),
            Self::Obsidian => Some(BlockAtlas::Obsidian),
            Self::Sapling { variant: Wood::Oak } => Some(BlockAtlas::SaplingOak),
            Self::Sapling { variant: Wood::Birch } => Some(BlockAtlas::SaplingBirch),
            Self::Flower { variant: Flower::Rose } => Some(BlockAtlas::FlowerRose),
            Self::Flower { variant: Flower::Dandelion } => Some(BlockAtlas::FlowerDandelion),
            Self::Mushroom { variant: Mushroom::Brown } => Some(BlockAtlas::MushroomBrown),
            Self::Mushroom { variant: Mushroom::Red } => Some(BlockAtlas::MushroomRed),
        }
    }

    /// The texture of the top of the kind, where it is not that of the
    /// sides.
    pub open spec fn top_override(self) -> Option<BlockAtlas> {
        match self {
            Self::Grass => Some(BlockAtlas::Grass),
            Self::Log { variant: Wood::Oak } => Some(BlockAtlas::OakLogInner),
            Self::Log { variant: Wood::Birch } => Some(BlockAtlas::BirchLogInner),
            Self::DoubleSlab => Some(BlockAtlas::SmoothStone),
            Self::Dynomite => Some(BlockAtlas::TNTTop),
            Self::Bookshelf => Some(BlockAtlas::OakPlanks),
            _ => None,
        }
    }

    /// The texture of the bottom of the kind, where it is not that of the
    /// sides.
    pub open spec fn bottom_override(self) -> Option<BlockAtlas> {
        match self {
            Self::Log { variant: Wood::Oak } => Some(BlockAtlas::OakLogInner),
            Self::Log { variant: Wood::Birch } => Some(BlockAtlas::BirchLogInner),
            Self::DoubleSlab => Some(BlockAtlas::SmoothStone),
            Self::Dynomite => Some(BlockAtlas::TNTBottom),
            Self::Bookshelf => Some(BlockAtlas::OakPlanks),
            _ => None,
        }
    }

    /// The texture of one face of the kind: the override of the top or of
    /// the bottom where there is one, else the texture of the sides.
    pub open spec fn face_texture(self, face: BlockFaceCodes) -> Option<BlockAtlas> {
        if face == BlockFaceCodes::BlockFacePositiveY && self.top_override() is Some {
            self.top_override()
        } else if face == BlockFaceCodes::BlockFaceNegativeY && self.bottom_override() is Some {
            self.bottom_override()
        } else {
            self.side_texture()
        }
    }

    /// Returns whether the kind blocks light.
    pub fn opaque(&self) -> (r: bool)
        ensures
            r == !self.is_see_through(),
    {
        match self {
            Self::Air => false,
            Self::Water => false,
            Self::Lava => false,
            Self::Glass => false,
            Self::Sapling { .. } => false,
            Self::Flower { .. } => false,
            Self::Mushroom { .. } => false,
            Self::Slab => false,
            _ => true,
        }
    }

    /// Returns the textures of the six faces of the kind; `Air` has none.
    pub fn atlas_position(&self) -> (r: Option<BlockTextureConfig>)
        ensures
            r is None <==> *self == Self::Air,
            r matches Some(config) ==> forall|f: BlockFaceCodes| #[trigger]
                config.face(f) == self.face_texture(f),
    {
        match self {
            Self::Air => None,
            Self::Stone => Some(BlockTextureConfig::new().set(BlockAtlas::Stone)),
            Self::Cobblestone { variant } => match variant {
                Cobblestone::Normal => Some(BlockTextureConfig::new().set(BlockAtlas::Cobblestone)),
                Cobblestone::Mossy => Some(
                    BlockTextureConfig::new().set(BlockAtlas::MossyCobblestone),
                ),
            },
            Self::Dirt => Some(BlockTextureConfig::new().set(BlockAtlas::Dirt)),
            Self::Grass => Some(
                BlockTextureConfig::new().set(BlockAtlas::Dirt).top(BlockAtlas::Grass),
            ),
            Self::Water => Some(
                BlockTextureConfig::new().animate(BlockAtlas::Water0, BlockAtlas::Water0),
            ),
            Self::Lava => Some(
                BlockTextureConfig::new().animate(BlockAtlas::Lava0, BlockAtlas::Lava0),
            ),
            Self::Bedrock => Some(BlockTextureConfig::new().set(BlockAtlas::Bedrock)),
            Self::Log { variant } => match variant {
                Wood::Oak => Some(
                    BlockTextureConfig::new().set(BlockAtlas::OakLogSide).top(
                        BlockAtlas::OakLogInner,
                    ).bottom(BlockAtlas::OakLogInner),
                ),
                Wood::Birch => Some(
                    BlockTextureConfig::new().set(BlockAtlas::BirchLogSide).top(
                        BlockAtlas::BirchLogInner,
                    ).bottom(BlockAtlas::BirchLogInner),
                ),
            },
            Self::Planks { variant } => match variant {
                Wood::Oak => Some(BlockTextureConfig::new().set(BlockAtlas::OakPlanks)),
                Wood::Birch => Some(BlockTextureConfig::new().set(BlockAtlas::BirchPlanks)),
            },
            Self::Leaves { variant } => match variant {
                Wood::Oak => Some(BlockTextureConfig::new().set(BlockAtlas::OakLeaves)),
                Wood::Birch => Some(BlockTextureConfig::new().set(BlockAtlas::BirchLeaves)),
            },
            Self::Sand => Some(BlockTextureConfig::new().set(BlockAtlas::Sand)),
            Self::Gravel => Some(BlockTextureConfig::new().set(BlockAtlas::Gravel)),
            Self::CoalOre => Some(BlockTextureConfig::new().set(BlockAtlas::CoalOre)),
            Self::IronOre => Some(BlockTextureConfig::new().set(BlockAtlas::IronOre)),
            Self::GoldOre => Some(BlockTextureConfig::new().set(BlockAtlas::GoldOre)),
            Self::DiamondOre => Some(BlockTextureConfig::new().set(BlockAtlas::DiamondOre)),
            Self::Coal => Some(BlockTextureConfig::new().set(BlockAtlas::CoalBlock)),
            Self::Iron => Some(BlockTextureConfig::new().set(BlockAtlas::IronBlock)),
            Self::Gold => Some(BlockTextureConfig::new().set(BlockAtlas::GoldBlock)),
            Self::Diamond => Some(BlockTextureConfig::new().set(BlockAtlas::DiamondBlock)),
            Self::Sponge { variant } => match variant {
                Sponge::Dry => Some(BlockTextureConfig::new().set(BlockAtlas::SpongeDry)),
                Sponge::Wet => Some(BlockTextureConfig::new().set(BlockAtlas::SpongeWet)),
            },
            Self::Glass => Some(BlockTextureConfig::new().set(BlockAtlas::Glass)),
            Self::Wool { variant } => match variant {
                Wool::White => Some(BlockTextureConfig::new().set(BlockAtlas::WoolWhite)),
                Wool::LightGray => Some(BlockTextureConfig::new().set(BlockAtlas::WoolLightGray)),
                Wool::Gray => Some(BlockTextureConfig::new().set(BlockAtlas::WoolGray)),
                Wool::Black => Some(BlockTextureConfig::new().set(BlockAtlas::WoolBlack)),
                Wool::Brown => Some(BlockTextureConfig::new().set(BlockAtlas::WoolBrown)),
                Wool::Red => Some(BlockTextureConfig::new().set(BlockAtlas::WoolRed)),
                Wool::Orange => Some(BlockTextureConfig::new().set(BlockAtlas::WoolOrange)),
                Wool::Yellow => Some(BlockTextureConfig::new().set(BlockAtlas::WoolYellow)),
                Wool::Lime => Some(BlockTextureConfig::new().set(BlockAtlas::WoolLime)),
                Wool::Green => Some(BlockTextureConfig::new().set(BlockAtlas::WoolGreen)),
                Wool::Cyan => Some(BlockTextureConfig::new().set(BlockAtlas::WoolCyan)),
                Wool::LightBlue => Some(BlockTextureConfig::new().set(BlockAtlas::WoolLightBlue)),
                Wool::Blue => Some(BlockTextureConfig::new().set(BlockAtlas::WoolBlue)),
                Wool::Purple => Some(BlockTextureConfig::new().set(BlockAtlas::WoolPurple)),
                Wool::Magenta => Some(BlockTextureConfig::new().set(BlockAtlas::WoolMagenta)),
                Wool::Pink => Some(BlockTextureConfig::new().set(BlockAtlas::WoolPink)),
            },
            Self::SmoothStone => Some(BlockTextureConfig::new().set(BlockAtlas::SmoothStone)),
            Self::DoubleSlab => Some(
                BlockTextureConfig::new().set(BlockAtlas::SlabStone).top(
                    BlockAtlas::SmoothStone,
                ).bottom(BlockAtlas::SmoothStone),
            ),
            Self::Slab => Some(BlockTextureConfig::new().set(BlockAtlas::SlabStone)),
            Self::Bricks => Some(BlockTextureConfig::new().set(BlockAtlas::Brick)),
            Self::Dynomite => Some(
                BlockTextureConfig::new().set(BlockAtlas::TNTSide).top(BlockAtlas::TNTTop).bottom(
                    BlockAtlas::TNTBottom,
                ),
            ),
            Self::Bookshelf => Some(
                BlockTextureConfig::new().set(BlockAtlas::Bookshelf).top(
                    BlockAtlas::OakPlanks,
                ).bottom(BlockAtlas::OakPlanks),
            ),
            Self::Obsidian => Some(BlockTextureConfig::new().set(BlockAtlas::Obsidian)),
            Self::Sapling { variant } => match variant {
                Wood::Oak => Some(BlockTextureConfig::new().set(BlockAtlas::SaplingOak)),
                Wood::Birch => Some(BlockTextureConfig::new().set(BlockAtlas::SaplingBirch)),
            },
            Self::Flower { variant } => match variant {
                Flower::Rose => Some(BlockTextureConfig::new().set(BlockAtlas::FlowerRose)),
                Flower::Dandelion => Some(
                    BlockTextureConfig::new().set(BlockAtlas::FlowerDandelion),
                ),
            },
            Self::Mushroom { variant } => match variant {
                Mushroom::Brown => Some(BlockTextureConfig::new().set(BlockAtlas::MushroomBrown)),
                Mushroom::Red => Some(BlockTextureConfig::new().set(BlockAtlas::MushroomRed)),
            },
        }
    }

    /// Returns the name of the kind, as it is shown to a player. The
    /// variants of a kind share its name.
    pub fn name(&self) -> (r: &'static str)
        ensures
            r@ == self.display_name(),
    {
        match self {
            Self::Air => "Air",
            Self::Stone => "Stone",
            Self::Cobblestone { .. } => "Cobblestone",
            Self::Dirt => "Dirt",
            Self::Grass => "Grass",
            Self::Bedrock => "Bedrock",
            Self::Log { .. } => "Log",
            Self::Planks { .. } => "Planks",
            Self::Leaves { .. } => "Leaves",
            Self::Water => "Water",
            Self::Lava => "Lava",
            Self::Sand => "Sand",
            Self::Gravel => "Gravel",
            Self::CoalOre => "Coal Ore",
            Self::IronOre => "Iron Ore",
            Self::GoldOre => "Gold Ore",
            Self::DiamondOre => "Diamond Ore",
            Self::Coal => "Coal",
            Self::Iron => "Iron",
            Self::Gold => "Gold",
            Self::Diamond => "Diamond",
            Self::Sponge { .. } => "Sponge",
            Self::Glass => "Glass",
            Self::Wool { .. } => "Wool",
            Self::SmoothStone => "Smooth Stone",
            Self::DoubleSlab => "Double Slab",
            Self::Slab => "Slab",
            Self::Bricks => "Bricks",
            Self::Dynomite => "Dynamite",
            Self::Bookshelf => "Bookshelf",
            Self::Obsidian => "Obsidian",
            Self::Sapling { .. } => "Sapling",
            Self::Flower { .. } => "Flower",
            Self::Mushroom { .. } => "Mushroom",
        }
    }

    /// The name of the kind, as it is shown to a player.
    pub open spec fn display_name(self) -> Seq<char> {
        match self {
            Self::Air => "Air"@,
            Self::Stone => "Stone"@,
            Self::Cobblestone { .. } => "Cobblestone"@,
            Self::Dirt => "Dirt"@,
            Self::Grass => "Grass"@,
            Self::Bedrock => "Bedrock"@,
            Self::Log { .. } => "Log"@,
            Self::Planks { .. } => "Planks"@,
            Self::Leaves { .. } => "Leaves"@,
            Self::Water => "Water"@,
            Self::Lava => "Lava"@,
            Self::Sand => "Sand"@,
            Self::Gravel => "Gravel"@,
            Self::CoalOre => "Coal Ore"@,
            Self::IronOre => "Iron Ore"@,
            Self::GoldOre => "Gold Ore"@,
            Self::DiamondOre => "Diamond Ore"@,
            Self::Coal => "Coal"@,
            Self::Iron => "Iron"@,
            Self::Gold => "Gold"@,
            Self::Diamond => "Diamond"@,
            Self::Sponge { .. } => "Sponge"@,
            Self::Glass => "Glass"@,
            Self::Wool { .. } => "Wool"@,
            Self::SmoothStone => "Smooth Stone"@,
            Self::DoubleSlab => "Double Slab"@,
            Self::Slab => "Slab"@,
            Self::Bricks => "Bricks"@,
            Self::Dynomite => "Dynamite"@,
            Self::Bookshelf => "Bookshelf"@,
            Self::Obsidian => "Obsidian"@,
            Self::Sapling { .. } => "Sapling"@,
            Self::Flower { .. } => "Flower"@,
            Self::Mushroom { .. } => "Mushroom"@,
        }
    }

    /// Only `Air` is without textures, every other kind has one for each of
    /// its six faces, and only the top and the bottom may differ from the
    /// four sides.
    pub proof fn lemma_textures(self, face: BlockFaceCodes)
        ensures
            self.face_texture(face) is None <==> self == Self::Air,
            face != BlockFaceCodes::BlockFacePositiveY && face
                != BlockFaceCodes::BlockFaceNegativeY ==> self.face_texture(face)
                == self.side_texture(),
    {
    }
}

} // verus!
