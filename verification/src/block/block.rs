//! The small catalog of block kinds.

use vstd::prelude::*;

verus! {

/// The kinds of block of the small catalog, whose textures lie in an atlas
/// of `ATLAS_SIZE` by `ATLAS_SIZE` tiles.
///
/// `Air` is the absence of a block: it is the default, it is transparent and
/// it is never drawn.
#[derive(Copy, Clone, Debug, PartialEq, Eq, Structural)]
pub enum Block {
    Air,
    Stone,
    Dirt,
    Grass,
    Cobblestone,
    Water,
    Sand,
    Bedrock,
}

/// Number of tiles along each side of the texture atlas of this catalog.
pub const ATLAS_SIZE: u32 = 4;

/// The tile, as column and row, that stands in for a kind without a texture
/// of its own.
pub const FALLBACK_TILE: (u32, u32) = (3, 3);

impl Default for Block {
    fn default() -> (r: Self)
        ensures
            r == Block::Air,
    {
        Block::Air
    }
}

impl Block {
    /// The code of the kind, `0` to `7`, in the order of the variants.
    pub open spec fn code(self) -> int {
        match self {
            Self::Air => 0,
            Self::Stone => 1,
            Self::Dirt => 2,
            Self::Grass => 3,
            Self::Cobblestone => 4,
            Self::Water => 5,
            Self::Sand => 6,
            Self::Bedrock => 7,
        }
    }

    /// Whether light passes through the kind, so that the faces of its
    /// neighbours that touch it are seen.
    pub open spec fn is_transparent(self) -> bool {
        self == Self::Air || self == Self::Water || self == Self::Sand
    }

    /// Whether the kind blocks light.
    pub open spec fn is_opaque(self) -> bool {
        !self.is_transparent()
    }

    /// The atlas tile of the kind, as column and row; `Air` has none.
    pub open spec fn tile(self) -> Option<(u32, u32)> {
        match self {
            Self::Air => None,
            Self::Stone => Some((0, 0)),
            Self::Dirt => Some((1, 0)),
            Self::Grass => Some((2, 0)),
            Self::Cobblestone => Some((3, 0)),
            Self::Water => Some((0, 1)),
            Self::Sand => Some((1, 1)),
            Self::Bedrock => Some((2, 1)),
        }
    }

    /// The tile from which the faces of the kind are textured: its own, or
    /// the fallback tile where it has none.
    pub open spec fn tile_or_fallback(self) -> (u32, u32) {
        match self.tile() {
            Some(t) => t,
            None => FALLBACK_TILE,
        }
    }

    /// Returns the kind with the given code. A code that names no kind is a
    /// programming error.
    pub fn from_u8(code: u8) -> (r: Self)
        requires
            code < 8,
        ensures
            r.code() == code,
    {
        match code {
            0 => Self::Air,
            1 => Self::Stone,
            2 => Self::Dirt,
            3 => Self::Grass,
            4 => Self::Cobblestone,
            5 => Self::Water,
            6 => Self::Sand,
            _ => Self::Bedrock,
        }
    }

    /// Returns the code of the kind.
    pub fn as_u8(&self) -> (r: u8)
        ensures
            r == self.code(),
    {
        match self {
            Self::Air => 0,
            Self::Stone => 1,
            Self::Dirt => 2,
            Self::Grass => 3,
            Self::Cobblestone => 4,
            Self::Water => 5,
            Self::Sand => 6,
            Self::Bedrock => 7,
        }
    }

    /// Returns whether the kind blocks light.
    pub fn opaque(&self) -> (r: bool)
        ensures
            r == self.is_opaque(),
    {
        match self {
            Self::Air => false,
            Self::Stone => true,
            Self::Dirt => true,
            Self::Grass => true,
            Self::Cobblestone => true,
            Self::Water => false,
            Self::Sand => false,
            Self::Bedrock => true,
        }
    }

    /// Returns whether light passes through the kind.
    pub fn transparent(&self) -> (r: bool)
        ensures
            r == self.is_transparent(),
    {
        match self {
            Self::Air => true,
            Self::Stone => false,
            Self::Dirt => false,
            Self::Grass => false,
            Self::Cobblestone => false,
            Self::Water => true,
            Self::Sand => true,
            Self::Bedrock => false,
        }
    }

    /// Returns the atlas tile of the kind, as column and row.
    pub fn atlas_position(&self) -> (r: Option<(u32, u32)>)
        ensures
            r == self.tile(),
    {
        match self {
            Self::Air => None,
            Self::Stone => Some((0, 0)),
            Self::Dirt => Some((1, 0)),
            Self::Grass => Some((2, 0)),
            Self::Cobblestone => Some((3, 0)),
            Self::Water => Some((0, 1)),
            Self::Sand => Some((1, 1)),
            Self::Bedrock => Some((2, 1)),
        }
    }

    /// Returns the name of the kind, as it is shown to a player.
    pub fn name(&self) -> (r: &'static str)
        ensures
            r@ == match *self {
                Self::Air => "Air"@,
                Self::Stone => "Stone"@,
                Self::Dirt => "Dirt"@,
                Self::Grass => "Grass"@,
                Self::Cobblestone => "Cobblestone"@,
                Self::Water => "Water"@,
                Self::Sand => "Sand"@,
                Self::Bedrock => "Bedrock"@,
            },
    {
        match self {
            Self::Air => "Air",
            Self::Stone => "Stone",
            Self::Dirt => "Dirt",
            Self::Grass => "Grass",
            Self::Cobblestone => "Cobblestone",
            Self::Water => "Water",
            Self::Sand => "Sand",
            Self::Bedrock => "Bedrock",
        }
    }

    /// A kind and its code determine each other.
    pub proof fn lemma_code_injective(self, other: Self)
        requires
            self.code() == other.code(),
        ensures
            self == other,
            0 <= self.code() < 8,
    {
    }

    /// Every tile of the catalog, the fallback tile too, lies inside the
    /// atlas, and no two kinds share a tile.
    pub proof fn lemma_tiles_in_atlas(self, other: Self)
        ensures
            self.tile_or_fallback().0 < ATLAS_SIZE,
            self.tile_or_fallback().1 < ATLAS_SIZE,
            self.tile() is None <==> self == Self::Air,
            self != other ==> self.tile_or_fallback() != other.tile_or_fallback(),
    {
    }
}

} // verus!
