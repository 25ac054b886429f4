//! The block catalogs: kinds of blocks, their faces and their textures.

pub mod atlas;
pub mod block;
pub mod blocks;
pub mod cobblestone;
pub mod flower;
pub mod mushroom;
pub mod sponge;
pub mod utils;
pub mod wood;
pub mod wool;
