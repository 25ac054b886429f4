//! Chunk storage, face culling and mesh generation for a voxel world.
//!
//! A chunk is a cube of `CHUNK_SIZE`³ blocks. The culler decides, per cell,
//! which of its six faces can be seen; the mesher turns the visible faces of
//! the solid cells into quads. All geometry is kept on the integer lattice:
//! vertex positions are lattice points, normals are axis unit vectors and
//! texture coordinates are counted in atlas tiles, so a renderer only has to
//! widen them to floating point and scale the texture coordinates by the
//! atlas grid size.

pub mod block;
pub mod chunk;
pub mod level;
pub mod utils;
