//! The size of a chunk and the requests that stand against it.

use vstd::prelude::*;

verus! {

/// Edge length of a chunk, in blocks.
pub const CHUNK_SIZE: usize = 16;

/// Number of cells in one horizontal layer of a chunk.
pub const CHUNK_PLANE_SIZE: usize = 256;

/// Number of cells in a chunk.
pub const CHUNK_VOLUME_SIZE: usize = 4096;

/// What is still owed to a chunk.
///
/// The culler's cache follows the blocks and the mesh follows the cache:
/// the mesh may be rebuilt only once the cache is fresh.
#[derive(Clone, Copy, Debug, PartialEq, Eq, Structural)]
pub struct ChunkConfigs {
    /// The chunk is void and needs generation.
    pub generation_req: bool,
    /// The mesh cache needs to be regenerated.
    pub mesh_cache_refresh_req: bool,
    /// The mesh buffers need to be regenerated.
    pub mesh_data_refresh_req: bool,
    /// Request to be despawned.
    pub dealloc_req: bool,
}

impl Default for ChunkConfigs {
    /// A new chunk needs everything and is not to be despawned.
    fn default() -> (r: Self)
        ensures
            r == (ChunkConfigs {
                generation_req: true,
                mesh_cache_refresh_req: true,
                mesh_data_refresh_req: true,
                dealloc_req: false,
            }),
    {
        Self {
            generation_req: true,
            mesh_cache_refresh_req: true,
            mesh_data_refresh_req: true,
            dealloc_req: false,
        }
    }
}

} // verus!
