//! From blocks to triangles: the culler and the mesher.

pub mod culler;
pub mod mesh;
