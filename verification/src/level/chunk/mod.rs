//! A chunk: its blocks, its visibility cache and its mesh.

pub mod buffer;
pub mod build;
pub mod config;
pub mod data;
pub mod mesh;
