//! Voxel chunk storage and the pure decision logic of a voxel renderer.
pub mod chunk;
pub mod lattice;
pub mod chunk_storage;
pub mod input;
pub mod surface;
pub mod frames;
