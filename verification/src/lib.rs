//! Voxel chunk geometry: a fixed-size cubic grid of typed blocks, a dirty
//! flag for change tracking, and a lazy rebuild step that turns the grid into
//! shared unit-cube geometry plus one render instance per cell.

pub mod engine;
pub mod rng;
pub mod voxels;
