//! Core of a chunked voxel world engine: chunk storage, world-level voxel
//! access, dirty-chunk tracking, surface extraction into triangle meshes,
//! voxel-traversal raycasting, and axis-aligned player collision resolution.
//!
//! All world-space quantities that are fractional at run time (positions,
//! velocities, ray parameters) are carried as fixed-point integers in
//! thousandths of a world unit, so that every algorithm here is exact
//! integer arithmetic with a verified contract.

pub mod chunk;
pub mod chunk_renderer;
pub mod interact;
pub mod mesh;
pub mod player;
pub mod pos_map;
pub mod raycast;
pub mod texture_atlas;
pub mod units;
pub mod world;
