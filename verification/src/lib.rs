//! Deterministic voxel terrain generation.
//!
//! The library turns a sampled terrain height field into chunks of solid
//! voxels and compiles those voxels into renderable triangle-mesh buffers
//! (positions, indices, UVs, normals) with per-face visibility culling.
//! A registry tracks which chunks are pending or ready, and a scheduler
//! decides, from the observer's position, which chunk origins to request.
//!
//! Mesh coordinates are kept as integers: vertex positions are stored in
//! half-units (a world coordinate doubled), texture coordinates in
//! hundredths of the atlas extent, and normals as signed unit components.
//! A host turns these into its own floating-point buffers.

use vstd::prelude::*;

pub mod chunk;
pub mod heightfield;
pub mod mesh;
pub mod registry;
pub mod scheduler;
pub mod voxel;

verus! {

/// Horizontal extent of one chunk, in voxels.
pub const CHUNK_SIZE: usize = 16;

/// Vertical scan bound: voxels are generated for `0 <= y < MAX_HEIGHT`.
pub const MAX_HEIGHT: usize = 100;

/// Base terrain elevation added to every raw height sample.
pub const TERRAIN_HEIGHT: u32 = 40;

/// Radius, in chunk steps, of the square of chunks kept resident
/// around the observer.
pub const RENDER_DISTANCE: usize = 30;

/// Marker for the terrain subsystem: a host's driving loop runs one
/// scheduler pass and one job-integration pass around it each tick.
pub struct TerrainPlugin;

/// Marker for the camera subsystem that supplies the observer position
/// each tick; input handling itself is host-side work and stays outside
/// this library.
pub struct CameraHandlerPlugin;

} // verus!
