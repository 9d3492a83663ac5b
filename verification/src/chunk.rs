use vstd::prelude::*;

use crate::texture_atlas::{spec_tile_coords, FaceDirection};

verus! {

/// Side length of a cubic chunk, in voxels.
pub const CHUNK_SIZE: usize = 16;

/// Number of voxel cells in one chunk.
pub const CHUNK_VOLUME: usize = 4096;

/// Flat index of local cell `(x, y, z)` inside a chunk's voxel array.
pub open spec fn spec_chunk_index(x: int, y: int, z: int) -> int {
    x + y * 16 + z * 256
}

/// Flat index of the cell `(x, y, z)`, addressed `x + y*N + z*N^2` with
/// `N = 16`.
pub fn get_chunk_index(x: usize, y: usize, z: usize) -> (i: usize)
    requires
        x < 16,
        y < 16,
        z < 16,
    ensures
        i == spec_chunk_index(x as int, y as int, z as int),
        i < 4096,
{
    x + y * CHUNK_SIZE + z * CHUNK_SIZE * CHUNK_SIZE
}

/// Chunk-grid coordinate owning world coordinate `w`: Euclidean floor
/// division by the chunk side, so negative coordinates map correctly.
pub open spec fn chunk_coord(w: int) -> int {
    w / 16
}

/// Coordinate of `w` inside its owning chunk: Euclidean remainder, always in
/// `[0, 16)`.
pub open spec fn local_coord(w: int) -> int {
    w % 16
}

/// Splitting a world coordinate into chunk coordinate and local coordinate
/// loses nothing: `chunk_coord(w) * 16 + local_coord(w)` recovers `w`, for
/// negative `w` as well, and the local part always lies in `[0, 16)`.
pub proof fn lemma_chunk_coord_roundtrip(w: int)
    ensures
        chunk_coord(w) * 16 + local_coord(w) == w,
        0 <= local_coord(w) < 16,
{
}

/// Splits a world coordinate into its chunk coordinate and local coordinate.
pub fn split_world_coord(w: i32) -> (r: (i32, usize))
    ensures
        r.0 == chunk_coord(w as int),
        r.1 == local_coord(w as int),
        r.1 < 16,
{
    proof {
        lemma_chunk_coord_roundtrip(w as int);
    }
    let q: i32 = match w.checked_div_euclid(16) {
        Some(q) => q,
        None => {
            proof {
                assert(false);
            }
            0
        },
    };
    let m: i32 = match w.checked_rem_euclid(16) {
        Some(m) => m,
        None => {
            proof {
                assert(false);
            }
            0
        },
    };
    (q, m as usize)
}

/// An integer chunk position in chunk-grid space (world coordinates divided
/// by the chunk side, floored).
#[derive(Clone, Copy, PartialEq, Eq, Structural, Debug)]
pub struct ChunkPos {
    pub x: i32,
    pub y: i32,
    pub z: i32,
}

impl ChunkPos {
    pub fn new(x: i32, y: i32, z: i32) -> (p: ChunkPos)
        ensures
            p == (ChunkPos { x, y, z }),
    {
        ChunkPos { x, y, z }
    }
}

/// The closed set of block types a cell can hold. Air is never rendered and
/// never collidable.
#[derive(Clone, Copy, PartialEq, Eq, Structural, Debug)]
pub enum VoxelType {
    Air,
    Grass,
    Dirt,
    Stone,
}

impl VoxelType {
    /// Atlas tile showing this voxel type on `face`, in tile coordinates.
    pub fn texture_coords(&self, face: &FaceDirection) -> (r: (u32, u32))
        ensures
            r == spec_tile_coords(*self, *face),
    {
        match self {
            VoxelType::Air => (0, 0),
            VoxelType::Stone => (2, 0),
            VoxelType::Dirt => (1, 0),
            VoxelType::Grass => {
                match face {
                    FaceDirection::Top => (0, 1),
                    FaceDirection::Bottom => (1, 0),
                    _ => (0, 0),
                }
            },
        }
    }
}

/// A fixed-size cube of `16^3` voxels, one type per cell, stored flat. A
/// chunk does not know its own world position; callers supply it.
pub struct Chunk {
    voxels: Vec<VoxelType>,
}

impl View for Chunk {
    type V = Seq<VoxelType>;

    closed spec fn view(&self) -> Seq<VoxelType> {
        self.voxels@
    }
}

impl Chunk {
    /// Every chunk holds exactly one voxel type for each of its 4096 cells.
    pub open spec fn wf(&self) -> bool {
        self@.len() == 4096
    }

    /// A fresh chunk, all cells Air.
    pub fn new() -> (c: Chunk)
        ensures
            c.wf(),
            forall|i: int| 0 <= i < 4096 ==> c@[i] == VoxelType::Air,
    {
        Chunk { voxels: vec![VoxelType::Air; CHUNK_VOLUME] }
    }

    /// Overwrites the cell at local coordinates unconditionally.
    pub fn set_voxel(&mut self, x: usize, y: usize, z: usize, voxel_type: VoxelType)
        requires
            old(self).wf(),
            x < 16,
            y < 16,
            z < 16,
        ensures
            final(self).wf(),
            final(self)@ == old(self)@.update(
                spec_chunk_index(x as int, y as int, z as int),
                voxel_type,
            ),
    {
        let i = get_chunk_index(x, y, z);
        self.voxels[i] = voxel_type;
    }

    /// The voxel stored at local coordinates, which must lie in `[0, 16)`.
    pub fn get_voxel(&self, x: usize, y: usize, z: usize) -> (r: Option<VoxelType>)
        requires
            self.wf(),
            x < 16,
            y < 16,
            z < 16,
        ensures
            r == Some(self@[spec_chunk_index(x as int, y as int, z as int)]),
    {
        let i = get_chunk_index(x, y, z);
        Some(self.voxels[i])
    }
}

} // verus!
