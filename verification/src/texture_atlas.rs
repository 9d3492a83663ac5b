use vstd::prelude::*;

use crate::chunk::VoxelType;

verus! {

/// The six axis-aligned faces of a voxel cube.
#[derive(Clone, Copy, PartialEq, Eq, Structural, Debug)]
pub enum FaceDirection {
    North,
    South,
    East,
    West,
    Top,
    Bottom,
}

/// Atlas tile showing the texture of `voxel` on `face`, in tile coordinates
/// (not UV space). Grass differs per face: a grass tile on top, Dirt's tile
/// underneath, a grass-side tile elsewhere; all other types are
/// face-invariant.
pub open spec fn spec_tile_coords(voxel: VoxelType, face: FaceDirection) -> (u32, u32) {
    match voxel {
        VoxelType::Air => (0u32, 0u32),
        VoxelType::Stone => (2u32, 0u32),
        VoxelType::Dirt => (1u32, 0u32),
        VoxelType::Grass => match face {
            FaceDirection::Top => (0u32, 1u32),
            FaceDirection::Bottom => (1u32, 0u32),
            _ => (0u32, 0u32),
        },
    }
}

/// Grass uses a tile of its own on the top face, while its bottom face shares
/// Dirt's tile, and Dirt shows that same tile on every face.
pub proof fn lemma_grass_face_tiles()
    ensures
        spec_tile_coords(VoxelType::Grass, FaceDirection::Top) != spec_tile_coords(
            VoxelType::Grass,
            FaceDirection::Bottom,
        ),
        forall|f: FaceDirection|
            spec_tile_coords(VoxelType::Dirt, f) == spec_tile_coords(
                VoxelType::Grass,
                FaceDirection::Bottom,
            ),
{
}

/// UV numerator pair of corner `k` of a quad textured with atlas tile
/// `(u, v)`; the denominator is the atlas' tiles-per-side count. Corners come
/// in the two-triangle order bottom-left, bottom-right, top-right,
/// bottom-left, top-right, top-left.
pub open spec fn spec_face_uv(u: int, v: int, k: int) -> (int, int) {
    if k == 0 {
        (u, v + 1)
    } else if k == 1 {
        (u + 1, v + 1)
    } else if k == 2 {
        (u + 1, v)
    } else if k == 3 {
        (u, v + 1)
    } else if k == 4 {
        (u + 1, v)
    } else {
        (u, v)
    }
}

/// A uniform grid of texture tiles inside one atlas image. Appearance of a
/// voxel face is a lookup by (voxel type, face direction). UVs are handed out
/// as integer numerators over the tiles-per-side count, so that the lookup
/// stays exact; the renderer divides once when it uploads vertices.
pub struct TextureAtlas {
    tile_count: u32,
}

impl TextureAtlas {
    /// How many tiles the atlas holds along each side.
    pub closed spec fn spec_tile_count(&self) -> u32 {
        self.tile_count
    }

    pub fn new(atlas_size: u32, tile_count: u32) -> (a: TextureAtlas)
        requires
            tile_count >= 1,
        ensures
            a.spec_tile_count() == tile_count,
    {
        let _unused: u32 = atlas_size;
        TextureAtlas { tile_count }
    }

    /// Tiles-per-side count, the denominator of every UV numerator pair.
    pub fn tile_count(&self) -> (n: u32)
        ensures
            n == self.spec_tile_count(),
    {
        self.tile_count
    }

    /// UV numerators for the six vertices (two triangles) of one face quad.
    pub fn get_uvs(&self, voxel: VoxelType, face: FaceDirection) -> (uvs: [(u32, u32); 6])
        ensures
            forall|k: int|
                0 <= k < 6 ==> {
                    let tile = spec_tile_coords(voxel, face);
                    let uv = spec_face_uv(tile.0 as int, tile.1 as int, k);
                    #[trigger] uvs@[k].0 == uv.0 && uvs@[k].1 == uv.1
                },
    {
        let (u, v) = self.get_tile_coords(voxel, face);
        let u_min: u32 = u;
        let u_max: u32 = u + 1;
        let v_min: u32 = v;
        let v_max: u32 = v + 1;
        [
            (u_min, v_max),
            (u_max, v_max),
            (u_max, v_min),
            (u_min, v_max),
            (u_max, v_min),
            (u_min, v_min),
        ]
    }

    /// Tile position of `voxel`'s `face` in the atlas (in tiles, not UV
    /// coordinates).
    fn get_tile_coords(&self, voxel: VoxelType, face: FaceDirection) -> (r: (u32, u32))
        ensures
            r == spec_tile_coords(voxel, face),
            r.0 <= 2 && r.1 <= 1,
    {
        match voxel {
            VoxelType::Air => (0, 0),
            VoxelType::Stone => (2, 0),
            VoxelType::Dirt => (1, 0),
            VoxelType::Grass => {
                match face {
                    FaceDirection::Top => (0, 1),
                    FaceDirection::Bottom => (1, 0),
                    _ => (0, 0),
                }
            },
        }
    }
}

} // verus!
