use vstd::prelude::*;

use crate::chunk::{spec_chunk_index, Chunk, ChunkPos, VoxelType, CHUNK_SIZE};
use crate::texture_atlas::{spec_face_uv, spec_tile_coords, FaceDirection, TextureAtlas};

verus! {

/// Largest magnitude a chunk's world-space origin offset may have. Any
/// loadable chunk's origin is far below this, and one cell more still fits
/// comfortably in `i64`.
pub const MESH_OFFSET_LIMIT: i64 = 34359738368;

/// One mesh vertex: an integer world-space corner position, texture
/// coordinates as numerators over the atlas' tiles-per-side count, and an
/// outward unit normal.
#[derive(Clone, Copy, PartialEq, Eq, Debug)]
pub struct Vertex {
    pub position: (i64, i64, i64),
    pub tex_coords: (u32, u32),
    pub normal: (i32, i32, i32),
}

/// An ordered vertex list: six vertices (two counter-clockwise triangles)
/// per visible voxel face. Zero vertices means "nothing to draw".
pub struct ChunkMesh {
    pub vertices: Vec<Vertex>,
}

impl View for ChunkMesh {
    type V = Seq<Vertex>;

    open spec fn view(&self) -> Seq<Vertex> {
        self.vertices@
    }
}

impl ChunkMesh {
    pub fn new() -> (m: ChunkMesh)
        ensures
            m@ == Seq::<Vertex>::empty(),
    {
        ChunkMesh { vertices: Vec::new() }
    }

    pub fn is_empty(&self) -> (r: bool)
        ensures
            r == (self@.len() == 0),
    {
        self.vertices.is_empty()
    }

    pub fn clear(&mut self)
        ensures
            final(self)@ == Seq::<Vertex>::empty(),
    {
        self.vertices.clear();
    }

    pub fn vertex_count(&self) -> (n: u32)
        requires
            self@.len() <= u32::MAX,
        ensures
            n == self@.len(),
    {
        self.vertices.len() as u32
    }

    /// The vertex at `i`, for readers walking the list.
    pub fn vertex(&self, i: usize) -> (v: Vertex)
        requires
            i < self@.len(),
        ensures
            v == self@[i as int],
    {
        self.vertices[i]
    }
}

/// Outward unit normal of face `d`.
pub open spec fn spec_face_normal(d: FaceDirection) -> (int, int, int) {
    match d {
        FaceDirection::North => (0, 0, 1),
        FaceDirection::South => (0, 0, -1),
        FaceDirection::East => (1, 0, 0),
        FaceDirection::West => (-1, 0, 0),
        FaceDirection::Top => (0, 1, 0),
        FaceDirection::Bottom => (0, -1, 0),
    }
}

/// Corner `k` of the six vertices (two counter-clockwise triangles) of face
/// `d` of the unit cube whose lowest corner is `(x, y, z)`.
pub open spec fn spec_face_corner(d: FaceDirection, x: int, y: int, z: int, k: int) -> (
    int,
    int,
    int,
) {
    match d {
        FaceDirection::North => if k == 0 {
            (x, y, z + 1)
        } else if k == 1 {
            (x + 1, y, z + 1)
        } else if k == 2 {
            (x + 1, y + 1, z + 1)
        } else if k == 3 {
            (x, y, z + 1)
        } else if k == 4 {
            (x + 1, y + 1, z + 1)
        } else {
            (x, y + 1, z + 1)
        },
        FaceDirection::South => if k == 0 {
            (x + 1, y, z)
        } else if k == 1 {
            (x, y, z)
        } else if k == 2 {
            (x, y + 1, z)
        } else if k == 3 {
            (x + 1, y, z)
        } else if k == 4 {
            (x, y + 1, z)
        } else {
            (x + 1, y + 1, z)
        },
        FaceDirection::East => if k == 0 {
            (x + 1, y, z + 1)
        } else if k == 1 {
            (x + 1, y, z)
        } else if k == 2 {
            (x + 1, y + 1, z)
        } else if k == 3 {
            (x + 1, y, z + 1)
        } else if k == 4 {
            (x + 1, y + 1, z)
        } else {
            (x + 1, y + 1, z + 1)
        },
        FaceDirection::West => if k == 0 {
            (x, y, z)
        } else if k == 1 {
            (x, y, z + 1)
        } else if k == 2 {
            (x, y + 1, z + 1)
        } else if k == 3 {
            (x, y, z)
        } else if k == 4 {
            (x, y + 1, z + 1)
        } else {
            (x, y + 1, z)
        },
        FaceDirection::Top => if k == 0 {
            (x, y + 1, z + 1)
        } else if k == 1 {
            (x + 1, y + 1, z + 1)
        } else if k == 2 {
            (x + 1, y + 1, z)
        } else if k == 3 {
            (x, y + 1, z + 1)
        } else if k == 4 {
            (x + 1, y + 1, z)
        } else {
            (x, y + 1, z)
        },
        FaceDirection::Bottom => if k == 0 {
            (x, y, z)
        } else if k == 1 {
            (x + 1, y, z)
        } else if k == 2 {
            (x + 1, y, z + 1)
        } else if k == 3 {
            (x, y, z)
        } else if k == 4 {
            (x + 1, y, z + 1)
        } else {
            (x, y, z + 1)
        },
    }
}

/// The six vertices of face `d` of the voxel of type `v` whose lowest world
/// corner is `(wx, wy, wz)`.
pub open spec fn spec_face_vertices(
    v: VoxelType,
    d: FaceDirection,
    wx: int,
    wy: int,
    wz: int,
) -> Seq<Vertex> {
    Seq::new(
        6,
        |k: int|
            {
                let c = spec_face_corner(d, wx, wy, wz, k);
                let t = spec_tile_coords(v, d);
                let uv = spec_face_uv(t.0 as int, t.1 as int, k);
                let n = spec_face_normal(d);
                Vertex {
                    position: (c.0 as i64, c.1 as i64, c.2 as i64),
                    tex_coords: (uv.0 as u32, uv.1 as u32),
                    normal: (n.0 as i32, n.1 as i32, n.2 as i32),
                }
            },
    )
}

/// Local coordinates of the neighbor cell that decides visibility of face
/// `d` of cell `(x, y, z)`.
pub open spec fn spec_neighbor(d: FaceDirection, x: int, y: int, z: int) -> (int, int, int) {
    match d {
        FaceDirection::North => (x, y, z + 1),
        FaceDirection::South => (x, y, z - 1),
        FaceDirection::East => (x + 1, y, z),
        FaceDirection::West => (x - 1, y, z),
        FaceDirection::Top => (x, y + 1, z),
        FaceDirection::Bottom => (x, y - 1, z),
    }
}

/// A face is emitted if and only if its neighbor lies outside the chunk
/// bounds (chunk-boundary faces are always drawn) or the neighbor cell holds
/// Air.
pub open spec fn spec_face_visible(c: Seq<VoxelType>, x: int, y: int, z: int, d: FaceDirection) -> bool {
    let n = spec_neighbor(d, x, y, z);
    if n.0 < 0 || n.0 >= 16 || n.1 < 0 || n.1 >= 16 || n.2 < 0 || n.2 >= 16 {
        true
    } else {
        c[spec_chunk_index(n.0, n.1, n.2)] == VoxelType::Air
    }
}

/// Mesh contribution of face `d` of local cell `(x, y, z)` of a chunk whose
/// world-space origin is `(bx, by, bz)`.
pub open spec fn spec_cell_face(
    c: Seq<VoxelType>,
    bx: int,
    by: int,
    bz: int,
    x: int,
    y: int,
    z: int,
    d: FaceDirection,
) -> Seq<Vertex> {
    if spec_face_visible(c, x, y, z, d) {
        spec_face_vertices(c[spec_chunk_index(x, y, z)], d, bx + x, by + y, bz + z)
    } else {
        Seq::empty()
    }
}

/// Mesh contribution of local cell `(x, y, z)`: nothing for Air, otherwise
/// its visible faces in the order North, South, East, West, Top, Bottom.
pub open spec fn spec_cell_mesh(
    c: Seq<VoxelType>,
    bx: int,
    by: int,
    bz: int,
    x: int,
    y: int,
    z: int,
) -> Seq<Vertex> {
    if c[spec_chunk_index(x, y, z)] == VoxelType::Air {
        Seq::empty()
    } else {
        spec_cell_face(c, bx, by, bz, x, y, z, FaceDirection::North) + spec_cell_face(
            c,
            bx,
            by,
            bz,
            x,
            y,
            z,
            FaceDirection::South,
        ) + spec_cell_face(c, bx, by, bz, x, y, z, FaceDirection::East) + spec_cell_face(
            c,
            bx,
            by,
            bz,
            x,
            y,
            z,
            FaceDirection::West,
        ) + spec_cell_face(c, bx, by, bz, x, y, z, FaceDirection::Top) + spec_cell_face(
            c,
            bx,
            by,
            bz,
            x,
            y,
            z,
            FaceDirection::Bottom,
        )
    }
}

/// Concatenated contributions of the first `n` cells in flat index order
/// (x fastest, then y, then z — the order the meshing scan visits them).
pub open spec fn spec_mesh_prefix(c: Seq<VoxelType>, bx: int, by: int, bz: int, n: int) -> Seq<
    Vertex,
>
    decreases n,
{
    if n <= 0 {
        Seq::empty()
    } else {
        let i = n - 1;
        spec_mesh_prefix(c, bx, by, bz, i) + spec_cell_mesh(
            c,
            bx,
            by,
            bz,
            i % 16,
            (i / 16) % 16,
            i / 256,
        )
    }
}

/// The full mesh of voxel contents `c` for the chunk at grid position `pos`.
pub open spec fn spec_chunk_mesh(c: Seq<VoxelType>, pos: ChunkPos) -> Seq<Vertex> {
    spec_mesh_prefix(c, pos.x * 16, pos.y * 16, pos.z * 16, 4096)
}

/// A flat cell index decomposes into in-range local coordinates that map
/// back to the same index.
pub proof fn lemma_flat_index_coords(x: int, y: int, z: int)
    requires
        0 <= x < 16,
        0 <= y < 16,
        0 <= z < 16,
    ensures
        spec_chunk_index(x, y, z) % 16 == x,
        (spec_chunk_index(x, y, z) / 16) % 16 == y,
        spec_chunk_index(x, y, z) / 256 == z,
        0 <= spec_chunk_index(x, y, z) < 4096,
{
    let i = spec_chunk_index(x, y, z);
    assert(i % 16 == x && (i / 16) % 16 == y && i / 256 == z) by (nonlinear_arith)
        requires
            i == x + y * 16 + z * 256,
            0 <= x < 16,
            0 <= y < 16,
            0 <= z < 16,
    ;
}

/// A flat cell index yields in-range local coordinates that map back to the
/// same index.
pub proof fn lemma_flat_coords_of_index(i: int)
    requires
        0 <= i < 4096,
    ensures
        0 <= i % 16 < 16,
        0 <= (i / 16) % 16 < 16,
        0 <= i / 256 < 16,
        spec_chunk_index(i % 16, (i / 16) % 16, i / 256) == i,
{
    assert(i % 16 + ((i / 16) % 16) * 16 + (i / 256) * 256 == i && 0 <= i % 16 < 16 && 0 <= (i
        / 16) % 16 < 16 && 0 <= i / 256 < 16) by (nonlinear_arith)
        requires
            0 <= i < 4096,
    ;
}

proof fn lemma_mesh_prefix_all_air(c: Seq<VoxelType>, bx: int, by: int, bz: int, n: int)
    requires
        c.len() == 4096,
        forall|i: int| 0 <= i < 4096 ==> c[i] == VoxelType::Air,
        0 <= n <= 4096,
    ensures
        spec_mesh_prefix(c, bx, by, bz, n).len() == 0,
    decreases n,
{
    if n > 0 {
        lemma_mesh_prefix_all_air(c, bx, by, bz, n - 1);
        let i = n - 1;
        lemma_flat_coords_of_index(i);
        assert(c[spec_chunk_index(i % 16, (i / 16) % 16, i / 256)] == VoxelType::Air);
    }
}

/// Meshing an all-Air chunk yields zero vertices.
pub proof fn lemma_mesh_all_air(c: Seq<VoxelType>, pos: ChunkPos)
    requires
        c.len() == 4096,
        forall|i: int| 0 <= i < 4096 ==> c[i] == VoxelType::Air,
    ensures
        spec_chunk_mesh(c, pos).len() == 0,
{
    lemma_mesh_prefix_all_air(c, pos.x * 16, pos.y * 16, pos.z * 16, 4096);
}

proof fn lemma_mesh_prefix_single(
    c: Seq<VoxelType>,
    bx: int,
    by: int,
    bz: int,
    sx: int,
    sy: int,
    sz: int,
    n: int,
)
    requires
        c.len() == 4096,
        1 <= sx < 15,
        1 <= sy < 15,
        1 <= sz < 15,
        c[spec_chunk_index(sx, sy, sz)] != VoxelType::Air,
        forall|i: int|
            0 <= i < 4096 && i != spec_chunk_index(sx, sy, sz) ==> c[i] == VoxelType::Air,
        0 <= n <= 4096,
    ensures
        spec_mesh_prefix(c, bx, by, bz, n).len() == if n > spec_chunk_index(sx, sy, sz) {
            36int
        } else {
            0int
        },
    decreases n,
{
    let j = spec_chunk_index(sx, sy, sz);
    lemma_flat_index_coords(sx, sy, sz);
    if n > 0 {
        lemma_mesh_prefix_single(c, bx, by, bz, sx, sy, sz, n - 1);
        let i = n - 1;
        lemma_flat_coords_of_index(i);
        let x = i % 16;
        let y = (i / 16) % 16;
        let z = i / 256;
        if i == j {
            assert(x == sx && y == sy && z == sz);
            assert(spec_face_visible(c, x, y, z, FaceDirection::North)) by {
                lemma_flat_index_coords(x, y, z + 1);
            }
            assert(spec_face_visible(c, x, y, z, FaceDirection::South)) by {
                lemma_flat_index_coords(x, y, z - 1);
            }
            assert(spec_face_visible(c, x, y, z, FaceDirection::East)) by {
                lemma_flat_index_coords(x + 1, y, z);
            }
            assert(spec_face_visible(c, x, y, z, FaceDirection::West)) by {
                lemma_flat_index_coords(x - 1, y, z);
            }
            assert(spec_face_visible(c, x, y, z, FaceDirection::Top)) by {
                lemma_flat_index_coords(x, y + 1, z);
            }
            assert(spec_face_visible(c, x, y, z, FaceDirection::Bottom)) by {
                lemma_flat_index_coords(x, y - 1, z);
            }
            assert(spec_cell_mesh(c, bx, by, bz, x, y, z).len() == 36);
        } else {
            assert(c[spec_chunk_index(x, y, z)] == VoxelType::Air);
            assert(spec_cell_mesh(c, bx, by, bz, x, y, z).len() == 0);
        }
    }
}

/// Meshing a chunk holding exactly one non-Air voxel at an interior local
/// cell, fully surrounded by Air, yields exactly six faces: 36 vertices, six
/// per face.
pub proof fn lemma_mesh_single_voxel(c: Seq<VoxelType>, pos: ChunkPos, x: int, y: int, z: int)
    requires
        c.len() == 4096,
        1 <= x < 15,
        1 <= y < 15,
        1 <= z < 15,
        c[spec_chunk_index(x, y, z)] != VoxelType::Air,
        forall|i: int| 0 <= i < 4096 && i != spec_chunk_index(x, y, z) ==> c[i] == VoxelType::Air,
    ensures
        spec_chunk_mesh(c, pos).len() == 36,
{
    lemma_flat_index_coords(x, y, z);
    lemma_mesh_prefix_single(c, pos.x * 16, pos.y * 16, pos.z * 16, x, y, z, 4096);
}

impl FaceDirection {
    /// The face's constant outward unit normal.
    pub fn normal(&self) -> (n: (i32, i32, i32))
        ensures
            n.0 == spec_face_normal(*self).0,
            n.1 == spec_face_normal(*self).1,
            n.2 == spec_face_normal(*self).2,
    {
        match self {
            FaceDirection::North => (0, 0, 1),
            FaceDirection::South => (0, 0, -1),
            FaceDirection::East => (1, 0, 0),
            FaceDirection::West => (-1, 0, 0),
            FaceDirection::Top => (0, 1, 0),
            FaceDirection::Bottom => (0, -1, 0),
        }
    }

    /// The six corner positions (two counter-clockwise triangles) of this
    /// face of the unit cube whose lowest corner is `(x, y, z)`.
    pub fn vertices(&self, x: i64, y: i64, z: i64) -> (r: [(i64, i64, i64); 6])
        requires
            -MESH_OFFSET_LIMIT - 16 <= x <= MESH_OFFSET_LIMIT + 16,
            -MESH_OFFSET_LIMIT - 16 <= y <= MESH_OFFSET_LIMIT + 16,
            -MESH_OFFSET_LIMIT - 16 <= z <= MESH_OFFSET_LIMIT + 16,
        ensures
            forall|k: int|
                0 <= k < 6 ==> {
                    let c = spec_face_corner(*self, x as int, y as int, z as int, k);
                    #[trigger] r@[k].0 == c.0 && r@[k].1 == c.1 && r@[k].2 == c.2
                },
    {
        match self {
            FaceDirection::North => [
                (x, y, z + 1),
                (x + 1, y, z + 1),
                (x + 1, y + 1, z + 1),
                (x, y, z + 1),
                (x + 1, y + 1, z + 1),
                (x, y + 1, z + 1),
            ],
            FaceDirection::South => [
                (x + 1, y, z),
                (x, y, z),
                (x, y + 1, z),
                (x + 1, y, z),
                (x, y + 1, z),
                (x + 1, y + 1, z),
            ],
            FaceDirection::East => [
                (x + 1, y, z + 1),
                (x + 1, y, z),
                (x + 1, y + 1, z),
                (x + 1, y, z + 1),
                (x + 1, y + 1, z),
                (x + 1, y + 1, z + 1),
            ],
            FaceDirection::West => [
                (x, y, z),
                (x, y, z + 1),
                (x, y + 1, z + 1),
                (x, y, z),
                (x, y + 1, z + 1),
                (x, y + 1, z),
            ],
            FaceDirection::Top => [
                (x, y + 1, z + 1),
                (x + 1, y + 1, z + 1),
                (x + 1, y + 1, z),
                (x, y + 1, z + 1),
                (x + 1, y + 1, z),
                (x, y + 1, z),
            ],
            FaceDirection::Bottom => [
                (x, y, z),
                (x + 1, y, z),
                (x + 1, y, z + 1),
                (x, y, z),
                (x + 1, y, z + 1),
                (x, y, z + 1),
            ],
        }
    }
}

/// Surface extraction: per-voxel face culling against the six axis-aligned
/// neighbors, with atlas UV assignment. Adjacent coplanar faces are not
/// merged.
pub struct ChunkMesher {
    texture_atlas: TextureAtlas,
}

impl ChunkMesher {
    /// Tiles per side of the atlas this mesher assigns UVs from: the
    /// denominator of every vertex's texture-coordinate numerators.
    pub closed spec fn spec_tile_count(&self) -> u32 {
        self.texture_atlas.spec_tile_count()
    }

    pub fn new() -> (m: ChunkMesher)
        ensures
            m.spec_tile_count() == 16,
    {
        ChunkMesher { texture_atlas: TextureAtlas::new(256, 16) }
    }

    /// Tiles per side of the atlas this mesher assigns UVs from.
    pub fn tile_count(&self) -> (n: u32)
        ensures
            n == self.spec_tile_count(),
    {
        self.texture_atlas.tile_count()
    }

    /// Extracts the visible surface of `chunk` as a triangle list in world
    /// space, using the chunk's grid position for the origin offset. Every
    /// input yields a (possibly empty) mesh; an all-Air chunk yields the
    /// empty one.
    pub fn generate_mesh(&self, chunk: &Chunk, chunk_pos: ChunkPos) -> (mesh: ChunkMesh)
        requires
            chunk.wf(),
            crate::world::bounded_pos(chunk_pos),
        ensures
            mesh@ == spec_chunk_mesh(chunk@, chunk_pos),
    {
        let mut mesh = ChunkMesh::new();
        let offset_x: i64 = (chunk_pos.x as i64) * 16;
        let offset_y: i64 = (chunk_pos.y as i64) * 16;
        let offset_z: i64 = (chunk_pos.z as i64) * 16;
        let ghost bx = chunk_pos.x * 16 as int;
        let ghost by = chunk_pos.y * 16 as int;
        let ghost bz = chunk_pos.z * 16 as int;
        let mut z: usize = 0;
        while z < CHUNK_SIZE
            invariant
                z <= 16,
                chunk.wf(),
                crate::world::bounded_pos(chunk_pos),
                offset_x == bx && offset_y == by && offset_z == bz,
                bx == chunk_pos.x * 16 && by == chunk_pos.y * 16 && bz == chunk_pos.z * 16,
                mesh@ == spec_mesh_prefix(chunk@, bx, by, bz, z * 256),
            decreases 16 - z,
        {
            let mut y: usize = 0;
            while y < CHUNK_SIZE
                invariant
                    y <= 16,
                    z < 16,
                    chunk.wf(),
                    crate::world::bounded_pos(chunk_pos),
                    offset_x == bx && offset_y == by && offset_z == bz,
                    bx == chunk_pos.x * 16 && by == chunk_pos.y * 16 && bz == chunk_pos.z * 16,
                    mesh@ == spec_mesh_prefix(chunk@, bx, by, bz, z * 256 + y * 16),
                decreases 16 - y,
            {
                let mut x: usize = 0;
                while x < CHUNK_SIZE
                    invariant
                        x <= 16,
                        y < 16,
                        z < 16,
                        chunk.wf(),
                        crate::world::bounded_pos(chunk_pos),
                        offset_x == bx && offset_y == by && offset_z == bz,
                        bx == chunk_pos.x * 16 && by == chunk_pos.y * 16 && bz == chunk_pos.z * 16,
                        mesh@ == spec_mesh_prefix(chunk@, bx, by, bz, z * 256 + y * 16 + x),
                    decreases 16 - x,
                {
                    let voxel = match chunk.get_voxel(x, y, z) {
                        Some(v) => v,
                        None => {
                            proof {
                                assert(false);
                            }
                            VoxelType::Air
                        },
                    };
                    let ghost n = z * 256 + y * 16 + x;
                    proof {
                        lemma_flat_index_coords(x as int, y as int, z as int);
                        assert(spec_chunk_index(x as int, y as int, z as int) == n);
                    }
                    if !matches!(voxel, VoxelType::Air) {
                        self.add_voxel_faces(
                            &mut mesh,
                            chunk,
                            x,
                            y,
                            z,
                            voxel,
                            offset_x,
                            offset_y,
                            offset_z,
                        );
                        proof {
                            assert(mesh@ == spec_mesh_prefix(chunk@, bx, by, bz, n + 1));
                        }
                    } else {
                        proof {
                            assert(spec_cell_mesh(
                                chunk@,
                                bx,
                                by,
                                bz,
                                x as int,
                                y as int,
                                z as int,
                            ) =~= Seq::<Vertex>::empty());
                            assert(mesh@ =~= spec_mesh_prefix(chunk@, bx, by, bz, n + 1));
                        }
                    }
                    x = x + 1;
                }
                y = y + 1;
            }
            z = z + 1;
        }
        proof {
            assert(mesh@ == spec_chunk_mesh(chunk@, chunk_pos));
        }
        mesh
    }

    /// Emits every visible face of the non-Air voxel at local cell
    /// `(x, y, z)`.
    #[verifier::rlimit(100)]
    fn add_voxel_faces(
        &self,
        mesh: &mut ChunkMesh,
        chunk: &Chunk,
        x: usize,
        y: usize,
        z: usize,
        voxel: VoxelType,
        offset_x: i64,
        offset_y: i64,
        offset_z: i64,
    )
        requires
            chunk.wf(),
            x < 16,
            y < 16,
            z < 16,
            voxel == chunk@[spec_chunk_index(x as int, y as int, z as int)],
            voxel != VoxelType::Air,
            -MESH_OFFSET_LIMIT <= offset_x <= MESH_OFFSET_LIMIT,
            -MESH_OFFSET_LIMIT <= offset_y <= MESH_OFFSET_LIMIT,
            -MESH_OFFSET_LIMIT <= offset_z <= MESH_OFFSET_LIMIT,
        ensures
            final(mesh)@ == old(mesh)@ + spec_cell_mesh(
                chunk@,
                offset_x as int,
                offset_y as int,
                offset_z as int,
                x as int,
                y as int,
                z as int,
            ),
    {
        let wx: i64 = offset_x + (x as i64);
        let wy: i64 = offset_y + (y as i64);
        let wz: i64 = offset_z + (z as i64);
        let xi: i32 = x as i32;
        let yi: i32 = y as i32;
        let zi: i32 = z as i32;
        let ghost c = chunk@;
        let ghost bx = offset_x as int;
        let ghost by = offset_y as int;
        let ghost bz = offset_z as int;
        let ghost base = old(mesh)@;

        if Self::should_render_face(chunk, xi, yi, zi + 1) {
            self.add_face(mesh, wx, wy, wz, FaceDirection::North, voxel);
        }
        proof {
            assert(mesh@ =~= base + spec_cell_face(
                c, bx, by, bz, x as int, y as int, z as int, FaceDirection::North,
            ));
        }
        if Self::should_render_face(chunk, xi, yi, zi - 1) {
            self.add_face(mesh, wx, wy, wz, FaceDirection::South, voxel);
        }
        proof {
            assert(mesh@ =~= base + spec_cell_face(
                c, bx, by, bz, x as int, y as int, z as int, FaceDirection::North,
            ) + spec_cell_face(c, bx, by, bz, x as int, y as int, z as int, FaceDirection::South));
        }
        if Self::should_render_face(chunk, xi + 1, yi, zi) {
            self.add_face(mesh, wx, wy, wz, FaceDirection::East, voxel);
        }
        proof {
            assert(mesh@ =~= base + spec_cell_face(
                c, bx, by, bz, x as int, y as int, z as int, FaceDirection::North,
            ) + spec_cell_face(c, bx, by, bz, x as int, y as int, z as int, FaceDirection::South)
                + spec_cell_face(c, bx, by, bz, x as int, y as int, z as int, FaceDirection::East));
        }
        if Self::should_render_face(chunk, xi - 1, yi, zi) {
            self.add_face(mesh, wx, wy, wz, FaceDirection::West, voxel);
        }
        proof {
            assert(mesh@ =~= base + spec_cell_face(
                c, bx, by, bz, x as int, y as int, z as int, FaceDirection::North,
            ) + spec_cell_face(c, bx, by, bz, x as int, y as int, z as int, FaceDirection::South)
                + spec_cell_face(c, bx, by, bz, x as int, y as int, z as int, FaceDirection::East)
                + spec_cell_face(c, bx, by, bz, x as int, y as int, z as int, FaceDirection::West));
        }
        if Self::should_render_face(chunk, xi, yi + 1, zi) {
            self.add_face(mesh, wx, wy, wz, FaceDirection::Top, voxel);
        }
        proof {
            assert(mesh@ =~= base + spec_cell_face(
                c, bx, by, bz, x as int, y as int, z as int, FaceDirection::North,
            ) + spec_cell_face(c, bx, by, bz, x as int, y as int, z as int, FaceDirection::South)
                + spec_cell_face(c, bx, by, bz, x as int, y as int, z as int, FaceDirection::East)
                + spec_cell_face(c, bx, by, bz, x as int, y as int, z as int, FaceDirection::West)
                + spec_cell_face(c, bx, by, bz, x as int, y as int, z as int, FaceDirection::Top));
        }
        if Self::should_render_face(chunk, xi, yi - 1, zi) {
            self.add_face(mesh, wx, wy, wz, FaceDirection::Bottom, voxel);
        }
        proof {
            assert(mesh@ =~= base + spec_cell_face(
                c, bx, by, bz, x as int, y as int, z as int, FaceDirection::North,
            ) + spec_cell_face(c, bx, by, bz, x as int, y as int, z as int, FaceDirection::South)
                + spec_cell_face(c, bx, by, bz, x as int, y as int, z as int, FaceDirection::East)
                + spec_cell_face(c, bx, by, bz, x as int, y as int, z as int, FaceDirection::West)
                + spec_cell_face(c, bx, by, bz, x as int, y as int, z as int, FaceDirection::Top)
                + spec_cell_face(
                c, bx, by, bz, x as int, y as int, z as int, FaceDirection::Bottom,
            ));
            assert(mesh@ =~= old(mesh)@ + spec_cell_mesh(
                c, bx, by, bz, x as int, y as int, z as int,
            ));
        }
    }

    /// Whether the face toward neighbor cell `(nx, ny, nz)` must be drawn:
    /// yes when the neighbor is outside the chunk bounds or holds Air.
    fn should_render_face(chunk: &Chunk, nx: i32, ny: i32, nz: i32) -> (r: bool)
        requires
            chunk.wf(),
            -1 <= nx <= 16,
            -1 <= ny <= 16,
            -1 <= nz <= 16,
        ensures
            r == {
                if nx < 0 || nx >= 16 || ny < 0 || ny >= 16 || nz < 0 || nz >= 16 {
                    true
                } else {
                    chunk@[spec_chunk_index(nx as int, ny as int, nz as int)] == VoxelType::Air
                }
            },
    {
        if nx < 0 || nx >= 16 || ny < 0 || ny >= 16 || nz < 0 || nz >= 16 {
            return true;
        }
        match chunk.get_voxel(nx as usize, ny as usize, nz as usize) {
            Some(VoxelType::Air) => true,
            None => true,
            _ => false,
        }
    }

    /// Appends the six vertices of one face of the voxel whose lowest world
    /// corner is `(wx, wy, wz)`.
    fn add_face(
        &self,
        mesh: &mut ChunkMesh,
        wx: i64,
        wy: i64,
        wz: i64,
        direction: FaceDirection,
        voxel: VoxelType,
    )
        requires
            -MESH_OFFSET_LIMIT - 16 <= wx <= MESH_OFFSET_LIMIT + 16,
            -MESH_OFFSET_LIMIT - 16 <= wy <= MESH_OFFSET_LIMIT + 16,
            -MESH_OFFSET_LIMIT - 16 <= wz <= MESH_OFFSET_LIMIT + 16,
        ensures
            final(mesh)@ == old(mesh)@ + spec_face_vertices(
                voxel,
                direction,
                wx as int,
                wy as int,
                wz as int,
            ),
    {
        let positions = direction.vertices(wx, wy, wz);
        let uvs = self.texture_atlas.get_uvs(voxel, direction);
        let normal = direction.normal();
        let ghost fv = spec_face_vertices(voxel, direction, wx as int, wy as int, wz as int);
        let mut k: usize = 0;
        #[verifier::loop_isolation(false)]
        while k < 6
            invariant
                k <= 6,
                mesh@ == old(mesh)@ + fv.subrange(0, k as int),
            decreases 6 - k,
        {
            let vert = Vertex {
                position: positions[k],
                tex_coords: uvs[k],
                normal,
            };
            proof {
                let c = spec_face_corner(direction, wx as int, wy as int, wz as int, k as int);
                let t = spec_tile_coords(voxel, direction);
                let uv = spec_face_uv(t.0 as int, t.1 as int, k as int);
                let n = spec_face_normal(direction);
                assert(positions@[k as int].0 == c.0);
                assert(positions@[k as int].1 == c.1);
                assert(positions@[k as int].2 == c.2);
                assert(uvs@[k as int].0 == uv.0);
                assert(uvs@[k as int].1 == uv.1);
                assert(vert.position == (c.0 as i64, c.1 as i64, c.2 as i64));
                assert(vert.tex_coords == (uv.0 as u32, uv.1 as u32));
                assert(vert.normal == (n.0 as i32, n.1 as i32, n.2 as i32));
                assert(vert == fv[k as int]);
                assert(old(mesh)@ + fv.subrange(0, k as int) + seq![fv[k as int]] =~= old(mesh)@
                    + fv.subrange(0, k as int + 1));
            }
            mesh.vertices.push(vert);
            k = k + 1;
        }
        proof {
            assert(fv.subrange(0, 6) =~= fv);
        }
    }
}

} // verus!
