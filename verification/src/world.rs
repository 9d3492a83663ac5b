use vstd::prelude::*;

use crate::chunk::{
    chunk_coord, local_coord, spec_chunk_index, split_world_coord, Chunk, ChunkPos, VoxelType,
    CHUNK_SIZE,
};
use crate::pos_map::PosMap;

verus! {

/// Smallest chunk-grid coordinate a loaded chunk may have: the chunk holding
/// the lowest `i32` world coordinate.
pub const CHUNK_POS_MIN: i32 = -134217728;

/// Largest chunk-grid coordinate a loaded chunk may have: the chunk holding
/// the highest `i32` world coordinate.
pub const CHUNK_POS_MAX: i32 = 134217727;

/// The chunk position lies within the coordinate range the engine can load,
/// so every world voxel coordinate inside it fits in `i32`.
pub open spec fn bounded_pos(p: ChunkPos) -> bool {
    &&& CHUNK_POS_MIN <= p.x <= CHUNK_POS_MAX
    &&& CHUNK_POS_MIN <= p.y <= CHUNK_POS_MAX
    &&& CHUNK_POS_MIN <= p.z <= CHUNK_POS_MAX
}

/// No chunk position occurs twice in `d`.
pub open spec fn no_dup(d: Seq<ChunkPos>) -> bool {
    forall|i: int, j: int| 0 <= i < j < d.len() ==> d[i] != d[j]
}

/// Mathematical model of a world: the loaded chunks with their voxel
/// contents, and the chunk coordinates marked dirty since the last drain, in
/// mark order.
pub struct WorldModel {
    pub chunks: Map<ChunkPos, Seq<VoxelType>>,
    pub dirty: Seq<ChunkPos>,
}

/// What a well-formed world guarantees of its model: loaded chunks sit at
/// bounded positions and hold exactly 4096 cells, and the dirty list holds
/// bounded positions without repetition.
pub open spec fn model_inv(m: WorldModel) -> bool {
    &&& forall|p: ChunkPos|
        #[trigger] m.chunks.dom().contains(p) ==> bounded_pos(p) && m.chunks[p].len() == 4096
    &&& no_dup(m.dirty)
    &&& forall|i: int| 0 <= i < m.dirty.len() ==> bounded_pos(#[trigger] m.dirty[i])
}

/// The terrain generation policy: a deterministic function of world height.
/// Stone below `-3`, dirt up to the surface, one grass layer at height zero,
/// air above.
pub open spec fn terrain_voxel(wy: int) -> VoxelType {
    if wy < -3 {
        VoxelType::Stone
    } else if wy < 0 {
        VoxelType::Dirt
    } else if wy == 0 {
        VoxelType::Grass
    } else {
        VoxelType::Air
    }
}

/// Voxel contents the generator produces for the chunk at `pos`.
pub open spec fn generated_chunk(pos: ChunkPos) -> Seq<VoxelType> {
    Seq::new(4096, |i: int| terrain_voxel(pos.y * 16 + (i / 16) % 16))
}

/// Marks `p` dirty: appended once, never twice.
pub open spec fn mark_dirty(d: Seq<ChunkPos>, p: ChunkPos) -> Seq<ChunkPos> {
    if d.contains(p) {
        d
    } else {
        d.push(p)
    }
}

/// Effect of loading the chunk at `pos`: a no-op when it is already loaded,
/// otherwise the generated chunk is inserted and `pos` marked dirty.
pub open spec fn load_chunk_model(m: WorldModel, pos: ChunkPos) -> WorldModel {
    if m.chunks.dom().contains(pos) {
        m
    } else {
        WorldModel {
            chunks: m.chunks.insert(pos, generated_chunk(pos)),
            dirty: mark_dirty(m.dirty, pos),
        }
    }
}

/// Chunk position owning world voxel coordinate `(wx, wy, wz)`.
pub open spec fn owner_of(wx: i32, wy: i32, wz: i32) -> ChunkPos {
    ChunkPos {
        x: chunk_coord(wx as int) as i32,
        y: chunk_coord(wy as int) as i32,
        z: chunk_coord(wz as int) as i32,
    }
}

/// Flat cell index of world coordinate `(wx, wy, wz)` inside its owning
/// chunk.
pub open spec fn cell_index_of(wx: i32, wy: i32, wz: i32) -> int {
    spec_chunk_index(local_coord(wx as int), local_coord(wy as int), local_coord(wz as int))
}

/// The voxel stored at a world coordinate: `None` when the owning chunk is
/// not loaded (Air in a loaded chunk counts as present, not absent).
pub open spec fn get_voxel_model(m: WorldModel, wx: i32, wy: i32, wz: i32) -> Option<VoxelType> {
    if m.chunks.dom().contains(owner_of(wx, wy, wz)) {
        Some(m.chunks[owner_of(wx, wy, wz)][cell_index_of(wx, wy, wz)])
    } else {
        None
    }
}

/// Whether the cell at an integer voxel coordinate blocks movement and rays:
/// loaded and holding something other than Air. Absent regions are
/// non-solid.
pub open spec fn solid_at(m: WorldModel, x: int, y: int, z: int) -> bool {
    match get_voxel_model(m, x as i32, y as i32, z as i32) {
        Some(v) => v != VoxelType::Air,
        None => false,
    }
}

/// Effect of writing a voxel: the owning chunk is loaded on demand, the cell
/// overwritten, and the owning chunk marked dirty. No write is ever rejected.
pub open spec fn set_voxel_model(
    m: WorldModel,
    wx: i32,
    wy: i32,
    wz: i32,
    voxel: VoxelType,
) -> WorldModel {
    let cp = owner_of(wx, wy, wz);
    let m1 = load_chunk_model(m, cp);
    WorldModel {
        chunks: m1.chunks.insert(cp, m1.chunks[cp].update(cell_index_of(wx, wy, wz), voxel)),
        dirty: mark_dirty(m1.dirty, cp),
    }
}

/// Loading a chunk is idempotent: a second load of the same coordinate
/// changes nothing — neither the voxel contents nor the dirty marks.
pub proof fn lemma_load_chunk_idempotent(m: WorldModel, pos: ChunkPos)
    ensures
        load_chunk_model(load_chunk_model(m, pos), pos) == load_chunk_model(m, pos),
{
}

/// After a voxel write, reading the same world coordinate returns exactly the
/// written type.
pub proof fn lemma_set_then_get(m: WorldModel, wx: i32, wy: i32, wz: i32, voxel: VoxelType)
    requires
        model_inv(m),
    ensures
        get_voxel_model(set_voxel_model(m, wx, wy, wz, voxel), wx, wy, wz) == Some(voxel),
{
    crate::chunk::lemma_chunk_coord_roundtrip(wx as int);
    crate::chunk::lemma_chunk_coord_roundtrip(wy as int);
    crate::chunk::lemma_chunk_coord_roundtrip(wz as int);
}

/// A voxel write leaves every other world coordinate reading as before.
pub proof fn lemma_set_preserves_others(
    m: WorldModel,
    wx: i32,
    wy: i32,
    wz: i32,
    voxel: VoxelType,
    ox: i32,
    oy: i32,
    oz: i32,
)
    requires
        model_inv(m),
        (ox, oy, oz) != (wx, wy, wz),
    ensures
        get_voxel_model(set_voxel_model(m, wx, wy, wz, voxel), ox, oy, oz) == if m.chunks.dom()
            .contains(owner_of(ox, oy, oz)) || owner_of(ox, oy, oz) == owner_of(wx, wy, wz) {
            Some(
                if m.chunks.dom().contains(owner_of(ox, oy, oz)) {
                    m.chunks[owner_of(ox, oy, oz)][cell_index_of(ox, oy, oz)]
                } else {
                    generated_chunk(owner_of(ox, oy, oz))[cell_index_of(ox, oy, oz)]
                },
            )
        } else {
            None
        },
{
    crate::chunk::lemma_chunk_coord_roundtrip(wx as int);
    crate::chunk::lemma_chunk_coord_roundtrip(wy as int);
    crate::chunk::lemma_chunk_coord_roundtrip(wz as int);
    crate::chunk::lemma_chunk_coord_roundtrip(ox as int);
    crate::chunk::lemma_chunk_coord_roundtrip(oy as int);
    crate::chunk::lemma_chunk_coord_roundtrip(oz as int);
    if owner_of(ox, oy, oz) == owner_of(wx, wy, wz) {
        assert(cell_index_of(ox, oy, oz) != cell_index_of(wx, wy, wz)) by {
            let lwx = local_coord(wx as int);
            let lwy = local_coord(wy as int);
            let lwz = local_coord(wz as int);
            let lox = local_coord(ox as int);
            let loy = local_coord(oy as int);
            let loz = local_coord(oz as int);
            if lox == lwx && loy == lwy && loz == lwz {
                assert(ox == wx && oy == wy && oz == wz);
            } else {
                assert(spec_chunk_index(lox, loy, loz) != spec_chunk_index(lwx, lwy, lwz));
            }
        }
    }
}

/// A voxel write marks the owning chunk dirty exactly once: the coordinate is
/// on the dirty list afterwards, and the list stays free of repetition, so
/// further writes into the same chunk add no second mark.
pub proof fn lemma_set_voxel_dirty_once(m: WorldModel, wx: i32, wy: i32, wz: i32, voxel: VoxelType)
    requires
        no_dup(m.dirty),
    ensures
        set_voxel_model(m, wx, wy, wz, voxel).dirty.contains(owner_of(wx, wy, wz)),
        no_dup(set_voxel_model(m, wx, wy, wz, voxel).dirty),
        set_voxel_model(set_voxel_model(m, wx, wy, wz, voxel), wx, wy, wz, voxel).dirty
            == set_voxel_model(m, wx, wy, wz, voxel).dirty,
{
    let cp = owner_of(wx, wy, wz);
    let d1 = load_chunk_model(m, cp).dirty;
    assert(no_dup(d1)) by {
        if !m.chunks.dom().contains(cp) && !m.dirty.contains(cp) {
            assert(forall|i: int|
                0 <= i < m.dirty.len() ==> (#[trigger] m.dirty[i]) == mark_dirty(m.dirty, cp)[i]);
        }
    }
    if !d1.contains(cp) {
        assert(mark_dirty(d1, cp)[d1.len() as int] == cp);
    }
    assert(no_dup(mark_dirty(d1, cp))) by {
        if !d1.contains(cp) {
            assert(forall|i: int|
                0 <= i < d1.len() ==> (#[trigger] d1[i]) == mark_dirty(d1, cp)[i]);
        }
    }
}

/// An unbounded mapping from chunk coordinates to loaded chunks, plus the set
/// of chunk coordinates whose contents changed since the last drain. A
/// coordinate is a key if and only if that chunk has been loaded; unloaded
/// regions behave as absent.
pub struct World {
    chunks: PosMap<Chunk>,
    dirty: Vec<ChunkPos>,
}

impl View for World {
    type V = WorldModel;

    closed spec fn view(&self) -> WorldModel {
        WorldModel { chunks: self.chunks@, dirty: self.dirty@ }
    }
}

impl World {
    /// Internal well-formedness: the chunk table has unique keys and the
    /// model invariant holds.
    pub closed spec fn wf(&self) -> bool {
        &&& self.chunks.wf()
        &&& model_inv(self@)
    }

    /// A well-formed world's model satisfies the model invariant.
    pub proof fn lemma_wf_model(&self)
        requires
            self.wf(),
        ensures
            model_inv(self@),
    {
    }

    /// An empty world: nothing loaded, nothing dirty.
    pub fn new() -> (w: World)
        ensures
            w.wf(),
            w@.chunks == Map::<ChunkPos, Seq<VoxelType>>::empty(),
            w@.dirty == Seq::<ChunkPos>::empty(),
    {
        World { chunks: PosMap::new(), dirty: Vec::new() }
    }

    /// The chunk loaded at `pos`, if any.
    pub fn get_chunk(&self, pos: ChunkPos) -> (r: Option<&Chunk>)
        requires
            self.wf(),
        ensures
            match r {
                Some(c) => self@.chunks.dom().contains(pos) && c@ == self@.chunks[pos] && c.wf(),
                None => !self@.chunks.dom().contains(pos),
            },
    {
        self.chunks.get(pos)
    }

    /// Appends `pos` to the dirty list unless it is already there.
    #[verifier::loop_isolation(false)]
    fn push_dirty(&mut self, pos: ChunkPos)
        requires
            old(self).wf(),
            bounded_pos(pos),
        ensures
            final(self).wf(),
            final(self)@.chunks == old(self)@.chunks,
            final(self)@.dirty == mark_dirty(old(self)@.dirty, pos),
    {
        let n = self.dirty.len();
        let mut k: usize = 0;
        while k < n
            invariant
                k <= n,
                n == self.dirty@.len(),
                forall|i: int| 0 <= i < k ==> self.dirty@[i] != pos,
            decreases n - k,
        {
            if self.dirty[k] == pos {
                assert(self.dirty@.contains(pos));
                return ;
            }
            k = k + 1;
        }
        assert(!self.dirty@.contains(pos));
        self.dirty.push(pos);
        proof {
            assert(forall|i: int|
                0 <= i < old(self).dirty@.len() ==> (#[trigger] self.dirty@[i]) == old(
                    self,
                ).dirty@[i]);
            assert(no_dup(self.dirty@));
            assert forall|i: int| 0 <= i < self.dirty@.len() implies bounded_pos(
                #[trigger] self.dirty@[i],
            ) by {
                if i < old(self).dirty@.len() {
                    assert(bounded_pos(old(self).dirty@[i]));
                }
            }
            assert(self@.chunks == old(self)@.chunks);
        }
    }

    /// Loads the chunk at `pos` on first call, generating its full volume and
    /// marking it dirty; a second call for an already-loaded coordinate is a
    /// no-op.
    pub fn load_chunk(&mut self, pos: ChunkPos)
        requires
            old(self).wf(),
            bounded_pos(pos),
        ensures
            final(self).wf(),
            final(self)@ == load_chunk_model(old(self)@, pos),
    {
        if !self.chunks.contains_key(pos) {
            let chunk = Self::generate_chunk(pos);
            self.chunks.insert(pos, chunk);
            proof {
                assert forall|p: ChunkPos| #[trigger] self@.chunks.dom().contains(p) implies
                    bounded_pos(p) && self@.chunks[p].len() == 4096 by {
                    if p != pos {
                        assert(old(self)@.chunks.dom().contains(p));
                    }
                }
            }
            self.push_dirty(pos);
        }
    }

    /// Builds the generated voxel volume for the chunk at `pos`.
    fn generate_chunk(pos: ChunkPos) -> (c: Chunk)
        requires
            bounded_pos(pos),
        ensures
            c.wf(),
            c@ == generated_chunk(pos),
    {
        let mut chunk = Chunk::new();
        let mut z: usize = 0;
        while z < CHUNK_SIZE
            invariant
                z <= 16,
                bounded_pos(pos),
                chunk.wf(),
                forall|i: int| 0 <= i < z * 256 ==> chunk@[i] == generated_chunk(pos)[i],
            decreases 16 - z,
        {
            let mut y: usize = 0;
            while y < CHUNK_SIZE
                invariant
                    y <= 16,
                    z < 16,
                    bounded_pos(pos),
                    chunk.wf(),
                    forall|i: int|
                        0 <= i < z * 256 + y * 16 ==> chunk@[i] == generated_chunk(pos)[i],
                decreases 16 - y,
            {
                let mut x: usize = 0;
                while x < CHUNK_SIZE
                    invariant
                        x <= 16,
                        y < 16,
                        z < 16,
                        bounded_pos(pos),
                        chunk.wf(),
                        forall|i: int|
                            0 <= i < z * 256 + y * 16 + x ==> chunk@[i] == generated_chunk(pos)[i],
                    decreases 16 - x,
                {
                    let wy: i32 = pos.y * 16 + (y as i32);
                    let voxel = if wy < -3 {
                        VoxelType::Stone
                    } else if wy < 0 {
                        VoxelType::Dirt
                    } else if wy == 0 {
                        VoxelType::Grass
                    } else {
                        VoxelType::Air
                    };
                    chunk.set_voxel(x, y, z, voxel);
                    proof {
                        let i = spec_chunk_index(x as int, y as int, z as int);
                        assert((i / 16) % 16 == y) by (nonlinear_arith)
                            requires
                                i == x + y * 16 + z * 256,
                                0 <= x < 16,
                                0 <= y < 16,
                                0 <= z < 16,
                        ;
                        assert(chunk@[i] == generated_chunk(pos)[i]);
                    }
                    x = x + 1;
                }
                y = y + 1;
            }
            z = z + 1;
        }
        proof {
            assert(chunk@ =~= generated_chunk(pos));
        }
        chunk
    }

    /// Reads the voxel at a world coordinate, or `None` when the owning chunk
    /// is not loaded. Total for arbitrary integer world coordinates.
    pub fn get_voxel(&self, wx: i32, wy: i32, wz: i32) -> (r: Option<VoxelType>)
        requires
            self.wf(),
        ensures
            r == get_voxel_model(self@, wx, wy, wz),
    {
        let (cx, lx) = split_world_coord(wx);
        let (cy, ly) = split_world_coord(wy);
        let (cz, lz) = split_world_coord(wz);
        let chunk_pos = ChunkPos::new(cx, cy, cz);
        proof {
            assert(chunk_pos == owner_of(wx, wy, wz));
        }
        match self.chunks.get(chunk_pos) {
            Some(c) => c.get_voxel(lx, ly, lz),
            None => None,
        }
    }

    /// Writes the voxel at a world coordinate, loading the owning chunk on
    /// demand and marking it dirty. No write is ever rejected.
    pub fn set_voxel(&mut self, wx: i32, wy: i32, wz: i32, voxel: VoxelType)
        requires
            old(self).wf(),
        ensures
            final(self).wf(),
            final(self)@ == set_voxel_model(old(self)@, wx, wy, wz, voxel),
    {
        let (cx, lx) = split_world_coord(wx);
        let (cy, ly) = split_world_coord(wy);
        let (cz, lz) = split_world_coord(wz);
        let chunk_pos = ChunkPos::new(cx, cy, cz);
        proof {
            assert(chunk_pos == owner_of(wx, wy, wz));
            crate::chunk::lemma_chunk_coord_roundtrip(wx as int);
            crate::chunk::lemma_chunk_coord_roundtrip(wy as int);
            crate::chunk::lemma_chunk_coord_roundtrip(wz as int);
            assert(bounded_pos(chunk_pos));
        }
        self.load_chunk(chunk_pos);
        let mut c = match self.chunks.remove(chunk_pos) {
            Some(c) => c,
            None => {
                proof {
                    assert(false);
                }
                Chunk::new()
            },
        };
        c.set_voxel(lx, ly, lz, voxel);
        self.chunks.insert(chunk_pos, c);
        proof {
            let m1 = load_chunk_model(old(self)@, chunk_pos);
            assert(self@.chunks =~= m1.chunks.insert(
                chunk_pos,
                m1.chunks[chunk_pos].update(cell_index_of(wx, wy, wz), voxel),
            ));
            assert forall|p: ChunkPos| #[trigger] self@.chunks.dom().contains(p) implies
                bounded_pos(p) && self@.chunks[p].len() == 4096 by {
                if p != chunk_pos {
                    assert(old(self)@.chunks.dom().contains(p));
                }
            }
        }
        self.push_dirty(chunk_pos);
    }

    /// Drains the dirty set: returns every chunk coordinate marked since the
    /// last drain, in mark order, and leaves the set empty.
    #[verifier::loop_isolation(false)]
    pub fn take_dirty_chunks(&mut self) -> (r: Vec<ChunkPos>)
        requires
            old(self).wf(),
        ensures
            final(self).wf(),
            r@ == old(self)@.dirty,
            final(self)@.chunks == old(self)@.chunks,
            final(self)@.dirty == Seq::<ChunkPos>::empty(),
    {
        let n = self.dirty.len();
        let mut out: Vec<ChunkPos> = Vec::new();
        let mut k: usize = 0;
        while k < n
            invariant
                k <= n,
                n == self.dirty@.len(),
                out@ == self.dirty@.subrange(0, k as int),
            decreases n - k,
        {
            out.push(self.dirty[k]);
            k = k + 1;
        }
        self.dirty.clear();
        proof {
            assert(out@ =~= old(self)@.dirty);
            assert(self@.chunks == old(self)@.chunks);
            assert(self@.dirty =~= Seq::<ChunkPos>::empty());
        }
        out
    }

    /// Discards the chunk at `pos`, if loaded. The dirty list is left alone:
    /// a stale mark for an unloaded coordinate is handled by the render
    /// cache.
    pub fn unload_chunk(&mut self, pos: ChunkPos)
        requires
            old(self).wf(),
        ensures
            final(self).wf(),
            final(self)@.chunks == old(self)@.chunks.remove(pos),
            final(self)@.dirty == old(self)@.dirty,
    {
        let _removed = self.chunks.remove(pos);
        proof {
            assert forall|p: ChunkPos| #[trigger] self@.chunks.dom().contains(p) implies
                bounded_pos(p) && self@.chunks[p].len() == 4096 by {
                assert(old(self)@.chunks.dom().contains(p));
            }
        }
    }
}

} // verus!
