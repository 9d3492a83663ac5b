use vstd::prelude::*;

use crate::chunk::{ChunkPos, VoxelType};
use crate::mesh::{spec_chunk_mesh, ChunkMesh, ChunkMesher, Vertex};
use crate::pos_map::PosMap;
use crate::world::{bounded_pos, World};

verus! {

/// Effect on the cached geometry of reprocessing one dirty coordinate: if
/// the chunk is still loaded its mesh is regenerated, replacing the cached
/// geometry when non-empty and discarding it when empty; a coordinate absent
/// from the world sheds any stale geometry.
pub open spec fn spec_cache_step(
    buffers: Map<ChunkPos, Seq<Vertex>>,
    chunks: Map<ChunkPos, Seq<VoxelType>>,
    p: ChunkPos,
) -> Map<ChunkPos, Seq<Vertex>> {
    if chunks.dom().contains(p) {
        let mesh = spec_chunk_mesh(chunks[p], p);
        if mesh.len() != 0 {
            buffers.insert(p, mesh)
        } else {
            buffers.remove(p)
        }
    } else {
        buffers.remove(p)
    }
}

/// The cached geometry after reprocessing the first `n` drained dirty
/// coordinates in drain order.
pub open spec fn spec_cache_update(
    buffers: Map<ChunkPos, Seq<Vertex>>,
    chunks: Map<ChunkPos, Seq<VoxelType>>,
    dirty: Seq<ChunkPos>,
    n: int,
) -> Map<ChunkPos, Seq<Vertex>>
    decreases n,
{
    if n <= 0 {
        buffers
    } else {
        spec_cache_step(spec_cache_update(buffers, chunks, dirty, n - 1), chunks, dirty[n - 1])
    }
}

/// Keeps one piece of generated geometry per chunk coordinate, synchronized
/// with the world's dirty set: on each update tick it drains the set once
/// and reprocesses every drained coordinate. Empty geometry is never cached,
/// so downstream draw submission can skip nothing-to-draw chunks by absence.
pub struct ChunkRenderer {
    mesher: ChunkMesher,
    buffers: PosMap<ChunkMesh>,
}

impl View for ChunkRenderer {
    type V = Map<ChunkPos, Seq<Vertex>>;

    closed spec fn view(&self) -> Map<ChunkPos, Seq<Vertex>> {
        self.buffers@
    }
}

impl ChunkRenderer {
    /// Internal well-formedness of the geometry table.
    pub closed spec fn wf(&self) -> bool {
        self.buffers.wf()
    }

    pub fn new() -> (r: ChunkRenderer)
        ensures
            r.wf(),
            r@ == Map::<ChunkPos, Seq<Vertex>>::empty(),
    {
        ChunkRenderer { mesher: ChunkMesher::new(), buffers: PosMap::new() }
    }

    /// Drains the world's dirty set once and reprocesses each drained
    /// coordinate in order; the world's chunks are left untouched.
    pub fn update(&mut self, world: &mut World)
        requires
            old(self).wf(),
            old(world).wf(),
        ensures
            final(self).wf(),
            final(world).wf(),
            final(world)@.chunks == old(world)@.chunks,
            final(world)@.dirty == Seq::<ChunkPos>::empty(),
            final(self)@ == spec_cache_update(
                old(self)@,
                old(world)@.chunks,
                old(world)@.dirty,
                old(world)@.dirty.len() as int,
            ),
    {
        proof {
            old(world).lemma_wf_model();
        }
        let dirty_chunks = world.take_dirty_chunks();
        let n = dirty_chunks.len();
        let mut k: usize = 0;
        #[verifier::loop_isolation(false)]
        while k < n
            invariant
                k <= n,
                self.wf(),
                world.wf(),
                world@.chunks == old(world)@.chunks,
                self@ == spec_cache_update(
                    old(self)@,
                    old(world)@.chunks,
                    old(world)@.dirty,
                    k as int,
                ),
            decreases n - k,
        {
            let pos = dirty_chunks[k];
            proof {
                assert(bounded_pos(old(world)@.dirty[k as int]));
            }
            self.remesh_chunk(world, pos);
            k = k + 1;
        }
    }

    /// Regenerates the geometry of one chunk coordinate: replaces the cached
    /// mesh when the regenerated one is non-empty, removes it when empty,
    /// and removes any stale mesh when the chunk is no longer loaded.
    fn remesh_chunk(&mut self, world: &World, pos: ChunkPos)
        requires
            old(self).wf(),
            world.wf(),
            bounded_pos(pos),
        ensures
            final(self).wf(),
            final(self)@ == spec_cache_step(old(self)@, world@.chunks, pos),
    {
        match world.get_chunk(pos) {
            Some(chunk) => {
                let mesh = self.mesher.generate_mesh(chunk, pos);
                if !mesh.is_empty() {
                    self.buffers.insert(pos, mesh);
                } else {
                    let _stale = self.buffers.remove(pos);
                }
            },
            None => {
                let _stale = self.buffers.remove(pos);
            },
        }
    }

    /// The cached geometry of one chunk coordinate, if any.
    pub fn get_mesh(&self, pos: ChunkPos) -> (r: Option<&ChunkMesh>)
        requires
            self.wf(),
        ensures
            match r {
                Some(m) => self@.dom().contains(pos) && m@ == self@[pos],
                None => !self@.dom().contains(pos),
            },
    {
        self.buffers.get(pos)
    }

    /// Every chunk coordinate with cached geometry, each exactly once.
    pub fn positions(&self) -> (ps: Vec<ChunkPos>)
        requires
            self.wf(),
        ensures
            forall|p: ChunkPos| #[trigger] ps@.contains(p) <==> self@.dom().contains(p),
            forall|i: int, j: int| 0 <= i < j < ps@.len() ==> ps@[i] != ps@[j],
    {
        self.buffers.keys()
    }
}

} // verus!
