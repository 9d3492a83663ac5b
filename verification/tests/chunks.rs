use voxel_engine::chunk::{get_chunk_index, split_world_coord, Chunk, ChunkPos, VoxelType};
use voxel_engine::world::World;

#[test]
fn chunk_index_is_flat_row_major() {
    assert_eq!(get_chunk_index(0, 0, 0), 0);
    assert_eq!(get_chunk_index(1, 0, 0), 1);
    assert_eq!(get_chunk_index(0, 1, 0), 16);
    assert_eq!(get_chunk_index(0, 0, 1), 256);
    assert_eq!(get_chunk_index(1, 2, 3), 1 + 2 * 16 + 3 * 256);
    assert_eq!(get_chunk_index(15, 15, 15), 4095);
}

#[test]
fn new_chunk_is_all_air() {
    let chunk = Chunk::new();
    for z in 0..16 {
        for y in 0..16 {
            for x in 0..16 {
                assert!(matches!(chunk.get_voxel(x, y, z), Some(VoxelType::Air)));
            }
        }
    }
}

#[test]
fn chunk_set_then_get_returns_written_type() {
    let mut chunk = Chunk::new();
    chunk.set_voxel(3, 4, 5, VoxelType::Stone);
    assert_eq!(chunk.get_voxel(3, 4, 5), Some(VoxelType::Stone));
    assert_eq!(chunk.get_voxel(4, 3, 5), Some(VoxelType::Air));
}

#[test]
fn world_coord_split_recovers_coordinate() {
    // chunk_coord * 16 + local == w, including negative w
    for &w in &[-33i32, -17, -16, -1, 0, 1, 15, 16, 17, 1000] {
        let (c, l) = split_world_coord(w);
        assert!(l < 16);
        assert_eq!(c as i64 * 16 + l as i64, w as i64);
    }
    assert_eq!(split_world_coord(-1), (-1, 15));
    assert_eq!(split_world_coord(-16), (-1, 0));
    assert_eq!(split_world_coord(16), (1, 0));
}

#[test]
fn world_set_then_get_across_chunk_boundaries() {
    let mut world = World::new();
    world.set_voxel(5, 3, 7, VoxelType::Stone);
    assert_eq!(world.get_voxel(5, 3, 7), Some(VoxelType::Stone));

    // negative coordinates map into the correct chunk
    world.set_voxel(-1, -17, -33, VoxelType::Dirt);
    assert_eq!(world.get_voxel(-1, -17, -33), Some(VoxelType::Dirt));
    assert!(world.get_chunk(ChunkPos::new(-1, -2, -3)).is_some());

    // an untouched region is absent, not Air
    assert_eq!(world.get_voxel(1000, 1000, 1000), None);
}

#[test]
fn load_chunk_is_idempotent() {
    let mut world = World::new();
    let pos = ChunkPos::new(0, 0, 0);
    world.load_chunk(pos);
    let before: Vec<Option<VoxelType>> =
        (0..16).map(|y| world.get_voxel(3, y, 3)).collect();
    world.load_chunk(pos);
    let after: Vec<Option<VoxelType>> =
        (0..16).map(|y| world.get_voxel(3, y, 3)).collect();
    assert_eq!(before, after);

    // loading twice leaves exactly one dirty mark
    let dirty = world.take_dirty_chunks();
    assert_eq!(dirty.len(), 1);
    assert_eq!(dirty[0], pos);

    // loading again after the drain is a no-op: no new mark, same contents
    world.load_chunk(pos);
    assert_eq!(world.take_dirty_chunks().len(), 0);
}

#[test]
fn generated_terrain_is_layered_by_height() {
    let mut world = World::new();
    world.load_chunk(ChunkPos::new(0, 0, 0));
    world.load_chunk(ChunkPos::new(0, -1, 0));
    assert_eq!(world.get_voxel(8, 0, 8), Some(VoxelType::Grass));
    assert_eq!(world.get_voxel(8, 1, 8), Some(VoxelType::Air));
    assert_eq!(world.get_voxel(8, -1, 8), Some(VoxelType::Dirt));
    assert_eq!(world.get_voxel(8, -3, 8), Some(VoxelType::Dirt));
    assert_eq!(world.get_voxel(8, -4, 8), Some(VoxelType::Stone));
    assert_eq!(world.get_voxel(8, -16, 8), Some(VoxelType::Stone));
}

#[test]
fn dirty_mark_appears_exactly_once_per_chunk() {
    let mut world = World::new();
    world.set_voxel(1, 1, 1, VoxelType::Stone);
    world.set_voxel(2, 2, 2, VoxelType::Dirt);
    world.set_voxel(3, 3, 3, VoxelType::Grass);
    let dirty = world.take_dirty_chunks();
    assert_eq!(dirty.len(), 1);
    assert_eq!(dirty[0], ChunkPos::new(0, 0, 0));

    // drained once: the set is empty afterwards
    assert_eq!(world.take_dirty_chunks().len(), 0);

    // writes into two different chunks leave two marks
    world.set_voxel(0, 0, 0, VoxelType::Stone);
    world.set_voxel(16, 0, 0, VoxelType::Stone);
    let dirty = world.take_dirty_chunks();
    assert_eq!(dirty.len(), 2);
}

#[test]
fn unload_chunk_makes_region_absent() {
    let mut world = World::new();
    world.set_voxel(1, 1, 1, VoxelType::Stone);
    assert_eq!(world.get_voxel(1, 1, 1), Some(VoxelType::Stone));
    world.unload_chunk(ChunkPos::new(0, 0, 0));
    assert_eq!(world.get_voxel(1, 1, 1), None);
}
