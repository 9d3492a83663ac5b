use voxel_engine::chunk::{Chunk, ChunkPos, VoxelType};
use voxel_engine::chunk_renderer::ChunkRenderer;
use voxel_engine::mesh::{ChunkMesh, ChunkMesher};
use voxel_engine::texture_atlas::{FaceDirection, TextureAtlas};
use voxel_engine::world::World;

#[test]
fn meshing_all_air_chunk_yields_zero_vertices() {
    let mesher = ChunkMesher::new();
    let chunk = Chunk::new();
    let mesh = mesher.generate_mesh(&chunk, ChunkPos::new(0, 0, 0));
    assert!(mesh.is_empty());
    assert_eq!(mesh.vertex_count(), 0);
}

#[test]
fn meshing_single_interior_voxel_yields_six_faces() {
    let mesher = ChunkMesher::new();
    let mut chunk = Chunk::new();
    chunk.set_voxel(8, 8, 8, VoxelType::Stone);
    let mesh = mesher.generate_mesh(&chunk, ChunkPos::new(0, 0, 0));
    // six faces, two triangles each: 36 vertices
    assert_eq!(mesh.vertex_count(), 36);
}

#[test]
fn meshing_culls_faces_between_adjacent_voxels() {
    let mesher = ChunkMesher::new();
    let mut chunk = Chunk::new();
    chunk.set_voxel(8, 8, 8, VoxelType::Stone);
    chunk.set_voxel(9, 8, 8, VoxelType::Stone);
    let mesh = mesher.generate_mesh(&chunk, ChunkPos::new(0, 0, 0));
    // ten visible faces: each cube hides the face toward its neighbor
    assert_eq!(mesh.vertex_count(), 60);
}

#[test]
fn mesh_vertices_carry_world_offset_and_normals() {
    let mesher = ChunkMesher::new();
    let mut chunk = Chunk::new();
    chunk.set_voxel(0, 0, 0, VoxelType::Stone);
    let mesh = mesher.generate_mesh(&chunk, ChunkPos::new(1, 0, 0));
    assert_eq!(mesh.vertex_count(), 36);
    // faces come in the order North, South, East, West, Top, Bottom;
    // the first North vertex is the bottom-left corner of the far face of
    // the cube at world cell (16, 0, 0)
    let v0 = mesh.vertex(0);
    assert_eq!(v0.position, (16, 0, 1));
    assert_eq!(v0.normal, (0, 0, 1));
    // Stone sits on atlas tile (2, 0); the first quad corner's UV numerators
    // are (tile u, tile v + 1) over the atlas tile count
    assert_eq!(v0.tex_coords, (2, 1));
    assert_eq!(mesher.tile_count(), 16);
}

#[test]
fn grass_top_tile_differs_and_bottom_matches_dirt() {
    let top = VoxelType::Grass.texture_coords(&FaceDirection::Top);
    let bottom = VoxelType::Grass.texture_coords(&FaceDirection::Bottom);
    assert_ne!(top, bottom);
    for face in [
        FaceDirection::North,
        FaceDirection::South,
        FaceDirection::East,
        FaceDirection::West,
        FaceDirection::Top,
        FaceDirection::Bottom,
    ] {
        assert_eq!(VoxelType::Dirt.texture_coords(&face), bottom);
    }
}

#[test]
fn atlas_uvs_span_one_tile() {
    let atlas = TextureAtlas::new(256, 16);
    let uvs = atlas.get_uvs(VoxelType::Stone, FaceDirection::North);
    // numerators over 16: the quad spans tile (2, 0)
    assert_eq!(uvs[0], (2, 1));
    assert_eq!(uvs[1], (3, 1));
    assert_eq!(uvs[2], (3, 0));
    assert_eq!(uvs[3], (2, 1));
    assert_eq!(uvs[4], (3, 0));
    assert_eq!(uvs[5], (2, 0));
    assert_eq!(atlas.tile_count(), 16);
}

#[test]
fn chunk_mesh_clear_empties_the_list() {
    let mut mesh = ChunkMesh::new();
    assert!(mesh.is_empty());
    let mesher = ChunkMesher::new();
    let mut chunk = Chunk::new();
    chunk.set_voxel(1, 1, 1, VoxelType::Dirt);
    let mut mesh2 = mesher.generate_mesh(&chunk, ChunkPos::new(0, 0, 0));
    assert!(!mesh2.is_empty());
    mesh2.clear();
    assert!(mesh2.is_empty());
    mesh.clear();
    assert_eq!(mesh.vertex_count(), 0);
}

#[test]
fn render_cache_tracks_dirty_chunks() {
    let mut world = World::new();
    let mut renderer = ChunkRenderer::new();
    let pos = ChunkPos::new(0, 5, 0);

    // an all-air chunk yields no cached geometry
    world.load_chunk(pos);
    renderer.update(&mut world);
    assert!(renderer.get_mesh(pos).is_none());
    assert_eq!(renderer.positions().len(), 0);

    // a solid voxel produces geometry on the next update tick
    world.set_voxel(5, 85, 5, VoxelType::Stone);
    renderer.update(&mut world);
    let mesh = renderer.get_mesh(pos).expect("geometry for the dirty chunk");
    assert_eq!(mesh.vertex_count(), 36);
    assert_eq!(renderer.positions(), vec![pos]);

    // emptying the chunk again removes its geometry
    world.set_voxel(5, 85, 5, VoxelType::Air);
    renderer.update(&mut world);
    assert!(renderer.get_mesh(pos).is_none());
}

#[test]
fn render_cache_drops_geometry_of_unloaded_chunks() {
    let mut world = World::new();
    let mut renderer = ChunkRenderer::new();
    let pos = ChunkPos::new(0, 5, 0);

    world.set_voxel(5, 85, 5, VoxelType::Stone);
    renderer.update(&mut world);
    assert!(renderer.get_mesh(pos).is_some());

    // mark it dirty again, then unload before the tick: no stale geometry
    world.set_voxel(6, 85, 5, VoxelType::Stone);
    world.unload_chunk(pos);
    renderer.update(&mut world);
    assert!(renderer.get_mesh(pos).is_none());
}
