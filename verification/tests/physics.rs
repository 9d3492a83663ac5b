use voxel_engine::chunk::{ChunkPos, VoxelType};
use voxel_engine::interact::{break_block, is_position_inside_player, place_block};
use voxel_engine::player::Player;
use voxel_engine::raycast::raycast_voxel;
use voxel_engine::world::World;

// Fractional world quantities are scaled integers: one voxel is 1000 units.

#[test]
fn raycast_hits_the_first_solid_voxel() {
    let mut world = World::new();
    world.set_voxel(0, 0, 0, VoxelType::Stone);

    // origin (0.5, 0.5, -5), direction (0, 0, 1), max distance 5.0
    let hit = raycast_voxel(&world, (500, 500, -5000), (0, 0, 1000), 5000)
        .expect("the ray reaches the stone voxel");
    assert_eq!(hit.position, (0, 0, 0));
    assert_eq!(hit.normal, (0, 0, -1));
    assert_eq!(hit.distance, 5000);
}

#[test]
fn raycast_respects_the_maximum_distance() {
    let mut world = World::new();
    world.set_voxel(0, 0, 0, VoxelType::Stone);
    let hit = raycast_voxel(&world, (500, 500, -5000), (0, 0, 1000), 4000);
    assert!(hit.is_none());
}

#[test]
fn raycast_through_empty_space_misses() {
    let world = World::new();
    assert!(raycast_voxel(&world, (500, 500, 500), (1000, 0, 0), 50000).is_none());
}

#[test]
fn raycast_diagonal_records_entry_face() {
    let mut world = World::new();
    // high above the generated terrain, so the surrounding cells are Air
    world.set_voxel(3, 85, 0, VoxelType::Stone);
    // mostly along +x with a slight +y drift, starting inside cell (0, 85, 0)
    let hit = raycast_voxel(&world, (500, 85100, 500), (999, 44, 0), 10000)
        .expect("the ray reaches the stone voxel");
    assert_eq!(hit.position, (3, 85, 0));
    assert_eq!(hit.normal, (-1, 0, 0));
}

#[test]
fn player_resting_on_ground_stays_put_under_gravity() {
    let mut world = World::new();
    // terrain below height zero is solid; the column above stays unloaded
    world.load_chunk(ChunkPos::new(0, -1, 0));

    // box bottom exactly on the boundary above cell row -1
    let mut player = Player::new((500, 900, 500));
    player.update(&world, 100);

    assert_eq!(player.velocity, (0, 0, 0));
    assert!(player.is_on_ground);
    // vertical position moved only by the resolution epsilon
    assert_eq!(player.position, (500, 901, 500));

    // a second step from the corrected position behaves the same
    player.update(&world, 100);
    assert_eq!(player.velocity, (0, 0, 0));
    assert!(player.is_on_ground);
    assert_eq!(player.position, (500, 901, 500));
}

#[test]
fn player_falls_freely_without_support() {
    let world = World::new();
    let mut player = Player::new((500, 10900, 500));
    player.update(&world, 100);
    // gravity for 0.1 s: velocity -981, movement floor(-98.1) = -99
    assert_eq!(player.velocity, (0, -981, 0));
    assert_eq!(player.position, (500, 10801, 500));
    assert!(!player.is_on_ground);
}

#[test]
fn update_clamps_the_time_step() {
    let world = World::new();
    let mut player = Player::new((500, 10900, 500));
    // a stalled frame: clamped to the 0.1 s ceiling
    player.update(&world, 5000);
    assert_eq!(player.velocity, (0, -981, 0));
    assert_eq!(player.position, (500, 10801, 500));
}

#[test]
fn placement_overlap_uses_the_player_box() {
    let player = Player::new((500, 900, 500));
    // the player's box spans cells (0, 0, 0) and (0, 1, 0)
    assert!(is_position_inside_player(&player, 0, 0, 0));
    assert!(is_position_inside_player(&player, 0, 1, 0));
    assert!(!is_position_inside_player(&player, 5, 0, 0));
    assert!(!is_position_inside_player(&player, 0, 3, 0));
}

#[test]
fn break_block_clears_the_struck_cell() {
    let mut world = World::new();
    world.set_voxel(0, 0, 0, VoxelType::Stone);
    let hit = raycast_voxel(&world, (500, 500, -5000), (0, 0, 1000), 5000)
        .expect("the ray reaches the stone voxel");
    break_block(&mut world, &hit);
    assert_eq!(world.get_voxel(0, 0, 0), Some(VoxelType::Air));
}

#[test]
fn place_block_fills_the_adjacent_cell() {
    let mut world = World::new();
    world.set_voxel(0, 0, 0, VoxelType::Stone);
    let hit = raycast_voxel(&world, (500, 500, -5000), (0, 0, 1000), 5000)
        .expect("the ray reaches the stone voxel");
    // the player stands far away: placement succeeds at (0, 0, -1)
    let player = Player::new((50000, 900, 50000));
    place_block(&mut world, &player, &hit, VoxelType::Dirt);
    assert_eq!(world.get_voxel(0, 0, -1), Some(VoxelType::Dirt));
}

#[test]
fn place_block_refuses_to_fill_the_player_box() {
    let mut world = World::new();
    world.set_voxel(0, 0, 0, VoxelType::Stone);
    let hit = raycast_voxel(&world, (500, 500, -5000), (0, 0, 1000), 5000)
        .expect("the ray reaches the stone voxel");
    // the player's box occupies the target cell (0, 0, -1)
    let player = Player::new((500, 900, -500));
    place_block(&mut world, &player, &hit, VoxelType::Dirt);
    assert_eq!(world.get_voxel(0, 0, -1), None);
}
