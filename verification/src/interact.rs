use vstd::prelude::*;

use crate::chunk::VoxelType;
use crate::player::{Player, PlayerModel, PLAYER_POS_LIMIT};
use crate::raycast::RaycastHit;
use crate::world::{set_voxel_model, World};

verus! {

/// Whether the voxel cell at `(x, y, z)` strictly overlaps the player's
/// collision box on every axis.
pub open spec fn spec_cell_overlaps_player(st: PlayerModel, x: int, y: int, z: int) -> bool {
    &&& x * 1000 < st.position.0 + 250 && (x + 1) * 1000 > st.position.0 - 250
    &&& y * 1000 < st.position.1 + 900 && (y + 1) * 1000 > st.position.1 - 900
    &&& z * 1000 < st.position.2 + 250 && (z + 1) * 1000 > st.position.2 - 250
}

/// Whether placing a block in the cell `(x, y, z)` would intersect the
/// player's collision box.
pub fn is_position_inside_player(player: &Player, x: i32, y: i32, z: i32) -> (r: bool)
    requires
        player.wf(),
        -PLAYER_POS_LIMIT - 2000000000 <= player.position.0 <= PLAYER_POS_LIMIT + 2000000000,
        -PLAYER_POS_LIMIT - 2000000000 <= player.position.1 <= PLAYER_POS_LIMIT + 2000000000,
        -PLAYER_POS_LIMIT - 2000000000 <= player.position.2 <= PLAYER_POS_LIMIT + 2000000000,
    ensures
        r == spec_cell_overlaps_player(player@, x as int, y as int, z as int),
{
    let block_min_x = (x as i64) * 1000;
    let block_max_x = (x as i64 + 1) * 1000;
    let block_min_y = (y as i64) * 1000;
    let block_max_y = (y as i64 + 1) * 1000;
    let block_min_z = (z as i64) * 1000;
    let block_max_z = (z as i64 + 1) * 1000;

    let half_w: i64 = player.width / 2;
    let half_h: i64 = player.height / 2;
    assert(half_w == 250 && half_h == 900);

    let player_min_x = player.position.0 - half_w;
    let player_max_x = player.position.0 + half_w;
    let player_min_y = player.position.1 - half_h;
    let player_max_y = player.position.1 + half_h;
    let player_min_z = player.position.2 - half_w;
    let player_max_z = player.position.2 + half_w;

    block_min_x < player_max_x && block_max_x > player_min_x && block_min_y < player_max_y
        && block_max_y > player_min_y && block_min_z < player_max_z && block_max_z > player_min_z
}

/// Breaks the block a raycast selected: the struck cell becomes Air, and its
/// chunk is marked dirty.
pub fn break_block(world: &mut World, hit: &RaycastHit)
    requires
        old(world).wf(),
    ensures
        final(world).wf(),
        final(world)@ == set_voxel_model(
            old(world)@,
            hit.position.0,
            hit.position.1,
            hit.position.2,
            VoxelType::Air,
        ),
{
    world.set_voxel(hit.position.0, hit.position.1, hit.position.2, VoxelType::Air);
}

/// Places the held block in the cell adjacent to a raycast hit, through the
/// struck face — unless that cell would intersect the player's collision
/// box, in which case the world is left untouched. No other placement
/// validation is performed.
pub fn place_block(world: &mut World, player: &Player, hit: &RaycastHit, held: VoxelType)
    requires
        old(world).wf(),
        player.wf(),
        -1 <= hit.normal.0 <= 1,
        -1 <= hit.normal.1 <= 1,
        -1 <= hit.normal.2 <= 1,
        -2000000000 <= hit.position.0 <= 2000000000,
        -2000000000 <= hit.position.1 <= 2000000000,
        -2000000000 <= hit.position.2 <= 2000000000,
        -PLAYER_POS_LIMIT - 2000000000 <= player.position.0 <= PLAYER_POS_LIMIT + 2000000000,
        -PLAYER_POS_LIMIT - 2000000000 <= player.position.1 <= PLAYER_POS_LIMIT + 2000000000,
        -PLAYER_POS_LIMIT - 2000000000 <= player.position.2 <= PLAYER_POS_LIMIT + 2000000000,
    ensures
        final(world).wf(),
        ({
            let tx = hit.position.0 + hit.normal.0;
            let ty = hit.position.1 + hit.normal.1;
            let tz = hit.position.2 + hit.normal.2;
            if spec_cell_overlaps_player(player@, tx, ty, tz) {
                final(world)@ == old(world)@
            } else {
                final(world)@ == set_voxel_model(old(world)@, tx as i32, ty as i32, tz as i32, held)
            }
        }),
{
    let place_x = hit.position.0 + hit.normal.0;
    let place_y = hit.position.1 + hit.normal.1;
    let place_z = hit.position.2 + hit.normal.2;

    if !is_position_inside_player(player, place_x, place_y, place_z) {
        world.set_voxel(place_x, place_y, place_z, held);
    }
}

} // verus!
