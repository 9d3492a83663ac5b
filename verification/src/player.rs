use vstd::prelude::*;

use crate::units::{cell_offset, floor_div_unit, voxel_of};
use crate::world::{solid_at, World, WorldModel};

verus! {

/// Gravity, in thousandths of a voxel per second per second.
pub const GRAVITY: i64 = -9810;

/// Ceiling on the elapsed time a single step may integrate, in thousandths
/// of a second: a stalled frame cannot tunnel the player through terrain.
pub const MAX_TIME_STEP: i64 = 100;

/// The player box's full width (and depth), scaled.
pub const PLAYER_WIDTH: i64 = 500;

/// The player box's full height, scaled.
pub const PLAYER_HEIGHT: i64 = 1800;

/// Pushed this far beyond the contact plane after a correction, to avoid
/// immediate re-penetration.
pub const COLLISION_EPSILON: i64 = 1;

/// Largest scaled magnitude a player position component may have on entry
/// to a step.
pub const PLAYER_POS_LIMIT: i64 = 1000000000000;

/// Largest scaled magnitude a player velocity component may have on entry
/// to a step.
pub const PLAYER_VEL_LIMIT: i64 = 1000000000;

/// The axes, in the fixed resolution order.
#[derive(Clone, Copy, PartialEq, Eq, Structural, Debug)]
pub enum Axis {
    X,
    Y,
    Z,
}

/// Mathematical state of the player: scaled position and velocity, and the
/// grounded flag.
pub struct PlayerModel {
    pub position: (int, int, int),
    pub velocity: (int, int, int),
    pub on_ground: bool,
}

/// The smaller of two integers.
pub open spec fn spec_min2(a: int, b: int) -> int {
    if a <= b {
        a
    } else {
        b
    }
}

/// Collision response of one scanned cell: if the cell is solid and its
/// volume overlaps the player box, and the scanned axis has the (weakly)
/// smallest penetration, the player is pushed out on that axis through the
/// nearer face plus an epsilon, the axis velocity is zeroed, and an upward
/// vertical push sets the grounded flag.
pub open spec fn spec_cell_resolve(
    m: WorldModel,
    axis: Axis,
    st: PlayerModel,
    x: int,
    y: int,
    z: int,
) -> PlayerModel {
    if !solid_at(m, x, y, z) {
        st
    } else {
        let p_min_x = st.position.0 - 250;
        let p_max_x = st.position.0 + 250;
        let p_min_y = st.position.1 - 900;
        let p_max_y = st.position.1 + 900;
        let p_min_z = st.position.2 - 250;
        let p_max_z = st.position.2 + 250;
        let v_min_x = x * 1000;
        let v_max_x = (x + 1) * 1000;
        let v_min_y = y * 1000;
        let v_max_y = (y + 1) * 1000;
        let v_min_z = z * 1000;
        let v_max_z = (z + 1) * 1000;
        if p_min_x < v_max_x && p_max_x > v_min_x && p_min_y < v_max_y && p_max_y > v_min_y
            && p_min_z < v_max_z && p_max_z > v_min_z {
            let pen_x = spec_min2(p_max_x - v_min_x, v_max_x - p_min_x);
            let pen_y = spec_min2(p_max_y - v_min_y, v_max_y - p_min_y);
            let pen_z = spec_min2(p_max_z - v_min_z, v_max_z - p_min_z);
            match axis {
                Axis::X => if pen_x <= pen_y && pen_x <= pen_z {
                    let pen_from_right = p_max_x - v_min_x;
                    let pen_from_left = v_max_x - p_min_x;
                    if pen_from_right < pen_from_left {
                        PlayerModel {
                            position: (
                                st.position.0 - (pen_from_right + 1),
                                st.position.1,
                                st.position.2,
                            ),
                            velocity: (0, st.velocity.1, st.velocity.2),
                            on_ground: st.on_ground,
                        }
                    } else {
                        PlayerModel {
                            position: (
                                st.position.0 + (pen_from_left + 1),
                                st.position.1,
                                st.position.2,
                            ),
                            velocity: (0, st.velocity.1, st.velocity.2),
                            on_ground: st.on_ground,
                        }
                    }
                } else {
                    st
                },
                Axis::Y => if pen_y <= pen_x && pen_y <= pen_z {
                    let pen_from_top = p_max_y - v_min_y;
                    let pen_from_bottom = v_max_y - p_min_y;
                    if pen_from_top < pen_from_bottom {
                        PlayerModel {
                            position: (
                                st.position.0,
                                st.position.1 - (pen_from_top + 1),
                                st.position.2,
                            ),
                            velocity: (st.velocity.0, 0, st.velocity.2),
                            on_ground: st.on_ground,
                        }
                    } else {
                        PlayerModel {
                            position: (
                                st.position.0,
                                st.position.1 + (pen_from_bottom + 1),
                                st.position.2,
                            ),
                            velocity: (st.velocity.0, 0, st.velocity.2),
                            on_ground: true,
                        }
                    }
                } else {
                    st
                },
                Axis::Z => if pen_z <= pen_x && pen_z <= pen_y {
                    let pen_from_front = p_max_z - v_min_z;
                    let pen_from_back = v_max_z - p_min_z;
                    if pen_from_front < pen_from_back {
                        PlayerModel {
                            position: (
                                st.position.0,
                                st.position.1,
                                st.position.2 - (pen_from_front + 1),
                            ),
                            velocity: (st.velocity.0, st.velocity.1, 0),
                            on_ground: st.on_ground,
                        }
                    } else {
                        PlayerModel {
                            position: (
                                st.position.0,
                                st.position.1,
                                st.position.2 + (pen_from_back + 1),
                            ),
                            velocity: (st.velocity.0, st.velocity.1, 0),
                            on_ground: st.on_ground,
                        }
                    }
                } else {
                    st
                },
            }
        } else {
            st
        }
    }
}

/// State after scanning cells `x ..= x_end` of one row, in order.
pub open spec fn spec_resolve_row(
    m: WorldModel,
    axis: Axis,
    st: PlayerModel,
    x: int,
    x_end: int,
    y: int,
    z: int,
) -> PlayerModel
    decreases x_end - x + 1,
{
    if x > x_end {
        st
    } else {
        spec_resolve_row(m, axis, spec_cell_resolve(m, axis, st, x, y, z), x + 1, x_end, y, z)
    }
}

/// State after scanning rows `y ..= y_end` of one slice, in order.
pub open spec fn spec_resolve_slice(
    m: WorldModel,
    axis: Axis,
    st: PlayerModel,
    y: int,
    y_end: int,
    x_min: int,
    x_max: int,
    z: int,
) -> PlayerModel
    decreases y_end - y + 1,
{
    if y > y_end {
        st
    } else {
        spec_resolve_slice(
            m,
            axis,
            spec_resolve_row(m, axis, st, x_min, x_max, y, z),
            y + 1,
            y_end,
            x_min,
            x_max,
            z,
        )
    }
}

/// State after scanning slices `z ..= z_end`, in order.
pub open spec fn spec_resolve_slices(
    m: WorldModel,
    axis: Axis,
    st: PlayerModel,
    z: int,
    z_end: int,
    y_min: int,
    y_max: int,
    x_min: int,
    x_max: int,
) -> PlayerModel
    decreases z_end - z + 1,
{
    if z > z_end {
        st
    } else {
        spec_resolve_slices(
            m,
            axis,
            spec_resolve_slice(m, axis, st, y_min, y_max, x_min, x_max, z),
            z + 1,
            z_end,
            y_min,
            y_max,
            x_min,
            x_max,
        )
    }
}

/// One axis' resolution pass: every voxel whose volume can overlap the box
/// at the pass' entry position is scanned in z-outer, y-middle, x-inner
/// order, threading the corrected state through.
pub open spec fn spec_resolve_axis(m: WorldModel, axis: Axis, st: PlayerModel) -> PlayerModel {
    let x_min = voxel_of(st.position.0 - 250);
    let x_max = voxel_of(st.position.0 + 250);
    let y_min = voxel_of(st.position.1 - 900);
    let y_max = voxel_of(st.position.1 + 900);
    let z_min = voxel_of(st.position.2 - 250);
    let z_max = voxel_of(st.position.2 + 250);
    spec_resolve_slices(m, axis, st, z_min, z_max, y_min, y_max, x_min, x_max)
}

/// One full simulation step: clamp the elapsed time, reset the grounded
/// flag, integrate gravity into vertical velocity, then move and resolve one
/// axis at a time in the fixed order X, Y, Z, with the desired movement
/// taken from the post-gravity velocity.
pub open spec fn spec_player_step(st: PlayerModel, m: WorldModel, dt: int) -> PlayerModel {
    let dtc = if dt > 100 {
        100
    } else {
        dt
    };
    let st0 = PlayerModel {
        position: st.position,
        velocity: (st.velocity.0, st.velocity.1 + (-9810 * dtc) / 1000, st.velocity.2),
        on_ground: false,
    };
    let mv = (
        (st0.velocity.0 * dtc) / 1000,
        (st0.velocity.1 * dtc) / 1000,
        (st0.velocity.2 * dtc) / 1000,
    );
    let st1 = spec_resolve_axis(
        m,
        Axis::X,
        PlayerModel {
            position: (st0.position.0 + mv.0, st0.position.1, st0.position.2),
            ..st0
        },
    );
    let st2 = spec_resolve_axis(
        m,
        Axis::Y,
        PlayerModel {
            position: (st1.position.0, st1.position.1 + mv.1, st1.position.2),
            ..st1
        },
    );
    let st3 = spec_resolve_axis(
        m,
        Axis::Z,
        PlayerModel {
            position: (st2.position.0, st2.position.1, st2.position.2 + mv.2),
            ..st2
        },
    );
    st3
}

/// A resolution pass over a box spanning one voxel column horizontally and
/// two clear rows vertically changes nothing.
proof fn lemma_axis_pass_two_clear_rows(
    m: WorldModel,
    axis: Axis,
    st: PlayerModel,
    cx: int,
    y0: int,
    cz: int,
)
    requires
        !solid_at(m, cx, y0, cz),
        !solid_at(m, cx, y0 + 1, cz),
        voxel_of(st.position.0 - 250) == cx,
        voxel_of(st.position.0 + 250) == cx,
        voxel_of(st.position.1 - 900) == y0,
        voxel_of(st.position.1 + 900) == y0 + 1,
        voxel_of(st.position.2 - 250) == cz,
        voxel_of(st.position.2 + 250) == cz,
    ensures
        spec_resolve_axis(m, axis, st) == st,
{
    assert(spec_resolve_row(m, axis, st, cx + 1, cx, y0, cz) == st);
    assert(spec_cell_resolve(m, axis, st, cx, y0, cz) == st);
    assert(spec_resolve_row(m, axis, st, cx, cx, y0, cz) == st);
    assert(spec_resolve_row(m, axis, st, cx + 1, cx, y0 + 1, cz) == st);
    assert(spec_cell_resolve(m, axis, st, cx, y0 + 1, cz) == st);
    assert(spec_resolve_row(m, axis, st, cx, cx, y0 + 1, cz) == st);
    assert(spec_resolve_slice(m, axis, st, y0 + 2, y0 + 1, cx, cx, cz) == st);
    assert(spec_resolve_slice(m, axis, st, y0 + 1, y0 + 1, cx, cx, cz) == st);
    assert(spec_resolve_slice(m, axis, st, y0, y0 + 1, cx, cx, cz) == st);
    assert(spec_resolve_slices(m, axis, st, cz + 1, cz, y0, y0 + 1, cx, cx) == st);
    assert(spec_resolve_slices(m, axis, st, cz, cz, y0, y0 + 1, cx, cx) == st);
}

/// The player box rests exactly on top of solid ground: its bottom sits on
/// a cell boundary, it spans a single voxel column horizontally, the cell
/// directly below it is solid, and the two column cells its body occupies
/// are clear.
pub open spec fn spec_resting_on_ground(m: WorldModel, st: PlayerModel) -> bool {
    let cx = voxel_of(st.position.0 - 250);
    let k = voxel_of(st.position.1 - 900);
    let cz = voxel_of(st.position.2 - 250);
    &&& cell_offset(st.position.1 - 900) == 0
    &&& voxel_of(st.position.0 + 250) == cx
    &&& voxel_of(st.position.2 + 250) == cz
    &&& solid_at(m, cx, k - 1, cz)
    &&& !solid_at(m, cx, k, cz)
    &&& !solid_at(m, cx, k + 1, cz)
}

/// A player box resting exactly on top of a solid voxel, given zero
/// horizontal velocity and gravity active for one step, ends the step with
/// zero vertical velocity, the grounded flag set, and its vertical position
/// moved only by the resolution epsilon.
#[verifier::rlimit(100)]
pub proof fn lemma_step_resting_on_ground(m: WorldModel, st: PlayerModel, dt: int)
    requires
        spec_resting_on_ground(m, st),
        st.velocity == (0int, 0int, 0int),
        1 <= dt <= 100,
    ensures
        spec_player_step(st, m, dt) == (PlayerModel {
            position: (st.position.0, st.position.1 + COLLISION_EPSILON as int, st.position.2),
            velocity: (0int, 0int, 0int),
            on_ground: true,
        }),
{
    let p0 = st.position.0;
    let p1 = st.position.1;
    let p2 = st.position.2;
    let cx = voxel_of(p0 - 250);
    let k = voxel_of(p1 - 900);
    let cz = voxel_of(p2 - 250);
    crate::units::lemma_unit_roundtrip(p0 - 250);
    crate::units::lemma_unit_roundtrip(p0 + 250);
    crate::units::lemma_unit_roundtrip(p1 - 900);
    crate::units::lemma_unit_roundtrip(p2 - 250);
    crate::units::lemma_unit_roundtrip(p2 + 250);
    assert(p1 - 900 == 1000 * k);
    assert(1000 * cx <= p0 - 250);
    assert(p0 + 250 <= 1000 * cx + 999);
    assert(1000 * cz <= p2 - 250);
    assert(p2 + 250 <= 1000 * cz + 999);

    // gravity for one clamped step, and the resulting downward movement
    let g = (-9810 * dt) / 1000;
    crate::units::lemma_unit_roundtrip(-9810 * dt);
    assert(-981 <= g <= -10);
    let s_move = (g * dt) / 1000;
    assert(-98100 <= g * dt <= -10) by (nonlinear_arith)
        requires
            -981 <= g <= -10,
            1 <= dt <= 100,
    ;
    crate::units::lemma_unit_roundtrip(g * dt);
    assert(-99 <= s_move <= -1);
    let s = -s_move;

    let st0 = PlayerModel { position: st.position, velocity: (0int, g, 0int), on_ground: false };
    assert(0int * dt == 0) by (nonlinear_arith);
    assert(0int / 1000 == 0);

    // the X pass sees the resting box: one column, two clear rows
    crate::units::lemma_voxel_of_exact(k + 1, 800);
    assert(p1 + 900 == 1000 * (k + 1) + 800);
    assert(voxel_of(st0.position.1 + 900) == k + 1);
    lemma_axis_pass_two_clear_rows(m, Axis::X, st0, cx, k, cz);
    assert(spec_resolve_axis(
        m,
        Axis::X,
        PlayerModel { position: (st0.position.0 + 0, st0.position.1, st0.position.2), ..st0 },
    ) == st0);

    // the Y pass: the box has sunk by `s` into the support row and is pushed
    // back out
    let st_b = PlayerModel { position: (p0, p1 + s_move, p2), velocity: (0int, g, 0int), on_ground: false };
    crate::units::lemma_voxel_of_exact(k - 1, 1000 - s);
    assert(st_b.position.1 - 900 == 1000 * (k - 1) + (1000 - s));
    assert(voxel_of(st_b.position.1 - 900) == k - 1);
    crate::units::lemma_voxel_of_exact(k + 1, 800 - s);
    assert(st_b.position.1 + 900 == 1000 * (k + 1) + (800 - s));
    assert(voxel_of(st_b.position.1 + 900) == k + 1);

    let st_c = PlayerModel {
        position: (p0, p1 + 1, p2),
        velocity: (0int, 0int, 0int),
        on_ground: true,
    };
    assert(spec_cell_resolve(m, Axis::Y, st_b, cx, k - 1, cz) == st_c) by {
        assert(solid_at(m, cx, k - 1, cz));
        assert((k - 1) * 1000 == 1000 * k - 1000);
        assert(((k - 1) + 1) * 1000 == 1000 * k);
        assert(st_b.position.1 - 900 == 1000 * k - s);
        assert(st_b.position.1 + 900 == 1000 * k + 1800 - s);
        assert((cx + 1) * 1000 == 1000 * cx + 1000);
        assert((cz + 1) * 1000 == 1000 * cz + 1000);
    }
    assert(spec_resolve_row(m, Axis::Y, st_c, cx + 1, cx, k - 1, cz) == st_c);
    assert(spec_resolve_row(m, Axis::Y, st_b, cx, cx, k - 1, cz) == st_c);
    assert(spec_cell_resolve(m, Axis::Y, st_c, cx, k, cz) == st_c);
    assert(spec_resolve_row(m, Axis::Y, st_c, cx + 1, cx, k, cz) == st_c);
    assert(spec_resolve_row(m, Axis::Y, st_c, cx, cx, k, cz) == st_c);
    assert(spec_cell_resolve(m, Axis::Y, st_c, cx, k + 1, cz) == st_c);
    assert(spec_resolve_row(m, Axis::Y, st_c, cx + 1, cx, k + 1, cz) == st_c);
    assert(spec_resolve_row(m, Axis::Y, st_c, cx, cx, k + 1, cz) == st_c);
    assert(spec_resolve_slice(m, Axis::Y, st_c, k + 2, k + 1, cx, cx, cz) == st_c);
    assert(spec_resolve_slice(m, Axis::Y, st_c, k + 1, k + 1, cx, cx, cz) == st_c);
    assert(spec_resolve_slice(m, Axis::Y, st_c, k, k + 1, cx, cx, cz) == st_c);
    assert(spec_resolve_slice(m, Axis::Y, st_b, k - 1, k + 1, cx, cx, cz) == st_c);
    assert(spec_resolve_slices(m, Axis::Y, st_c, cz + 1, cz, k - 1, k + 1, cx, cx) == st_c);
    assert(spec_resolve_slices(m, Axis::Y, st_b, cz, cz, k - 1, k + 1, cx, cx) == st_c);
    assert(spec_resolve_axis(m, Axis::Y, st_b) == st_c);

    // the Z pass sees the corrected box: one column, two clear rows again
    crate::units::lemma_voxel_of_exact(k, 1);
    assert(st_c.position.1 - 900 == 1000 * k + 1);
    assert(voxel_of(st_c.position.1 - 900) == k);
    crate::units::lemma_voxel_of_exact(k + 1, 801);
    assert(st_c.position.1 + 900 == 1000 * (k + 1) + 801);
    assert(voxel_of(st_c.position.1 + 900) == k + 1);
    lemma_axis_pass_two_clear_rows(m, Axis::Z, st_c, cx, k, cz);
    assert(spec_resolve_axis(
        m,
        Axis::Z,
        PlayerModel { position: (st_c.position.0, st_c.position.1, st_c.position.2 + 0), ..st_c },
    ) == st_c);
}

/// An axis-aligned box with fixed half-extents, centered on a scaled
/// position, with a velocity vector and a grounded flag. Created once at
/// spawn and stepped every simulation tick.
pub struct Player {
    pub position: (i64, i64, i64),
    pub velocity: (i64, i64, i64),
    pub width: i64,
    pub height: i64,
    pub is_on_ground: bool,
}

impl View for Player {
    type V = PlayerModel;

    open spec fn view(&self) -> PlayerModel {
        PlayerModel {
            position: (self.position.0 as int, self.position.1 as int, self.position.2 as int),
            velocity: (self.velocity.0 as int, self.velocity.1 as int, self.velocity.2 as int),
            on_ground: self.is_on_ground,
        }
    }
}

impl Player {
    /// The box dimensions are the fixed player extents.
    pub open spec fn wf(&self) -> bool {
        self.width == PLAYER_WIDTH && self.height == PLAYER_HEIGHT
    }

    /// A freshly spawned player: at `position`, motionless, airborne.
    pub fn new(position: (i64, i64, i64)) -> (p: Player)
        ensures
            p.wf(),
            p@ == (PlayerModel {
                position: (position.0 as int, position.1 as int, position.2 as int),
                velocity: (0, 0, 0),
                on_ground: false,
            }),
    {
        Player {
            position,
            velocity: (0, 0, 0),
            width: PLAYER_WIDTH,
            height: PLAYER_HEIGHT,
            is_on_ground: false,
        }
    }

    /// One axis' collision pass over the world, read-only on the terrain.
    #[verifier::loop_isolation(false)]
    #[verifier::rlimit(100)]
    fn resolve_collisions(&mut self, world: &World, axis: Axis)
        requires
            old(self).wf(),
            world.wf(),
            -PLAYER_POS_LIMIT - 1000000000 <= old(self).position.0 <= PLAYER_POS_LIMIT
                + 1000000000,
            -PLAYER_POS_LIMIT - 1000000000 <= old(self).position.1 <= PLAYER_POS_LIMIT
                + 1000000000,
            -PLAYER_POS_LIMIT - 1000000000 <= old(self).position.2 <= PLAYER_POS_LIMIT
                + 1000000000,
        ensures
            final(self).wf(),
            final(self)@ == spec_resolve_axis(world@, axis, old(self)@),
            final(self).width == old(self).width,
            final(self).height == old(self).height,
            final(self).position.0 - old(self).position.0 <= 100000
                && old(self).position.0 - final(self).position.0 <= 100000,
            final(self).position.1 - old(self).position.1 <= 100000
                && old(self).position.1 - final(self).position.1 <= 100000,
            final(self).position.2 - old(self).position.2 <= 100000
                && old(self).position.2 - final(self).position.2 <= 100000,
    {
        let ghost m = world@;
        let ghost target = spec_resolve_axis(world@, axis, old(self)@);
        let ghost p0 = old(self)@.position;

        let half_w: i64 = self.width / 2;
        let half_h: i64 = self.height / 2;
        assert(half_w == 250 && half_h == 900);

        let min_x_voxel = floor_div_unit(self.position.0 - half_w);
        let max_x_voxel = floor_div_unit(self.position.0 + half_w);
        let min_y_voxel = floor_div_unit(self.position.1 - half_h);
        let max_y_voxel = floor_div_unit(self.position.1 + half_h);
        let min_z_voxel = floor_div_unit(self.position.2 - half_w);
        let max_z_voxel = floor_div_unit(self.position.2 + half_w);

        proof {
            crate::units::lemma_unit_roundtrip(old(self).position.0 - 250);
            crate::units::lemma_unit_roundtrip(old(self).position.0 + 250);
            crate::units::lemma_unit_roundtrip(old(self).position.1 - 900);
            crate::units::lemma_unit_roundtrip(old(self).position.1 + 900);
            crate::units::lemma_unit_roundtrip(old(self).position.2 - 250);
            crate::units::lemma_unit_roundtrip(old(self).position.2 + 250);
            assert(min_x_voxel <= max_x_voxel && max_x_voxel - min_x_voxel <= 1);
            assert(min_y_voxel <= max_y_voxel && max_y_voxel - min_y_voxel <= 2);
            assert(min_z_voxel <= max_z_voxel && max_z_voxel - min_z_voxel <= 1);
        }

        let mut z = min_z_voxel;
        while z <= max_z_voxel
            invariant
                min_z_voxel <= z <= max_z_voxel + 1,
                self.wf(),
                self.width == old(self).width,
                self.height == old(self).height,
                self.position.0 - p0.0 <= 18000 * (z - min_z_voxel)
                    && p0.0 - self.position.0 <= 18000 * (z - min_z_voxel),
                self.position.1 - p0.1 <= 18000 * (z - min_z_voxel)
                    && p0.1 - self.position.1 <= 18000 * (z - min_z_voxel),
                self.position.2 - p0.2 <= 18000 * (z - min_z_voxel)
                    && p0.2 - self.position.2 <= 18000 * (z - min_z_voxel),
                spec_resolve_slices(
                    m,
                    axis,
                    self@,
                    z as int,
                    max_z_voxel as int,
                    min_y_voxel as int,
                    max_y_voxel as int,
                    min_x_voxel as int,
                    max_x_voxel as int,
                ) == target,
            decreases max_z_voxel + 1 - z,
        {
            let ghost slice_target = spec_resolve_slice(
                m,
                axis,
                self@,
                min_y_voxel as int,
                max_y_voxel as int,
                min_x_voxel as int,
                max_x_voxel as int,
                z as int,
            );
            let ghost zbase = (z - min_z_voxel) as int;
            let mut y = min_y_voxel;
            while y <= max_y_voxel
                invariant
                    min_y_voxel <= y <= max_y_voxel + 1,
                    self.wf(),
                    self.width == old(self).width,
                    self.height == old(self).height,
                    self.position.0 - p0.0 <= 18000 * zbase + 6000 * (y - min_y_voxel)
                        && p0.0 - self.position.0 <= 18000 * zbase + 6000 * (y - min_y_voxel),
                    self.position.1 - p0.1 <= 18000 * zbase + 6000 * (y - min_y_voxel)
                        && p0.1 - self.position.1 <= 18000 * zbase + 6000 * (y - min_y_voxel),
                    self.position.2 - p0.2 <= 18000 * zbase + 6000 * (y - min_y_voxel)
                        && p0.2 - self.position.2 <= 18000 * zbase + 6000 * (y - min_y_voxel),
                    spec_resolve_slice(
                        m,
                        axis,
                        self@,
                        y as int,
                        max_y_voxel as int,
                        min_x_voxel as int,
                        max_x_voxel as int,
                        z as int,
                    ) == slice_target,
                decreases max_y_voxel + 1 - y,
            {
                let ghost row_target = spec_resolve_row(
                    m,
                    axis,
                    self@,
                    min_x_voxel as int,
                    max_x_voxel as int,
                    y as int,
                    z as int,
                );
                let ghost ybase = 18000 * zbase + 6000 * ((y - min_y_voxel) as int);
                let mut x = min_x_voxel;
                while x <= max_x_voxel
                    invariant
                        min_x_voxel <= x <= max_x_voxel + 1,
                        self.wf(),
                        self.width == old(self).width,
                        self.height == old(self).height,
                        self.position.0 - p0.0 <= ybase + 3000 * (x - min_x_voxel)
                            && p0.0 - self.position.0 <= ybase + 3000 * (x - min_x_voxel),
                        self.position.1 - p0.1 <= ybase + 3000 * (x - min_x_voxel)
                            && p0.1 - self.position.1 <= ybase + 3000 * (x - min_x_voxel),
                        self.position.2 - p0.2 <= ybase + 3000 * (x - min_x_voxel)
                            && p0.2 - self.position.2 <= ybase + 3000 * (x - min_x_voxel),
                        spec_resolve_row(
                            m,
                            axis,
                            self@,
                            x as int,
                            max_x_voxel as int,
                            y as int,
                            z as int,
                        ) == row_target,
                    decreases max_x_voxel + 1 - x,
                {
                    self.resolve_cell(world, axis, x, y, z);
                    x = x + 1;
                }
                proof {
                    assert(self@ == row_target);
                }
                y = y + 1;
            }
            proof {
                assert(self@ == slice_target);
            }
            z = z + 1;
        }
        proof {
            assert(self@ == target);
        }
    }

    /// Collision response of one scanned cell, as `spec_cell_resolve` states
    /// it.
    #[verifier::rlimit(100)]
    fn resolve_cell(&mut self, world: &World, axis: Axis, x: i64, y: i64, z: i64)
        requires
            old(self).wf(),
            world.wf(),
            -2000000000 <= x <= 2000000000,
            -2000000000 <= y <= 2000000000,
            -2000000000 <= z <= 2000000000,
            -PLAYER_POS_LIMIT - 2000000000 <= old(self).position.0 <= PLAYER_POS_LIMIT
                + 2000000000,
            -PLAYER_POS_LIMIT - 2000000000 <= old(self).position.1 <= PLAYER_POS_LIMIT
                + 2000000000,
            -PLAYER_POS_LIMIT - 2000000000 <= old(self).position.2 <= PLAYER_POS_LIMIT
                + 2000000000,
        ensures
            final(self).wf(),
            final(self)@ == spec_cell_resolve(world@, axis, old(self)@, x as int, y as int, z as int),
            final(self).width == old(self).width,
            final(self).height == old(self).height,
            final(self).position.0 - old(self).position.0 <= 2000
                && old(self).position.0 - final(self).position.0 <= 2000,
            final(self).position.1 - old(self).position.1 <= 3000
                && old(self).position.1 - final(self).position.1 <= 3000,
            final(self).position.2 - old(self).position.2 <= 2000
                && old(self).position.2 - final(self).position.2 <= 2000,
    {
        let solid = match world.get_voxel(x as i32, y as i32, z as i32) {
            Some(v) => !matches!(v, crate::chunk::VoxelType::Air),
            None => false,
        };
        proof {
            assert(solid == solid_at(world@, x as int, y as int, z as int));
        }
        if !solid {
            return ;
        }

        let half_w: i64 = self.width / 2;
        let half_h: i64 = self.height / 2;
        assert(half_w == 250 && half_h == 900);

        let p_min_x = self.position.0 - half_w;
        let p_max_x = self.position.0 + half_w;
        let p_min_y = self.position.1 - half_h;
        let p_max_y = self.position.1 + half_h;
        let p_min_z = self.position.2 - half_w;
        let p_max_z = self.position.2 + half_w;

        let v_min_x = x * 1000;
        let v_max_x = (x + 1) * 1000;
        let v_min_y = y * 1000;
        let v_max_y = (y + 1) * 1000;
        let v_min_z = z * 1000;
        let v_max_z = (z + 1) * 1000;

        let x_overlap = p_min_x < v_max_x && p_max_x > v_min_x;
        let y_overlap = p_min_y < v_max_y && p_max_y > v_min_y;
        let z_overlap = p_min_z < v_max_z && p_max_z > v_min_z;

        if x_overlap && y_overlap && z_overlap {
            let pen_x_a = p_max_x - v_min_x;
            let pen_x_b = v_max_x - p_min_x;
            let pen_x = if pen_x_a <= pen_x_b {
                pen_x_a
            } else {
                pen_x_b
            };
            let pen_y_a = p_max_y - v_min_y;
            let pen_y_b = v_max_y - p_min_y;
            let pen_y = if pen_y_a <= pen_y_b {
                pen_y_a
            } else {
                pen_y_b
            };
            let pen_z_a = p_max_z - v_min_z;
            let pen_z_b = v_max_z - p_min_z;
            let pen_z = if pen_z_a <= pen_z_b {
                pen_z_a
            } else {
                pen_z_b
            };

            match axis {
                Axis::X => {
                    if pen_x <= pen_y && pen_x <= pen_z {
                        if pen_x_a < pen_x_b {
                            self.position = (
                                self.position.0 - (pen_x_a + COLLISION_EPSILON),
                                self.position.1,
                                self.position.2,
                            );
                        } else {
                            self.position = (
                                self.position.0 + (pen_x_b + COLLISION_EPSILON),
                                self.position.1,
                                self.position.2,
                            );
                        }
                        self.velocity = (0, self.velocity.1, self.velocity.2);
                    }
                },
                Axis::Y => {
                    if pen_y <= pen_x && pen_y <= pen_z {
                        if pen_y_a < pen_y_b {
                            self.position = (
                                self.position.0,
                                self.position.1 - (pen_y_a + COLLISION_EPSILON),
                                self.position.2,
                            );
                        } else {
                            self.position = (
                                self.position.0,
                                self.position.1 + (pen_y_b + COLLISION_EPSILON),
                                self.position.2,
                            );
                            self.is_on_ground = true;
                        }
                        self.velocity = (self.velocity.0, 0, self.velocity.2);
                    }
                },
                Axis::Z => {
                    if pen_z <= pen_x && pen_z <= pen_y {
                        if pen_z_a < pen_z_b {
                            self.position = (
                                self.position.0,
                                self.position.1,
                                self.position.2 - (pen_z_a + COLLISION_EPSILON),
                            );
                        } else {
                            self.position = (
                                self.position.0,
                                self.position.1,
                                self.position.2 + (pen_z_b + COLLISION_EPSILON),
                            );
                        }
                        self.velocity = (self.velocity.0, self.velocity.1, 0);
                    }
                },
            }
        }
    }

    /// One simulation step: integrate clamped gravity into vertical
    /// velocity, then advance and resolve the position one axis at a time in
    /// the fixed order X, Y, Z, zeroing the velocity of every corrected axis
    /// and raising the grounded flag on an upward vertical correction.
    pub fn update(&mut self, world: &World, dt: i64)
        requires
            old(self).wf(),
            world.wf(),
            0 <= dt,
            -PLAYER_POS_LIMIT <= old(self).position.0 <= PLAYER_POS_LIMIT,
            -PLAYER_POS_LIMIT <= old(self).position.1 <= PLAYER_POS_LIMIT,
            -PLAYER_POS_LIMIT <= old(self).position.2 <= PLAYER_POS_LIMIT,
            -PLAYER_VEL_LIMIT <= old(self).velocity.0 <= PLAYER_VEL_LIMIT,
            -PLAYER_VEL_LIMIT <= old(self).velocity.1 <= PLAYER_VEL_LIMIT,
            -PLAYER_VEL_LIMIT <= old(self).velocity.2 <= PLAYER_VEL_LIMIT,
        ensures
            final(self).wf(),
            final(self)@ == spec_player_step(old(self)@, world@, dt as int),
    {
        let dtc = if dt > MAX_TIME_STEP {
            MAX_TIME_STEP
        } else {
            dt
        };
        self.is_on_ground = false;
        let g = floor_div_unit(GRAVITY * dtc);
        proof {
            crate::units::lemma_unit_roundtrip((GRAVITY as int) * (dtc as int));
            assert(-981 <= g <= 0);
        }
        self.velocity = (self.velocity.0, self.velocity.1 + g, self.velocity.2);

        let vel = self.velocity;
        proof {
            assert(-1000001000 <= vel.0 <= 1000001000);
            assert(-1000001000 <= vel.1 <= 1000001000);
            assert(-1000001000 <= vel.2 <= 1000001000);
            assert(-100000100000 <= vel.0 * dtc <= 100000100000) by (nonlinear_arith)
                requires
                    -1000001000 <= vel.0 <= 1000001000,
                    0 <= dtc <= 100,
            ;
            assert(-100000100000 <= vel.1 * dtc <= 100000100000) by (nonlinear_arith)
                requires
                    -1000001000 <= vel.1 <= 1000001000,
                    0 <= dtc <= 100,
            ;
            assert(-100000100000 <= vel.2 * dtc <= 100000100000) by (nonlinear_arith)
                requires
                    -1000001000 <= vel.2 <= 1000001000,
                    0 <= dtc <= 100,
            ;
            crate::units::lemma_unit_roundtrip((vel.0 as int) * (dtc as int));
            crate::units::lemma_unit_roundtrip((vel.1 as int) * (dtc as int));
            crate::units::lemma_unit_roundtrip((vel.2 as int) * (dtc as int));
        }
        let mv_x = floor_div_unit(vel.0 * dtc);
        let mv_y = floor_div_unit(vel.1 * dtc);
        let mv_z = floor_div_unit(vel.2 * dtc);
        proof {
            assert(-200000000 <= mv_x <= 200000000);
            assert(-200000000 <= mv_y <= 200000000);
            assert(-200000000 <= mv_z <= 200000000);
        }

        self.position = (self.position.0 + mv_x, self.position.1, self.position.2);
        self.resolve_collisions(world, Axis::X);
        self.position = (self.position.0, self.position.1 + mv_y, self.position.2);
        self.resolve_collisions(world, Axis::Y);
        self.position = (self.position.0, self.position.1, self.position.2 + mv_z);
        self.resolve_collisions(world, Axis::Z);
    }
}

} // verus!
