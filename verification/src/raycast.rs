use vstd::prelude::*;

use crate::chunk::VoxelType;
use crate::units::{floor_div_unit, lemma_unit_roundtrip, voxel_of, UNIT};
use crate::world::{get_voxel_model, World, WorldModel};

verus! {

/// Hard iteration ceiling of the voxel traversal. It bounds the worst-case
/// cost of a cast independently of the requested range; a tunable constant,
/// not a silent truncation.
pub const RAY_STEP_LIMIT: u32 = 100;

/// Largest scaled magnitude a ray origin component may have; covers every
/// voxel coordinate the world can address, with room for the traversal.
pub const RAY_ORIGIN_LIMIT: i64 = 1000000000000;

/// First solid voxel struck by a ray: the integer cell coordinate, the
/// integer face normal of entry (one component is plus or minus one, the
/// others zero), and the scaled travel distance from the origin.
#[derive(Clone, Copy, PartialEq, Eq, Debug)]
pub struct RaycastHit {
    pub position: (i32, i32, i32),
    pub normal: (i32, i32, i32),
    pub distance: i64,
}

/// Ghost counterpart of a hit, over unbounded integers.
pub struct RayHitModel {
    pub position: (int, int, int),
    pub normal: (int, int, int),
    pub distance: int,
}

/// Ghost state of the traversal between steps: the current cell, the scaled
/// distance at which the ray next crosses a boundary on each axis, the face
/// normal candidate recorded at the last crossing, and the distance
/// travelled so far.
pub struct RayCursor {
    pub voxel: (int, int, int),
    pub t_max: (int, int, int),
    pub normal: (int, int, int),
    pub distance: int,
}

/// Step sign of one direction component.
pub open spec fn spec_step(d: int) -> int {
    if d > 0 {
        1
    } else {
        -1
    }
}

/// Scaled distance the ray travels to cross one voxel along an axis; a zero
/// component never crosses, so its boundary is unreachable.
pub open spec fn spec_t_delta(d: int) -> int {
    if d == 0 {
        i64::MAX as int
    } else if d < 0 {
        (1000int * 1000) / (-d)
    } else {
        (1000int * 1000) / d
    }
}

/// Scaled distance from the origin to the first boundary crossing along an
/// axis.
pub open spec fn spec_t_max_init(o: int, d: int) -> int {
    if d > 0 {
        ((voxel_of(o) + 1) * 1000 - o) * 1000 / d
    } else if d < 0 {
        (o - voxel_of(o) * 1000) * 1000 / (-d)
    } else {
        i64::MAX as int
    }
}

/// The voxel stored at an integer cell coordinate of the world model.
pub open spec fn spec_query(m: WorldModel, p: (int, int, int)) -> Option<VoxelType> {
    get_voxel_model(m, p.0 as i32, p.1 as i32, p.2 as i32)
}

/// A cell blocks the ray if and only if its chunk is loaded and it holds
/// something other than Air.
pub open spec fn spec_solid(m: WorldModel, p: (int, int, int)) -> bool {
    crate::world::solid_at(m, p.0, p.1, p.2)
}

/// One traversal step: advance along whichever axis crosses its next
/// boundary soonest (ties go to the later axis), record the crossed face as
/// the candidate normal, and accumulate the crossing distance.
pub open spec fn spec_ray_advance(step: (int, int, int), t_delta: (int, int, int), st: RayCursor) -> RayCursor {
    if st.t_max.0 < st.t_max.1 && st.t_max.0 < st.t_max.2 {
        RayCursor {
            voxel: (st.voxel.0 + step.0, st.voxel.1, st.voxel.2),
            t_max: (st.t_max.0 + t_delta.0, st.t_max.1, st.t_max.2),
            normal: (-step.0, 0, 0),
            distance: st.t_max.0,
        }
    } else if st.t_max.1 < st.t_max.2 {
        RayCursor {
            voxel: (st.voxel.0, st.voxel.1 + step.1, st.voxel.2),
            t_max: (st.t_max.0, st.t_max.1 + t_delta.1, st.t_max.2),
            normal: (0, -step.1, 0),
            distance: st.t_max.1,
        }
    } else {
        RayCursor {
            voxel: (st.voxel.0, st.voxel.1, st.voxel.2 + step.2),
            t_max: (st.t_max.0, st.t_max.1, st.t_max.2 + t_delta.2),
            normal: (0, 0, -step.2),
            distance: st.t_max.2,
        }
    }
}

/// The traversal from state `st` with `fuel` cell queries left: a solid cell
/// is a hit carrying the recorded entry normal and travelled distance;
/// otherwise the ray advances, giving up once the accumulated distance
/// exceeds `max` or the fuel runs out.
pub open spec fn spec_ray_trace(
    m: WorldModel,
    step: (int, int, int),
    t_delta: (int, int, int),
    max: int,
    st: RayCursor,
    fuel: nat,
) -> Option<RayHitModel>
    decreases fuel,
{
    if fuel == 0 {
        None
    } else if spec_solid(m, st.voxel) {
        Some(RayHitModel { position: st.voxel, normal: st.normal, distance: st.distance })
    } else {
        let st2 = spec_ray_advance(step, t_delta, st);
        if st2.distance > max {
            None
        } else {
            spec_ray_trace(m, step, t_delta, max, st2, (fuel - 1) as nat)
        }
    }
}

/// The complete cast: what `raycast_voxel` returns, as a function of the
/// world model, the scaled origin and direction, and the scaled maximum
/// distance.
pub open spec fn spec_raycast(
    m: WorldModel,
    ox: int,
    oy: int,
    oz: int,
    dx: int,
    dy: int,
    dz: int,
    max: int,
) -> Option<RayHitModel> {
    spec_ray_trace(
        m,
        (spec_step(dx), spec_step(dy), spec_step(dz)),
        (spec_t_delta(dx), spec_t_delta(dy), spec_t_delta(dz)),
        max,
        RayCursor {
            voxel: (voxel_of(ox), voxel_of(oy), voxel_of(oz)),
            t_max: (spec_t_max_init(ox, dx), spec_t_max_init(oy, dy), spec_t_max_init(oz, dz)),
            normal: (0, 0, 0),
            distance: 0,
        },
        RAY_STEP_LIMIT as nat,
    )
}

/// The executable result reproduces the model hit field for field.
pub open spec fn hit_matches(r: Option<RaycastHit>, s: Option<RayHitModel>) -> bool {
    match r {
        Some(h) => s matches Some(g) && h.position.0 == g.position.0 && h.position.1
            == g.position.1 && h.position.2 == g.position.2 && h.normal.0 == g.normal.0
            && h.normal.1 == g.normal.1 && h.normal.2 == g.normal.2 && h.distance == g.distance,
        None => s is None,
    }
}

/// Incremental voxel traversal from a scaled floating origin along a scaled
/// direction, against the world read-only. Returns the first solid voxel
/// within `max_distance` (scaled), with the face normal through which the
/// ray entered it and the scaled travel distance; `None` when nothing solid
/// is reached within range or within the iteration ceiling. A zero direction
/// component never divides: that axis' crossing is treated as unreachable.
#[verifier::loop_isolation(false)]
#[verifier::rlimit(100)]
pub fn raycast_voxel(
    world: &World,
    origin: (i64, i64, i64),
    direction: (i64, i64, i64),
    max_distance: i64,
) -> (r: Option<RaycastHit>)
    requires
        world.wf(),
        -RAY_ORIGIN_LIMIT <= origin.0 <= RAY_ORIGIN_LIMIT,
        -RAY_ORIGIN_LIMIT <= origin.1 <= RAY_ORIGIN_LIMIT,
        -RAY_ORIGIN_LIMIT <= origin.2 <= RAY_ORIGIN_LIMIT,
        -1000 <= direction.0 <= 1000,
        -1000 <= direction.1 <= 1000,
        -1000 <= direction.2 <= 1000,
        !(direction.0 == 0 && direction.1 == 0 && direction.2 == 0),
    ensures
        hit_matches(
            r,
            spec_raycast(
                world@,
                origin.0 as int,
                origin.1 as int,
                origin.2 as int,
                direction.0 as int,
                direction.1 as int,
                direction.2 as int,
                max_distance as int,
            ),
        ),
        r matches Some(h) ==> spec_solid(
            world@,
            (h.position.0 as int, h.position.1 as int, h.position.2 as int),
        ),
        max_distance >= 0 ==> (r matches Some(h) ==> h.distance <= max_distance),
{
    let ghost m = world@;

    let step_x: i64 = if direction.0 > 0 {
        1
    } else {
        -1
    };
    let step_y: i64 = if direction.1 > 0 {
        1
    } else {
        -1
    };
    let step_z: i64 = if direction.2 > 0 {
        1
    } else {
        -1
    };

    let t_delta_x: i64 = if direction.0 != 0 {
        (UNIT * UNIT) / (if direction.0 < 0 {
            0 - direction.0
        } else {
            direction.0
        })
    } else {
        i64::MAX
    };
    let t_delta_y: i64 = if direction.1 != 0 {
        (UNIT * UNIT) / (if direction.1 < 0 {
            0 - direction.1
        } else {
            direction.1
        })
    } else {
        i64::MAX
    };
    let t_delta_z: i64 = if direction.2 != 0 {
        (UNIT * UNIT) / (if direction.2 < 0 {
            0 - direction.2
        } else {
            direction.2
        })
    } else {
        i64::MAX
    };

    proof {
        lemma_unit_roundtrip(origin.0 as int);
        lemma_unit_roundtrip(origin.1 as int);
        lemma_unit_roundtrip(origin.2 as int);
    }

    let mut voxel_x: i64 = floor_div_unit(origin.0);
    let mut voxel_y: i64 = floor_div_unit(origin.1);
    let mut voxel_z: i64 = floor_div_unit(origin.2);

    let mut t_max_x: i64 = if direction.0 > 0 {
        ((voxel_x + 1) * UNIT - origin.0) * UNIT / direction.0
    } else if direction.0 < 0 {
        (origin.0 - voxel_x * UNIT) * UNIT / (0 - direction.0)
    } else {
        i64::MAX
    };
    let mut t_max_y: i64 = if direction.1 > 0 {
        ((voxel_y + 1) * UNIT - origin.1) * UNIT / direction.1
    } else if direction.1 < 0 {
        (origin.1 - voxel_y * UNIT) * UNIT / (0 - direction.1)
    } else {
        i64::MAX
    };
    let mut t_max_z: i64 = if direction.2 > 0 {
        ((voxel_z + 1) * UNIT - origin.2) * UNIT / direction.2
    } else if direction.2 < 0 {
        (origin.2 - voxel_z * UNIT) * UNIT / (0 - direction.2)
    } else {
        i64::MAX
    };

    let mut normal_x: i64 = 0;
    let mut normal_y: i64 = 0;
    let mut normal_z: i64 = 0;
    let mut distance: i64 = 0;

    let ghost stepg = (step_x as int, step_y as int, step_z as int);
    let ghost tdg = (t_delta_x as int, t_delta_y as int, t_delta_z as int);
    let ghost result = spec_raycast(
        m,
        origin.0 as int,
        origin.1 as int,
        origin.2 as int,
        direction.0 as int,
        direction.1 as int,
        direction.2 as int,
        max_distance as int,
    );
    proof {
        assert(stepg == (
            spec_step(direction.0 as int),
            spec_step(direction.1 as int),
            spec_step(direction.2 as int),
        ));
        assert(tdg == (
            spec_t_delta(direction.0 as int),
            spec_t_delta(direction.1 as int),
            spec_t_delta(direction.2 as int),
        ));
        assert(t_max_x == spec_t_max_init(origin.0 as int, direction.0 as int));
        assert(t_max_y == spec_t_max_init(origin.1 as int, direction.1 as int));
        assert(t_max_z == spec_t_max_init(origin.2 as int, direction.2 as int));
    }

    let mut iter: u32 = 0;
    while iter < RAY_STEP_LIMIT
        invariant
            iter <= RAY_STEP_LIMIT,
            -1000000001 - iter as int <= voxel_x as int <= 1000000001 + iter as int,
            -1000000001 - iter as int <= voxel_y as int <= 1000000001 + iter as int,
            -1000000001 - iter as int <= voxel_z as int <= 1000000001 + iter as int,
            direction.0 == 0 ==> t_max_x == i64::MAX,
            direction.1 == 0 ==> t_max_y == i64::MAX,
            direction.2 == 0 ==> t_max_z == i64::MAX,
            direction.0 != 0 ==> 0 <= t_max_x <= 1000000 * (1 + iter as int),
            direction.1 != 0 ==> 0 <= t_max_y <= 1000000 * (1 + iter as int),
            direction.2 != 0 ==> 0 <= t_max_z <= 1000000 * (1 + iter as int),
            -1 <= normal_x <= 1,
            -1 <= normal_y <= 1,
            -1 <= normal_z <= 1,
            0 <= distance <= 1000000 * (1 + iter as int),
            max_distance >= 0 ==> distance <= max_distance,
            spec_ray_trace(
                m,
                stepg,
                tdg,
                max_distance as int,
                RayCursor {
                    voxel: (voxel_x as int, voxel_y as int, voxel_z as int),
                    t_max: (t_max_x as int, t_max_y as int, t_max_z as int),
                    normal: (normal_x as int, normal_y as int, normal_z as int),
                    distance: distance as int,
                },
                (RAY_STEP_LIMIT - iter) as nat,
            ) == result,
        decreases RAY_STEP_LIMIT - iter,
    {
        let ghost cur = RayCursor {
            voxel: (voxel_x as int, voxel_y as int, voxel_z as int),
            t_max: (t_max_x as int, t_max_y as int, t_max_z as int),
            normal: (normal_x as int, normal_y as int, normal_z as int),
            distance: distance as int,
        };

        let cell = world.get_voxel(voxel_x as i32, voxel_y as i32, voxel_z as i32);
        proof {
            assert(cell == spec_query(m, cur.voxel));
        }
        if let Some(v) = cell {
            if !matches!(v, VoxelType::Air) {
                proof {
                    assert(spec_solid(m, cur.voxel));
                    assert(result == Some(
                        RayHitModel { position: cur.voxel, normal: cur.normal, distance: cur.distance },
                    ));
                }
                return Some(
                    RaycastHit {
                        position: (voxel_x as i32, voxel_y as i32, voxel_z as i32),
                        normal: (normal_x as i32, normal_y as i32, normal_z as i32),
                        distance,
                    },
                );
            }
        }
        proof {
            assert(!spec_solid(m, cur.voxel));
        }

        if t_max_x < t_max_y && t_max_x < t_max_z {
            proof {
                assert(direction.0 != 0);
            }
            voxel_x = voxel_x + step_x;
            distance = t_max_x;
            t_max_x = t_max_x + t_delta_x;
            normal_x = 0 - step_x;
            normal_y = 0;
            normal_z = 0;
        } else if t_max_y < t_max_z {
            proof {
                assert(direction.1 != 0);
            }
            voxel_y = voxel_y + step_y;
            distance = t_max_y;
            t_max_y = t_max_y + t_delta_y;
            normal_x = 0;
            normal_y = 0 - step_y;
            normal_z = 0;
        } else {
            proof {
                assert(direction.2 != 0) by {
                    if direction.2 == 0 {
                        assert(t_max_z == i64::MAX);
                        assert(t_max_y >= t_max_z);
                        assert(direction.1 == 0);
                        assert(direction.0 != 0);
                        assert(t_max_x < i64::MAX);
                        assert(false);
                    }
                }
            }
            voxel_z = voxel_z + step_z;
            distance = t_max_z;
            t_max_z = t_max_z + t_delta_z;
            normal_x = 0;
            normal_y = 0;
            normal_z = 0 - step_z;
        }

        proof {
            let st2 = spec_ray_advance(stepg, tdg, cur);
            assert(st2 == RayCursor {
                voxel: (voxel_x as int, voxel_y as int, voxel_z as int),
                t_max: (t_max_x as int, t_max_y as int, t_max_z as int),
                normal: (normal_x as int, normal_y as int, normal_z as int),
                distance: distance as int,
            });
        }

        if distance > max_distance {
            proof {
                assert(result is None);
            }
            return None;
        }

        iter = iter + 1;
    }
    proof {
        assert(result is None);
    }
    None
}

} // verus!
