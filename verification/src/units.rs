use vstd::prelude::*;

verus! {

/// Fixed-point scale of all fractional world-space quantities: positions,
/// velocities and distances are carried in thousandths of a world unit
/// (one voxel is `UNIT` thousandths wide).
pub const UNIT: i64 = 1000;

/// Index of the voxel cell containing scaled coordinate `w`: Euclidean floor
/// division by the scale.
pub open spec fn voxel_of(w: int) -> int {
    w / 1000
}

/// Offset of scaled coordinate `w` inside its voxel cell, always in
/// `[0, 1000)`.
pub open spec fn cell_offset(w: int) -> int {
    w % 1000
}

/// A scaled coordinate splits exactly into its voxel index and in-cell
/// offset.
pub proof fn lemma_unit_roundtrip(w: int)
    ensures
        1000 * voxel_of(w) + cell_offset(w) == w,
        0 <= cell_offset(w) < 1000,
{
}

/// A scaled coordinate written as `1000 * q + r` with `r` in `[0, 1000)`
/// sits in cell `q` at offset `r`.
pub proof fn lemma_voxel_of_exact(q: int, r: int)
    requires
        0 <= r < 1000,
    ensures
        voxel_of(1000 * q + r) == q,
        cell_offset(1000 * q + r) == r,
{
    assert(1000 * q + r == q * 1000 + r) by (nonlinear_arith);
    vstd::arithmetic::div_mod::lemma_fundamental_div_mod_converse(1000 * q + r, 1000, q, r);
}

/// Index of the voxel cell containing scaled coordinate `w`.
pub fn floor_div_unit(w: i64) -> (q: i64)
    ensures
        q == voxel_of(w as int),
{
    proof {
        lemma_unit_roundtrip(w as int);
    }
    match w.checked_div_euclid(1000) {
        Some(q) => q,
        None => {
            proof {
                assert(false);
            }
            0
        },
    }
}

} // verus!
