//! Turret orientation solving and aim-point resolution.
//!
//! The turret is a child of the chassis, so the engine composes its world
//! orientation as (turret local orientation) ∘ (chassis world orientation).
//! To keep the turret's world-space aim fixed while the chassis rotates
//! underneath it, the solver builds the desired world orientation with a
//! look-at construction and right-multiplies it by the transpose (the
//! inverse, for a rotation) of the chassis orientation.

use crate::fixed::{
    div_trunc, iabs, lemma_div_trunc_le, mul_fx, mul_fx_s, FX_AXIS_MAX, FX_SCALE, FX_UP_MIN,
};
use vstd::arithmetic::mul::{
    lemma_mul_is_associative, lemma_mul_is_commutative, lemma_mul_is_distributive_add,
    lemma_mul_is_distributive_add_other_way,
};
use crate::vec::{dot3_s, Vec3Fx, Vec3i};
use vstd::prelude::*;

verus! {

/// Raw magnitude bound for world positions handed to the turret solver.
pub const FX_WORLD_MAX: i64 = 1_000_000_000;

/// Raw magnitude bound for the entries of a chassis rotation matrix.
pub const FX_ROT_MAX: i64 = 2_000_000;

/// Raw magnitude bound for the entries of a desired-orientation basis.
pub const FX_BASIS_MAX: i64 = 1_000_000_000_000_000;

/// Raw bound for a ray-cast time of impact (one hundred units of distance).
pub const FX_TOI_MAX: i64 = 100_000_000;

/// Marker for a turret entity, child of exactly one chassis.
#[derive(Clone, Copy, Debug, Default)]
pub struct Turret;

/// A 3x3 fixed-point matrix, stored as its three columns.  An orientation
/// keeps its right, up and forward axes in `c0`, `c1` and `c2`.
#[derive(Clone, Copy, PartialEq, Eq, Structural, Debug)]
pub struct Mat3Fx {
    pub c0: Vec3Fx,
    pub c1: Vec3Fx,
    pub c2: Vec3Fx,
}

/// A mathematical-integer 3x3 matrix, the model of a `Mat3Fx`.
pub struct Mat3i {
    pub c0: Vec3i,
    pub c1: Vec3i,
    pub c2: Vec3i,
}

impl Mat3Fx {
    /// Every entry's magnitude stays within `bound`.
    pub open spec fn in_bounds(self, bound: int) -> bool {
        self.c0.in_bounds(bound) && self.c1.in_bounds(bound) && self.c2.in_bounds(bound)
    }

    /// The mathematical-integer model of this matrix.
    pub open spec fn as_math(self) -> Mat3i {
        Mat3i { c0: self.c0.as_math(), c1: self.c1.as_math(), c2: self.c2.as_math() }
    }

    /// The transpose, which inverts a (scaled) rotation exactly.
    pub fn transpose(self) -> (r: Mat3Fx)
        ensures
            r.as_math() == mtrans(self.as_math()),
            self.in_bounds(FX_ROT_MAX as int) ==> r.in_bounds(FX_ROT_MAX as int),
    {
        Mat3Fx {
            c0: Vec3Fx { x: self.c0.x, y: self.c1.x, z: self.c2.x },
            c1: Vec3Fx { x: self.c0.y, y: self.c1.y, z: self.c2.y },
            c2: Vec3Fx { x: self.c0.z, y: self.c1.z, z: self.c2.z },
        }
    }
}

/// The matrix applied to a column vector, without rescaling.
pub open spec fn mat_apply_raw(a: Mat3i, v: Vec3i) -> Vec3i {
    Vec3i {
        x: a.c0.x * v.x + a.c1.x * v.y + a.c2.x * v.z,
        y: a.c0.y * v.x + a.c1.y * v.y + a.c2.y * v.z,
        z: a.c0.z * v.x + a.c1.z * v.y + a.c2.z * v.z,
    }
}

/// Raw matrix product, without rescaling: composing two scale-S orientations
/// yields a scale-S² matrix.
pub open spec fn mmul_raw(a: Mat3i, b: Mat3i) -> Mat3i {
    Mat3i { c0: mat_apply_raw(a, b.c0), c1: mat_apply_raw(a, b.c1), c2: mat_apply_raw(a, b.c2) }
}

/// The transpose.
pub open spec fn mtrans(a: Mat3i) -> Mat3i {
    Mat3i {
        c0: Vec3i { x: a.c0.x, y: a.c1.x, z: a.c2.x },
        c1: Vec3i { x: a.c0.y, y: a.c1.y, z: a.c2.y },
        c2: Vec3i { x: a.c0.z, y: a.c1.z, z: a.c2.z },
    }
}

/// Every entry scaled by `k`.
pub open spec fn mscale(k: int, a: Mat3i) -> Mat3i {
    Mat3i {
        c0: Vec3i { x: k * a.c0.x, y: k * a.c0.y, z: k * a.c0.z },
        c1: Vec3i { x: k * a.c1.x, y: k * a.c1.y, z: k * a.c1.z },
        c2: Vec3i { x: k * a.c2.x, y: k * a.c2.y, z: k * a.c2.z },
    }
}

/// Every entry brought back to the fixed-point scale, rounded toward zero.
pub open spec fn mdiv_scale(a: Mat3i) -> Mat3i {
    let s = FX_SCALE as int;
    Mat3i {
        c0: Vec3i {
            x: div_trunc(a.c0.x, s),
            y: div_trunc(a.c0.y, s),
            z: div_trunc(a.c0.z, s),
        },
        c1: Vec3i {
            x: div_trunc(a.c1.x, s),
            y: div_trunc(a.c1.y, s),
            z: div_trunc(a.c1.z, s),
        },
        c2: Vec3i {
            x: div_trunc(a.c2.x, s),
            y: div_trunc(a.c2.y, s),
            z: div_trunc(a.c2.z, s),
        },
    }
}

/// A scaled rotation: columns are pairwise orthogonal and each has squared
/// length exactly the squared fixed-point scale.
pub open spec fn is_rotation_scaled(c: Mat3i) -> bool {
    let s2 = (FX_SCALE as int) * (FX_SCALE as int);
    &&& dot3_s(c.c0, c.c0) == s2
    &&& dot3_s(c.c1, c.c1) == s2
    &&& dot3_s(c.c2, c.c2) == s2
    &&& dot3_s(c.c0, c.c1) == 0
    &&& dot3_s(c.c0, c.c2) == 0
    &&& dot3_s(c.c1, c.c2) == 0
}

/// Trilinear regrouping behind one entry of a triple matrix product.
proof fn lemma_dot_assoc(
    a0: int,
    a1: int,
    a2: int,
    p0: int,
    p1: int,
    p2: int,
    q0: int,
    q1: int,
    q2: int,
    r0: int,
    r1: int,
    r2: int,
    c0: int,
    c1: int,
    c2: int,
)
    ensures
        (a0 * p0 + a1 * p1 + a2 * p2) * c0 + (a0 * q0 + a1 * q1 + a2 * q2) * c1 + (a0 * r0 + a1
            * r1 + a2 * r2) * c2 == a0 * (p0 * c0 + q0 * c1 + r0 * c2) + a1 * (p1 * c0 + q1 * c1
            + r1 * c2) + a2 * (p2 * c0 + q2 * c1 + r2 * c2),
{
    lemma_tri_distrib_right(a0, a1, a2, p0, p1, p2, c0);
    lemma_tri_distrib_right(a0, a1, a2, q0, q1, q2, c1);
    lemma_tri_distrib_right(a0, a1, a2, r0, r1, r2, c2);
    lemma_tri_distrib_left(a0, p0 * c0, q0 * c1, r0 * c2);
    lemma_tri_distrib_left(a1, p1 * c0, q1 * c1, r1 * c2);
    lemma_tri_distrib_left(a2, p2 * c0, q2 * c1, r2 * c2);
}

/// Right distribution of a three-term sum, regrouping each product.
proof fn lemma_tri_distrib_right(a0: int, a1: int, a2: int, p0: int, p1: int, p2: int, c: int)
    ensures
        (a0 * p0 + a1 * p1 + a2 * p2) * c == a0 * (p0 * c) + a1 * (p1 * c) + a2 * (p2 * c),
{
    lemma_mul_is_distributive_add_other_way(c, a0 * p0 + a1 * p1, a2 * p2);
    lemma_mul_is_distributive_add_other_way(c, a0 * p0, a1 * p1);
    lemma_mul_is_associative(a0, p0, c);
    lemma_mul_is_associative(a1, p1, c);
    lemma_mul_is_associative(a2, p2, c);
}

/// Left distribution of a product over a three-term sum.
proof fn lemma_tri_distrib_left(a: int, x: int, y: int, z: int)
    ensures
        a * (x + y + z) == a * x + a * y + a * z,
{
    lemma_mul_is_distributive_add(a, x + y, z);
    lemma_mul_is_distributive_add(a, x, y);
}

/// Raw matrix multiplication is associative.
proof fn lemma_mmul_raw_assoc(a: Mat3i, b: Mat3i, c: Mat3i)
    ensures
        mmul_raw(mmul_raw(a, b), c) == mmul_raw(a, mmul_raw(b, c)),
{
    lemma_dot_assoc(
        a.c0.x, a.c1.x, a.c2.x, b.c0.x, b.c0.y, b.c0.z, b.c1.x, b.c1.y, b.c1.z, b.c2.x, b.c2.y,
        b.c2.z, c.c0.x, c.c0.y, c.c0.z,
    );
    lemma_dot_assoc(
        a.c0.y, a.c1.y, a.c2.y, b.c0.x, b.c0.y, b.c0.z, b.c1.x, b.c1.y, b.c1.z, b.c2.x, b.c2.y,
        b.c2.z, c.c0.x, c.c0.y, c.c0.z,
    );
    lemma_dot_assoc(
        a.c0.z, a.c1.z, a.c2.z, b.c0.x, b.c0.y, b.c0.z, b.c1.x, b.c1.y, b.c1.z, b.c2.x, b.c2.y,
        b.c2.z, c.c0.x, c.c0.y, c.c0.z,
    );
    lemma_dot_assoc(
        a.c0.x, a.c1.x, a.c2.x, b.c0.x, b.c0.y, b.c0.z, b.c1.x, b.c1.y, b.c1.z, b.c2.x, b.c2.y,
        b.c2.z, c.c1.x, c.c1.y, c.c1.z,
    );
    lemma_dot_assoc(
        a.c0.y, a.c1.y, a.c2.y, b.c0.x, b.c0.y, b.c0.z, b.c1.x, b.c1.y, b.c1.z, b.c2.x, b.c2.y,
        b.c2.z, c.c1.x, c.c1.y, c.c1.z,
    );
    lemma_dot_assoc(
        a.c0.z, a.c1.z, a.c2.z, b.c0.x, b.c0.y, b.c0.z, b.c1.x, b.c1.y, b.c1.z, b.c2.x, b.c2.y,
        b.c2.z, c.c1.x, c.c1.y, c.c1.z,
    );
    lemma_dot_assoc(
        a.c0.x, a.c1.x, a.c2.x, b.c0.x, b.c0.y, b.c0.z, b.c1.x, b.c1.y, b.c1.z, b.c2.x, b.c2.y,
        b.c2.z, c.c2.x, c.c2.y, c.c2.z,
    );
    lemma_dot_assoc(
        a.c0.y, a.c1.y, a.c2.y, b.c0.x, b.c0.y, b.c0.z, b.c1.x, b.c1.y, b.c1.z, b.c2.x, b.c2.y,
        b.c2.z, c.c2.x, c.c2.y, c.c2.z,
    );
    lemma_dot_assoc(
        a.c0.z, a.c1.z, a.c2.z, b.c0.x, b.c0.y, b.c0.z, b.c1.x, b.c1.y, b.c1.z, b.c2.x, b.c2.y,
        b.c2.z, c.c2.x, c.c2.y, c.c2.z,
    );
}

/// Turret world-aim invariance: cancelling the chassis rotation in the
/// turret's local orientation makes the composed world orientation equal to
/// the desired one (at the raw composed scale), whatever the chassis
/// orientation is.  The engine composes world = local ∘ parent, the local
/// orientation is `desired ∘ transpose(chassis)`, and for every scaled
/// rotation `c` the composition collapses back to `desired`.
pub proof fn lemma_turret_world_aim_invariance(d: Mat3i, c: Mat3i)
    requires
        is_rotation_scaled(c),
    ensures
        mmul_raw(mmul_raw(d, mtrans(c)), c) == mscale((FX_SCALE as int) * (FX_SCALE as int), d),
{
    broadcast use lemma_mul_is_commutative, vstd::arithmetic::mul::group_mul_basics;

    lemma_mmul_raw_assoc(d, mtrans(c), c);
    let n = mmul_raw(mtrans(c), c);
    let s2 = (FX_SCALE as int) * (FX_SCALE as int);
    assert(n.c0 == Vec3i { x: s2, y: 0, z: 0 });
    assert(n.c1 == Vec3i { x: 0, y: s2, z: 0 });
    assert(n.c2 == Vec3i { x: 0, y: 0, z: s2 });
    assert(mmul_raw(d, n) == mscale(s2, d));
}

/// One entry of a rescaled matrix product: a row-column dot product brought
/// back to the fixed-point scale.
fn dot3_scaled(ax: i64, ay: i64, az: i64, bx: i64, by: i64, bz: i64) -> (r: i64)
    requires
        iabs(ax as int) <= FX_BASIS_MAX as int,
        iabs(ay as int) <= FX_BASIS_MAX as int,
        iabs(az as int) <= FX_BASIS_MAX as int,
        iabs(bx as int) <= FX_ROT_MAX as int,
        iabs(by as int) <= FX_ROT_MAX as int,
        iabs(bz as int) <= FX_ROT_MAX as int,
    ensures
        r as int == div_trunc(
            (ax as int) * (bx as int) + (ay as int) * (by as int) + (az as int) * (bz as int),
            FX_SCALE as int,
        ),
{
    proof {
        assert(iabs((ax as int) * (bx as int)) <= 2_000_000_000_000_000_000_000 && iabs(
            (ay as int) * (by as int),
        ) <= 2_000_000_000_000_000_000_000 && iabs((az as int) * (bz as int))
            <= 2_000_000_000_000_000_000_000) by (nonlinear_arith)
            requires
                iabs(ax as int) <= 1_000_000_000_000_000,
                iabs(ay as int) <= 1_000_000_000_000_000,
                iabs(az as int) <= 1_000_000_000_000_000,
                iabs(bx as int) <= 2_000_000,
                iabs(by as int) <= 2_000_000,
                iabs(bz as int) <= 2_000_000,
        ;
        lemma_div_trunc_le(
            (ax as int) * (bx as int) + (ay as int) * (by as int) + (az as int) * (bz as int),
            FX_SCALE as int,
            6_000_000_000_000_000_000_000,
            FX_SCALE as int,
        );
    }
    let p: i128 = (ax as i128) * (bx as i128) + (ay as i128) * (by as i128) + (az as i128) * (
    bz as i128);
    let q: i128 = crate::fixed::div_trunc_i128(p, FX_SCALE as i128);
    q as i64
}

/// Rescaled matrix product: composes two fixed-point orientations, each
/// entry rounded toward zero.
pub fn mat_mul_fx(a: Mat3Fx, b: Mat3Fx) -> (r: Mat3Fx)
    requires
        a.in_bounds(FX_BASIS_MAX as int),
        b.in_bounds(FX_ROT_MAX as int),
    ensures
        r.as_math() == mdiv_scale(mmul_raw(a.as_math(), b.as_math())),
{
    Mat3Fx {
        c0: Vec3Fx {
            x: dot3_scaled(a.c0.x, a.c1.x, a.c2.x, b.c0.x, b.c0.y, b.c0.z),
            y: dot3_scaled(a.c0.y, a.c1.y, a.c2.y, b.c0.x, b.c0.y, b.c0.z),
            z: dot3_scaled(a.c0.z, a.c1.z, a.c2.z, b.c0.x, b.c0.y, b.c0.z),
        },
        c1: Vec3Fx {
            x: dot3_scaled(a.c0.x, a.c1.x, a.c2.x, b.c1.x, b.c1.y, b.c1.z),
            y: dot3_scaled(a.c0.y, a.c1.y, a.c2.y, b.c1.x, b.c1.y, b.c1.z),
            z: dot3_scaled(a.c0.z, a.c1.z, a.c2.z, b.c1.x, b.c1.y, b.c1.z),
        },
        c2: Vec3Fx {
            x: dot3_scaled(a.c0.x, a.c1.x, a.c2.x, b.c2.x, b.c2.y, b.c2.z),
            y: dot3_scaled(a.c0.y, a.c1.y, a.c2.y, b.c2.x, b.c2.y, b.c2.z),
            z: dot3_scaled(a.c0.z, a.c1.z, a.c2.z, b.c2.x, b.c2.y, b.c2.z),
        },
    }
}

/// The look-at basis for a look direction `dir` with world-up as reference:
/// right axis `(dir.z, 0, -dir.x)` (the horizontal perpendicular), forward
/// axis `dir` itself, and up axis their cross product brought back to the
/// fixed-point scale.
pub open spec fn look_basis_s(dir: Vec3i) -> Mat3i {
    Mat3i {
        c0: Vec3i { x: dir.z, y: 0, z: -dir.x },
        c1: Vec3i {
            x: div_trunc(-(dir.x * dir.y), FX_SCALE as int),
            y: div_trunc(dir.x * dir.x + dir.z * dir.z, FX_SCALE as int),
            z: div_trunc(-(dir.y * dir.z), FX_SCALE as int),
        },
        c2: dir,
    }
}

/// The axes behind the look-at basis are mutually orthogonal, exactly: the
/// right axis is orthogonal to the look direction, and the unscaled up axis
/// (the raw cross product) is orthogonal to both.
pub proof fn lemma_look_basis_orthogonal(dir: Vec3i)
    ensures
        dot3_s(Vec3i { x: dir.z, y: 0, z: -dir.x }, dir) == 0,
        dot3_s(
            Vec3i { x: -(dir.x * dir.y), y: dir.x * dir.x + dir.z * dir.z, z: -(dir.y * dir.z) },
            dir,
        ) == 0,
        dot3_s(
            Vec3i { x: -(dir.x * dir.y), y: dir.x * dir.x + dir.z * dir.z, z: -(dir.y * dir.z) },
            Vec3i { x: dir.z, y: 0, z: -dir.x },
        ) == 0,
{
    let x = dir.x;
    let y = dir.y;
    let z = dir.z;
    assert(z * x + 0 * y + (-x) * z == 0) by (nonlinear_arith);
    assert((-(x * y)) * x + (x * x + z * z) * y + (-(y * z)) * z == 0) by (nonlinear_arith);
    assert((-(x * y)) * z + (x * x + z * z) * 0 + (-(y * z)) * (-x) == 0) by (nonlinear_arith);
}

/// The look direction the turret solver aims along: the aim point brought
/// into the turret's frame, projected onto the turret's own horizontal
/// plane, taken relative to the turret's local translation.
pub open spec fn aim_dir_s(
    aim: Vec3Fx,
    world_translation: Vec3Fx,
    local_translation: Vec3Fx,
    up: Vec3Fx,
) -> Vec3i {
    let lax = aim.x as int - world_translation.x as int;
    let laz = aim.z as int - world_translation.z as int;
    let ty = div_trunc(
        (up.x as int) * (local_translation.x as int) + (up.y as int) * (
        local_translation.y as int) + (up.z as int) * (local_translation.z as int) - (up.x as int)
            * lax - (up.z as int) * laz,
        up.y as int,
    );
    Vec3i {
        x: lax - local_translation.x as int,
        y: ty - local_translation.y as int,
        z: laz - local_translation.z as int,
    }
}

/// The turret's local orientation: the desired world orientation (the
/// look-at basis for the aim direction) with the chassis rotation cancelled
/// by its transpose, at the fixed-point scale.
pub open spec fn turret_local_rotation_s(dir: Vec3i, chassis: Mat3i) -> Mat3i {
    mdiv_scale(mmul_raw(look_basis_s(dir), mtrans(chassis)))
}

/// For a fixed aim direction, rotating the chassis to any orientation does
/// not change the turret's world orientation: composing the solver's
/// chassis-cancelled basis (before its final rounding) back with the chassis
/// collapses, for every scaled rotation, to the same desired basis, and in
/// particular to the same world-space forward axis.
pub proof fn lemma_aim_turret_world_invariant(dir: Vec3i, chassis: Mat3i)
    requires
        is_rotation_scaled(chassis),
    ensures
        (mmul_raw(mmul_raw(look_basis_s(dir), mtrans(chassis)), chassis) == mscale(
            (FX_SCALE as int) * (FX_SCALE as int),
            look_basis_s(dir),
        )),
        (mmul_raw(mmul_raw(look_basis_s(dir), mtrans(chassis)), chassis).c2 == (Vec3i {
            x: (FX_SCALE as int) * (FX_SCALE as int) * dir.x,
            y: (FX_SCALE as int) * (FX_SCALE as int) * dir.y,
            z: (FX_SCALE as int) * (FX_SCALE as int) * dir.z,
        })),
{
    lemma_turret_world_aim_invariance(look_basis_s(dir), chassis);
}

/// Solves the turret's local orientation so that, composed with the chassis
/// world orientation, the turret's forward axis points at the aim point
/// projected onto the turret's horizontal plane.
///
/// Returns `None`, and the caller holds the previous orientation, exactly
/// when the geometry is degenerate: the turret's up axis has (almost) no
/// vertical component, or the projected look direction has no horizontal
/// component (the aim point sits on the turret's vertical axis).
pub fn aim_turret(
    aim_position: Vec3Fx,
    turret_world_translation: Vec3Fx,
    turret_local_translation: Vec3Fx,
    turret_local_up: Vec3Fx,
    chassis_rotation: Mat3Fx,
) -> (r: Option<Mat3Fx>)
    requires
        aim_position.in_bounds(FX_WORLD_MAX as int),
        turret_world_translation.in_bounds(FX_WORLD_MAX as int),
        turret_local_translation.in_bounds(FX_WORLD_MAX as int),
        turret_local_up.in_bounds(FX_AXIS_MAX as int),
        chassis_rotation.in_bounds(FX_ROT_MAX as int),
    ensures
        ({
            let dir = aim_dir_s(
                aim_position,
                turret_world_translation,
                turret_local_translation,
                turret_local_up,
            );
            match r {
                Option::Some(m) => iabs(turret_local_up.y as int) >= FX_UP_MIN as int && (dir.x
                    != 0 || dir.z != 0) && m.as_math() == turret_local_rotation_s(
                    dir,
                    chassis_rotation.as_math(),
                ),
                Option::None => iabs(turret_local_up.y as int) < FX_UP_MIN as int || (dir.x == 0
                    && dir.z == 0),
            }
        }),
{
    let upy_ok: bool = if turret_local_up.y >= 0 {
        turret_local_up.y >= FX_UP_MIN
    } else {
        turret_local_up.y <= -FX_UP_MIN
    };
    if !upy_ok {
        return None;
    }
    let local_aim = aim_position.sub(turret_world_translation);
    let target = crate::project_vector_onto_plane_y_axis(
        local_aim,
        turret_local_up,
        turret_local_translation,
    );
    proof {
        let nx = turret_local_up.x as int;
        let ny = turret_local_up.y as int;
        let nz = turret_local_up.z as int;
        assert(iabs(nx * (turret_local_translation.x as int)) <= 10_000_000_000_000_000 && iabs(
            ny * (turret_local_translation.y as int),
        ) <= 10_000_000_000_000_000 && iabs(nz * (turret_local_translation.z as int))
            <= 10_000_000_000_000_000 && iabs(nx * (local_aim.x as int))
            <= 20_000_000_000_000_000 && iabs(nz * (local_aim.z as int)) <= 20_000_000_000_000_000)
            by (nonlinear_arith)
            requires
                iabs(nx) <= 10_000_000,
                iabs(ny) <= 10_000_000,
                iabs(nz) <= 10_000_000,
                turret_local_translation.in_bounds(1_000_000_000),
                local_aim.in_bounds(2_000_000_000),
        ;
        lemma_div_trunc_le(
            nx * (turret_local_translation.x as int) + ny * (turret_local_translation.y as int)
                + nz * (turret_local_translation.z as int) - nx * (local_aim.x as int) - nz * (
            local_aim.z as int),
            ny,
            70_000_000_000_000_000,
            FX_UP_MIN as int,
        );
    }
    let dx: i64 = target.x - turret_local_translation.x;
    let dy: i64 = target.y - turret_local_translation.y;
    let dz: i64 = target.z - turret_local_translation.z;
    if dx == 0 && dz == 0 {
        return None;
    }
    proof {
        assert(iabs((dx as int) * (dy as int)) <= 900_000_000_000_000_000_000 && iabs(
            (dy as int) * (dz as int),
        ) <= 900_000_000_000_000_000_000 && 0 <= (dx as int) * (dx as int)
            <= 9_000_000_000_000_000_000 && 0 <= (dz as int) * (dz as int)
            <= 9_000_000_000_000_000_000) by (nonlinear_arith)
            requires
                iabs(dx as int) <= 3_000_000_000,
                iabs(dz as int) <= 3_000_000_000,
                iabs(dy as int) <= 300_000_000_000,
        ;
        lemma_div_trunc_le(
            -((dx as int) * (dy as int)),
            FX_SCALE as int,
            900_000_000_000_000_000_000,
            FX_SCALE as int,
        );
        lemma_div_trunc_le(
            -((dy as int) * (dz as int)),
            FX_SCALE as int,
            900_000_000_000_000_000_000,
            FX_SCALE as int,
        );
        lemma_div_trunc_le(
            (dx as int) * (dx as int) + (dz as int) * (dz as int),
            FX_SCALE as int,
            18_000_000_000_000_000_000,
            FX_SCALE as int,
        );
    }
    let pxy: i128 = -((dx as i128) * (dy as i128));
    let pyy: i128 = (dx as i128) * (dx as i128) + (dz as i128) * (dz as i128);
    let pzy: i128 = -((dy as i128) * (dz as i128));
    let c1x: i64 = crate::fixed::div_trunc_i128(pxy, FX_SCALE as i128) as i64;
    let c1y: i64 = crate::fixed::div_trunc_i128(pyy, FX_SCALE as i128) as i64;
    let c1z: i64 = crate::fixed::div_trunc_i128(pzy, FX_SCALE as i128) as i64;
    let desired = Mat3Fx {
        c0: Vec3Fx { x: dz, y: 0, z: -dx },
        c1: Vec3Fx { x: c1x, y: c1y, z: c1z },
        c2: Vec3Fx { x: dx, y: dy, z: dz },
    };
    proof {
        assert(desired.as_math() == look_basis_s(
            aim_dir_s(
                aim_position,
                turret_world_translation,
                turret_local_translation,
                turret_local_up,
            ),
        ));
    }
    let local = mat_mul_fx(desired, chassis_rotation.transpose());
    Some(local)
}

/// A ray from the active camera through the cursor position.
#[derive(Clone, Copy, PartialEq, Eq, Structural, Debug)]
pub struct Ray {
    pub origin: Vec3Fx,
    pub direction: Vec3Fx,
}

/// What the ray-cast collaborator reports for a hit against ground-layer
/// geometry.
#[derive(Clone, Copy, PartialEq, Eq, Structural, Debug)]
pub struct RayHitInfo {
    pub time_of_impact: i64,
}

/// Refreshes the shared aim point from the cursor ray and its ground-layer
/// ray-cast result: on a hit the aim point becomes
/// `origin + direction * time_of_impact`.  With no ray (no active camera,
/// or no cursor inside the window) or no hit, the previous aim point is
/// retained unchanged: the resolver is a best-effort per-tick refresh, never
/// an error.
pub fn update_aim_position(aim_position: &mut Vec3Fx, ray: Option<Ray>, hit: Option<RayHitInfo>)
    requires
        match ray {
            Option::Some(rr) => rr.origin.in_bounds(FX_WORLD_MAX as int)
                && rr.direction.in_bounds(FX_AXIS_MAX as int),
            Option::None => true,
        },
        match hit {
            Option::Some(h) => 0 <= h.time_of_impact <= FX_TOI_MAX,
            Option::None => true,
        },
    ensures
        match (ray, hit) {
            (Option::Some(rr), Option::Some(h)) => {
                &&& final(aim_position).x as int == rr.origin.x as int + mul_fx_s(
                    rr.direction.x as int,
                    h.time_of_impact as int,
                )
                &&& final(aim_position).y as int == rr.origin.y as int + mul_fx_s(
                    rr.direction.y as int,
                    h.time_of_impact as int,
                )
                &&& final(aim_position).z as int == rr.origin.z as int + mul_fx_s(
                    rr.direction.z as int,
                    h.time_of_impact as int,
                )
            },
            _ => *final(aim_position) == *old(aim_position),
        },
{
    if let Option::Some(rr) = ray {
        if let Option::Some(h) = hit {
            proof {
                crate::fixed::lemma_mul_fx_bound(
                    rr.direction.x as int,
                    h.time_of_impact as int,
                    FX_AXIS_MAX as int,
                    FX_TOI_MAX as int,
                );
                crate::fixed::lemma_mul_fx_bound(
                    rr.direction.y as int,
                    h.time_of_impact as int,
                    FX_AXIS_MAX as int,
                    FX_TOI_MAX as int,
                );
                crate::fixed::lemma_mul_fx_bound(
                    rr.direction.z as int,
                    h.time_of_impact as int,
                    FX_AXIS_MAX as int,
                    FX_TOI_MAX as int,
                );
            }
            *aim_position = Vec3Fx {
                x: rr.origin.x + mul_fx(rr.direction.x, h.time_of_impact),
                y: rr.origin.y + mul_fx(rr.direction.y, h.time_of_impact),
                z: rr.origin.z + mul_fx(rr.direction.z, h.time_of_impact),
            };
        }
    }
}

} // verus!
