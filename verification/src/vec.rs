//! Fixed-point vectors for the horizontal plane and for world space.

use crate::fixed::{
    iabs, isqrt_u128, lemma_sqrt_floor_is, mul_fx, mul_fx_s, sqrt_floor, FX_MAX, FX_POS_MAX,
};
use vstd::prelude::*;

verus! {

/// A horizontal-plane vector: `x` and `z` are the two ground-plane axes.
#[derive(Clone, Copy, PartialEq, Eq, Structural, Debug)]
pub struct Vec2Fx {
    pub x: i64,
    pub z: i64,
}

/// A world-space vector with `y` as the vertical axis.
#[derive(Clone, Copy, PartialEq, Eq, Structural, Debug)]
pub struct Vec3Fx {
    pub x: i64,
    pub y: i64,
    pub z: i64,
}

impl Vec2Fx {
    /// Every component's magnitude stays within `bound`.
    pub open spec fn in_bounds(self, bound: int) -> bool {
        iabs(self.x as int) <= bound && iabs(self.z as int) <= bound
    }

    /// Squared length, exact.
    pub open spec fn norm2(self) -> int {
        (self.x as int) * (self.x as int) + (self.z as int) * (self.z as int)
    }

    /// The distance to another plane point, rounded down to the fixed-point
    /// grid.
    pub open spec fn distance_s(self, other: Vec2Fx) -> int {
        let dx = self.x as int - other.x as int;
        let dz = self.z as int - other.z as int;
        sqrt_floor(dx * dx + dz * dz)
    }

    /// Distance between two plane points.
    pub fn distance(self, other: Vec2Fx) -> (r: i64)
        requires
            self.in_bounds(FX_POS_MAX as int),
            other.in_bounds(FX_POS_MAX as int),
        ensures
            r == self.distance_s(other),
            0 <= r <= 3 * FX_POS_MAX,
    {
        let dx: i64 = self.x - other.x;
        let dz: i64 = self.z - other.z;
        proof {
            let b = 2 * FX_POS_MAX as int;
            assert(0 <= (dx as int) * (dx as int) <= b * b && 0 <= (dz as int) * (dz as int) <= b
                * b) by (nonlinear_arith)
                requires
                    iabs(dx as int) <= b,
                    iabs(dz as int) <= b,
        ;
        }
        let n2: i128 = (dx as i128) * (dx as i128) + (dz as i128) * (dz as i128);
        let l: u128 = isqrt_u128(n2 as u128);
        proof {
            assert(l <= 3 * FX_POS_MAX) by (nonlinear_arith)
                requires
                    (l as int) * (l as int) <= n2 as int,
                    n2 <= 2 * (2 * FX_POS_MAX as int) * (2 * FX_POS_MAX as int),
                    0 <= l,
                    FX_POS_MAX == 10_000_000_000,
            ;
            lemma_sqrt_floor_is(n2 as int, l as int);
        }
        l as i64
    }
}

impl Vec3Fx {
    /// Every component's magnitude stays within `bound`.
    pub open spec fn in_bounds(self, bound: int) -> bool {
        iabs(self.x as int) <= bound && iabs(self.y as int) <= bound && iabs(self.z as int)
            <= bound
    }

    /// The zero vector.
    pub fn zero() -> (r: Vec3Fx)
        ensures
            r.x == 0 && r.y == 0 && r.z == 0,
    {
        Vec3Fx { x: 0, y: 0, z: 0 }
    }

    /// The horizontal components, dropping the vertical axis.
    pub open spec fn xz_s(self) -> Vec2Fx {
        Vec2Fx { x: self.x, z: self.z }
    }

    /// The horizontal components, dropping the vertical axis.
    pub fn xz(self) -> (r: Vec2Fx)
        ensures
            r == self.xz_s(),
            r.x == self.x,
            r.z == self.z,
    {
        Vec2Fx { x: self.x, z: self.z }
    }

    /// Componentwise difference.
    pub fn sub(self, other: Vec3Fx) -> (r: Vec3Fx)
        requires
            self.in_bounds(FX_MAX as int),
            other.in_bounds(FX_MAX as int),
        ensures
            r.x == self.x - other.x,
            r.y == self.y - other.y,
            r.z == self.z - other.z,
    {
        Vec3Fx { x: self.x - other.x, y: self.y - other.y, z: self.z - other.z }
    }

    /// Componentwise sum.
    pub fn add(self, other: Vec3Fx) -> (r: Vec3Fx)
        requires
            self.in_bounds(FX_MAX as int),
            other.in_bounds(FX_MAX as int),
        ensures
            r.x == self.x + other.x,
            r.y == self.y + other.y,
            r.z == self.z + other.z,
    {
        Vec3Fx { x: self.x + other.x, y: self.y + other.y, z: self.z + other.z }
    }

    /// Each component scaled by the fixed-point factor `k`.
    pub fn scale(self, k: i64) -> (r: Vec3Fx)
        requires
            self.in_bounds(FX_MAX as int),
            -FX_MAX <= k <= FX_MAX,
        ensures
            r.x == mul_fx_s(self.x as int, k as int),
            r.y == mul_fx_s(self.y as int, k as int),
            r.z == mul_fx_s(self.z as int, k as int),
    {
        Vec3Fx { x: mul_fx(self.x, k), y: mul_fx(self.y, k), z: mul_fx(self.z, k) }
    }
}

/// A mathematical-integer vector, the model of a `Vec3Fx` in specifications.
pub struct Vec3i {
    pub x: int,
    pub y: int,
    pub z: int,
}

impl Vec3Fx {
    /// The mathematical-integer model of this vector.
    pub open spec fn as_math(self) -> Vec3i {
        Vec3i { x: self.x as int, y: self.y as int, z: self.z as int }
    }
}

/// Dot product of two integer vectors, exact.
pub open spec fn dot3_s(a: Vec3i, b: Vec3i) -> int {
    a.x * b.x + a.y * b.y + a.z * b.z
}

/// Cross product of two horizontal vectors about the vertical axis: zero
/// exactly when the two are parallel.
pub open spec fn cross2_s(ax: int, az: int, bx: int, bz: int) -> int {
    ax * bz - az * bx
}

/// Dot product of two horizontal vectors, exact (raw scale squared).
pub open spec fn dot2_s(ax: int, az: int, bx: int, bz: int) -> int {
    ax * bx + az * bz
}

/// Lagrange's identity on the plane: the squared dot and cross products of
/// two vectors add up to the product of their squared lengths.
pub proof fn lemma_lagrange_plane(ax: int, az: int, bx: int, bz: int)
    ensures
        dot2_s(ax, az, bx, bz) * dot2_s(ax, az, bx, bz) + cross2_s(ax, az, bx, bz) * cross2_s(
            ax,
            az,
            bx,
            bz,
        ) == (ax * ax + az * az) * (bx * bx + bz * bz),
{
    let d = ax * bx + az * bz;
    let c = ax * bz - az * bx;
    let p1 = ax * bx;
    let p2 = az * bz;
    let p3 = ax * bz;
    let p4 = az * bx;
    assert(d * d == p1 * p1 + 2 * (p1 * p2) + p2 * p2) by (nonlinear_arith)
        requires
            d == p1 + p2,
    ;
    assert(c * c == p3 * p3 - 2 * (p3 * p4) + p4 * p4) by (nonlinear_arith)
        requires
            c == p3 - p4,
    ;
    assert(p1 * p2 == p3 * p4) by (nonlinear_arith)
        requires
            p1 == ax * bx,
            p2 == az * bz,
            p3 == ax * bz,
            p4 == az * bx,
    ;
    assert(p1 * p1 == (ax * ax) * (bx * bx)) by (nonlinear_arith)
        requires
            p1 == ax * bx,
    ;
    assert(p2 * p2 == (az * az) * (bz * bz)) by (nonlinear_arith)
        requires
            p2 == az * bz,
    ;
    assert(p3 * p3 == (ax * ax) * (bz * bz)) by (nonlinear_arith)
        requires
            p3 == ax * bz,
    ;
    assert(p4 * p4 == (az * az) * (bx * bx)) by (nonlinear_arith)
        requires
            p4 == az * bx,
    ;
    let qa = ax * ax;
    let qb = az * az;
    let qc = bx * bx;
    let qd = bz * bz;
    assert((qa + qb) * (qc + qd) == qa * qc + qa * qd + qb * qc + qb * qd) by (nonlinear_arith);
}

/// The dot product of two plane vectors is bounded by the product of their
/// lengths (Cauchy-Schwarz, squared form).
pub proof fn lemma_cauchy_schwarz_plane(ax: int, az: int, bx: int, bz: int)
    ensures
        dot2_s(ax, az, bx, bz) * dot2_s(ax, az, bx, bz) <= (ax * ax + az * az) * (bx * bx + bz
            * bz),
{
    lemma_lagrange_plane(ax, az, bx, bz);
    assert(cross2_s(ax, az, bx, bz) * cross2_s(ax, az, bx, bz) >= 0) by (nonlinear_arith);
}

} // verus!
