//! Vehicle-control and targeting core for an arcade tank simulation.
//!
//! Per simulation tick the pieces run in a fixed order: the aim-point
//! resolver turns an optional cursor ray and ray-cast hit into a world-space
//! aim point, the chassis motion integrator turns held drive actions into
//! linear and turn velocity, and the turret orientation solver cancels the
//! chassis rotation so the turret keeps pointing at the aim point.  A
//! stand-alone ballistic solver computes the launch angle that hits a target
//! under gravity.
//!
//! All quantities are fixed-point values: signed integers carrying
//! [`fixed::FX_SCALE`] raw steps per unit, so every operation, including its
//! rounding, is stated exactly in the contracts.

use vstd::prelude::*;

pub mod fixed;
pub mod game;
pub mod player;
pub mod projectile;
pub mod turret;
pub mod vec;

use crate::fixed::{div_trunc, iabs, FX_POS_MAX, FX_UP_MIN};
use crate::vec::Vec3Fx;

verus! {

/// The vertical coordinate that places `vector`'s horizontal components on
/// the plane with normal `plane_normal` through `plane_position`, rounded
/// toward zero.
pub open spec fn plane_y_s(vector: Vec3Fx, plane_normal: Vec3Fx, plane_position: Vec3Fx) -> int {
    let d = plane_normal.x * plane_position.x + plane_normal.y * plane_position.y
        + plane_normal.z * plane_position.z;
    div_trunc(d - plane_normal.x * vector.x - plane_normal.z * vector.z, plane_normal.y as int)
}

/// Replaces `vector`'s vertical component by the one that puts the vector on
/// the plane described by `plane_normal` and `plane_position`, keeping the
/// horizontal components unchanged.
pub fn project_vector_onto_plane_y_axis(
    vector: Vec3Fx,
    plane_normal: Vec3Fx,
    plane_position: Vec3Fx,
) -> (r: Vec3Fx)
    requires
        iabs(plane_normal.y as int) >= FX_UP_MIN,
        vector.in_bounds(FX_POS_MAX as int),
        plane_normal.in_bounds(FX_POS_MAX as int),
        plane_position.in_bounds(FX_POS_MAX as int),
    ensures
        r.x == vector.x,
        r.z == vector.z,
        r.y == plane_y_s(vector, plane_normal, plane_position),
{
    proof {
        let nx = plane_normal.x as int;
        let ny = plane_normal.y as int;
        let nz = plane_normal.z as int;
        let b = FX_POS_MAX as int;
        assert(iabs(nx * (plane_position.x as int)) <= b * b && iabs(
            ny * (plane_position.y as int),
        ) <= b * b && iabs(nz * (plane_position.z as int)) <= b * b && iabs(nx * (vector.x as int))
            <= b * b && iabs(nz * (vector.z as int)) <= b * b) by (nonlinear_arith)
            requires
                iabs(nx) <= b,
                iabs(ny) <= b,
                iabs(nz) <= b,
                vector.in_bounds(b),
                plane_position.in_bounds(b),
        ;
    }
    let d: i128 = (plane_normal.x as i128) * (plane_position.x as i128)
        + (plane_normal.y as i128) * (plane_position.y as i128)
        + (plane_normal.z as i128) * (plane_position.z as i128);
    let num: i128 = d - (plane_normal.x as i128) * (vector.x as i128)
        - (plane_normal.z as i128) * (vector.z as i128);
    let y: i128 = crate::fixed::div_trunc_i128(num, plane_normal.y as i128);
    proof {
        let b = FX_POS_MAX as int;
        crate::fixed::lemma_div_trunc_le(
            num as int,
            plane_normal.y as int,
            5 * b * b,
            FX_UP_MIN as int,
        );
    }
    Vec3Fx { x: vector.x, y: y as i64, z: vector.z }
}

} // verus!
