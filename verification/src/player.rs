//! Chassis motion integration: tank-style drive with no lateral slip.
//!
//! Each tick reads the held drive actions and the elapsed duration, updates
//! the horizontal linear velocity (accelerate, damp, clamp, then re-project
//! onto the chassis forward axis) and the scalar turn velocity, and reports
//! the yaw increment to apply to the chassis orientation.

use crate::fixed::{
    div_trunc, iabs, isqrt_ceil_u128, isqrt_u128, lemma_div_trunc_magnitude,
    lemma_div_trunc_prod_le, lemma_div_trunc_residual, lemma_mul_fx_bound, lemma_mul_fx_neg,
    lemma_mul_fx_nonneg,
    lemma_mul_fx_shrinks, lemma_sq_prod_le, lemma_sqrt_ceil_props, lemma_sqrt_floor_is, mul_fx,
    mul_fx_s, sqrt_ceil, sqrt_floor, FX_AXIS_MAX, FX_SCALE,
};
use crate::game::{Action, ActionState};
use crate::vec::{cross2_s, dot2_s, lemma_cauchy_schwarz_plane, Vec2Fx, Vec3Fx};
use vstd::prelude::*;

verus! {

/// Raw magnitude bound for the movement parameters (a thousand units).
pub const FX_PARAM_MAX: i64 = 1_000_000_000;

/// Raw magnitude bound for velocity components entering a tick.
pub const FX_VEL_MAX: i64 = 1_000_000_000_000;

/// Marker for the player-controlled vehicle chassis.
#[derive(Clone, Copy, Debug, Default)]
pub struct Player;

/// Scalar angular rate of the chassis about its vertical axis.
#[derive(Clone, Copy, PartialEq, Eq, Structural, Debug, Default)]
pub struct TurnVelocity(pub i64);

/// Immutable drive configuration of one chassis.
#[derive(Clone, Copy, PartialEq, Eq, Structural, Debug)]
pub struct MovementParameters {
    pub acceleration: i64,
    pub dampening: i64,
    pub max_velocity: i64,
    pub turn_acceleration: i64,
    pub turn_dampening: i64,
    pub max_turn_velocity: i64,
}

/// The accelerations and caps are positive, the damping coefficients
/// non-negative, and everything stays in the fixed-point working range.
pub open spec fn params_wf(p: MovementParameters) -> bool {
    &&& 0 < p.acceleration <= FX_PARAM_MAX
    &&& 0 <= p.dampening <= FX_PARAM_MAX
    &&& 0 < p.max_velocity <= FX_PARAM_MAX
    &&& 0 < p.turn_acceleration <= FX_PARAM_MAX
    &&& 0 <= p.turn_dampening <= FX_PARAM_MAX
    &&& 0 < p.max_turn_velocity <= FX_PARAM_MAX
}

/// The tick duration is positive, at most one second, and each damping
/// coefficient scaled by it stays within one: the configuration invariant of
/// the data model.
pub open spec fn tick_wf(p: MovementParameters, dt: int) -> bool {
    &&& 0 < dt <= FX_SCALE as int
    &&& mul_fx_s(p.dampening as int, dt) <= FX_SCALE as int
    &&& mul_fx_s(p.turn_dampening as int, dt) <= FX_SCALE as int
}

impl Default for MovementParameters {
    /// The stock tank drive configuration (the turn cap is a quarter turn
    /// per second, a right angle in fixed-point radians).
    fn default() -> (r: Self)
        ensures
            r.acceleration == 3_000_000,
            r.dampening == 10_000_000,
            r.max_velocity == 2_000_000,
            r.turn_acceleration == 20_000_000,
            r.turn_dampening == 15_000_000,
            r.max_turn_velocity == 1_570_796,
            params_wf(r),
    {
        MovementParameters {
            acceleration: 3_000_000,
            dampening: 10_000_000,
            max_velocity: 2_000_000,
            turn_acceleration: 20_000_000,
            turn_dampening: 15_000_000,
            max_turn_velocity: 1_570_796,
        }
    }
}

/// The chassis forward axis normalized to the fixed-point scale, with the
/// rounding the executable code performs.
pub open spec fn forward_unit_s(f: Vec2Fx) -> (int, int) {
    let l = sqrt_floor(f.norm2());
    (
        div_trunc((f.x as int) * (FX_SCALE as int), l),
        div_trunc((f.z as int) * (FX_SCALE as int), l),
    )
}

/// Longitudinal stage: accelerate along the forward axis when exactly one of
/// forward/backward is held, otherwise damp the horizontal components.
pub open spec fn drive_stage_s(
    vx: int,
    vz: int,
    f: Vec2Fx,
    fwd: bool,
    bwd: bool,
    accel: int,
    damp: int,
    dt: int,
) -> (int, int) {
    let u = forward_unit_s(f);
    let step = mul_fx_s(accel, dt);
    if fwd && !bwd {
        (vx + mul_fx_s(u.0, step), vz + mul_fx_s(u.1, step))
    } else if !fwd && bwd {
        (vx - mul_fx_s(u.0, step), vz - mul_fx_s(u.1, step))
    } else {
        let k = FX_SCALE as int - mul_fx_s(damp, dt);
        (mul_fx_s(vx, k), mul_fx_s(vz, k))
    }
}

/// Clamp stage: leave a short horizontal velocity alone, otherwise rescale
/// it down to the configured maximum length.
pub open spec fn clamp_stage_s(cx: int, cz: int, maxv: int) -> (int, int) {
    if cx * cx + cz * cz <= maxv * maxv {
        (cx, cz)
    } else {
        let l = sqrt_ceil(cx * cx + cz * cz);
        (div_trunc(cx * maxv, l), div_trunc(cz * maxv, l))
    }
}

/// No-slip stage: the orthogonal projection of the horizontal velocity onto
/// the forward axis, killing any lateral component.
pub open spec fn project_stage_s(cx: int, cz: int, f: Vec2Fx) -> (int, int) {
    let q = f.norm2();
    let s = dot2_s(cx, cz, f.x as int, f.z as int);
    (div_trunc(s * (f.x as int), q), div_trunc(s * (f.z as int), q))
}

/// One tick of the horizontal velocity pipeline: drive, clamp, project.
pub open spec fn horizontal_velocity_s(
    vx: int,
    vz: int,
    f: Vec2Fx,
    fwd: bool,
    bwd: bool,
    p: MovementParameters,
    dt: int,
) -> (int, int) {
    let d = drive_stage_s(vx, vz, f, fwd, bwd, p.acceleration as int, p.dampening as int, dt);
    let c = clamp_stage_s(d.0, d.1, p.max_velocity as int);
    project_stage_s(c.0, c.1, f)
}

/// The steering sign for this tick: reversed exactly when only backward is
/// held, so steering keeps its sense while driving in reverse.
pub open spec fn forward_sign_s(fwd: bool, bwd: bool) -> int {
    if bwd && !fwd {
        -1
    } else {
        1
    }
}

/// Scalar clamp to a symmetric range.
pub open spec fn clamp_s(v: int, lo: int, hi: int) -> int {
    if v < lo {
        lo
    } else if v > hi {
        hi
    } else {
        v
    }
}

/// One tick of the turn velocity: accelerate with the steering sign when
/// exactly one of left/right is held, otherwise damp, then clamp.
pub open spec fn turn_velocity_s(
    tv: int,
    fwd: bool,
    bwd: bool,
    left: bool,
    right: bool,
    p: MovementParameters,
    dt: int,
) -> int {
    let fs = forward_sign_s(fwd, bwd);
    let step = mul_fx_s(p.turn_acceleration as int, dt);
    let raw = if left && !right {
        tv + fs * step
    } else if !left && right {
        tv - fs * step
    } else {
        mul_fx_s(tv, FX_SCALE as int - mul_fx_s(p.turn_dampening as int, dt))
    };
    clamp_s(raw, -(p.max_turn_velocity as int), p.max_turn_velocity as int)
}

/// Normalizes the forward axis to the fixed-point scale.
fn forward_unit(f: Vec2Fx) -> (u: Vec2Fx)
    requires
        f.in_bounds(FX_AXIS_MAX as int),
        f.x != 0 || f.z != 0,
    ensures
        u.x as int == forward_unit_s(f).0,
        u.z as int == forward_unit_s(f).1,
        iabs(u.x as int) <= FX_SCALE as int,
        iabs(u.z as int) <= FX_SCALE as int,
{
    proof {
        assert(0 <= (f.x as int) * (f.x as int) <= (FX_AXIS_MAX as int) * (FX_AXIS_MAX as int)
            && 0 <= (f.z as int) * (f.z as int) <= (FX_AXIS_MAX as int) * (FX_AXIS_MAX as int)
            && 1 <= (f.x as int) * (f.x as int) + (f.z as int) * (f.z as int))
            by (nonlinear_arith)
            requires
                iabs(f.x as int) <= FX_AXIS_MAX as int,
                iabs(f.z as int) <= FX_AXIS_MAX as int,
                f.x != 0 || f.z != 0,
        ;
    }
    let n2: i128 = (f.x as i128) * (f.x as i128) + (f.z as i128) * (f.z as i128);
    let l_u: u128 = isqrt_u128(n2 as u128);
    proof {
        assert(1 <= l_u) by (nonlinear_arith)
            requires
                (n2 as int) < ((l_u as int) + 1) * ((l_u as int) + 1),
                1 <= n2,
                0 <= l_u,
        ;
        assert(iabs(f.x as int) <= l_u as int && iabs(f.z as int) <= l_u as int)
            by (nonlinear_arith)
            requires
                (f.x as int) * (f.x as int) <= n2,
                (f.z as int) * (f.z as int) <= n2,
                n2 < ((l_u as int) + 1) * ((l_u as int) + 1),
                0 <= l_u,
        ;
        assert(l_u <= 20_000_000) by (nonlinear_arith)
            requires
                (l_u as int) * (l_u as int) <= n2,
                n2 <= 2 * (FX_AXIS_MAX as int) * (FX_AXIS_MAX as int),
                0 <= l_u,
        ;
        lemma_sqrt_floor_is(f.norm2(), l_u as int);
    }
    let l: i128 = l_u as i128;
    let ux: i128 = crate::fixed::div_trunc_i128((f.x as i128) * (FX_SCALE as i128), l);
    let uz: i128 = crate::fixed::div_trunc_i128((f.z as i128) * (FX_SCALE as i128), l);
    proof {
        lemma_div_trunc_prod_le(f.x as int, FX_SCALE as int, l as int);
        lemma_div_trunc_prod_le(f.z as int, FX_SCALE as int, l as int);
    }
    Vec2Fx { x: ux as i64, z: uz as i64 }
}

/// Rescaling a horizontal vector by `maxv` over a ceiling bound `l` of its
/// length keeps its length within `maxv`.
proof fn lemma_clamp_scale_bound(cx: int, cz: int, maxv: int, l: int)
    requires
        0 < maxv,
        0 < l,
        cx * cx + cz * cz <= l * l,
    ensures
        ({
            let rx = div_trunc(cx * maxv, l);
            let rz = div_trunc(cz * maxv, l);
            rx * rx + rz * rz <= maxv * maxv
        }),
{
    let rx = div_trunc(cx * maxv, l);
    let rz = div_trunc(cz * maxv, l);
    lemma_div_trunc_magnitude(cx * maxv, l);
    lemma_div_trunc_magnitude(cz * maxv, l);
    assert(iabs(l) == l);
    lemma_sq_prod_le(rx, cx * maxv, l);
    lemma_sq_prod_le(rz, cz * maxv, l);
    assert((cx * maxv) * (cx * maxv) == (cx * cx) * (maxv * maxv)) by (nonlinear_arith);
    assert((cz * maxv) * (cz * maxv) == (cz * cz) * (maxv * maxv)) by (nonlinear_arith);
    assert((cx * cx) * (maxv * maxv) + (cz * cz) * (maxv * maxv) <= (l * l) * (maxv * maxv))
        by (nonlinear_arith)
        requires
            cx * cx + cz * cz <= l * l,
            0 < maxv,
    ;
    assert((rx * rx + rz * rz) * (l * l) == (rx * rx) * (l * l) + (rz * rz) * (l * l))
        by (nonlinear_arith);
    assert(rx * rx + rz * rz <= maxv * maxv) by (nonlinear_arith)
        requires
            (rx * rx + rz * rz) * (l * l) <= (l * l) * (maxv * maxv),
            0 < l,
    ;
}

/// The rounded orthogonal projection of a horizontal vector onto the forward
/// axis never gets longer than the vector itself.
proof fn lemma_project_within(cx: int, cz: int, fx: int, fz: int)
    requires
        fx != 0 || fz != 0,
    ensures
        ({
            let q = fx * fx + fz * fz;
            let s = cx * fx + cz * fz;
            let px = div_trunc(s * fx, q);
            let pz = div_trunc(s * fz, q);
            px * px + pz * pz <= cx * cx + cz * cz
        }),
{
    let q = fx * fx + fz * fz;
    let s = cx * fx + cz * fz;
    let px = div_trunc(s * fx, q);
    let pz = div_trunc(s * fz, q);
    assert(1 <= q) by (nonlinear_arith)
        requires
            q == fx * fx + fz * fz,
            fx != 0 || fz != 0,
    ;
    lemma_div_trunc_magnitude(s * fx, q);
    lemma_div_trunc_magnitude(s * fz, q);
    assert(iabs(q) == q);
    lemma_sq_prod_le(px, s * fx, q);
    lemma_sq_prod_le(pz, s * fz, q);
    assert((s * fx) * (s * fx) + (s * fz) * (s * fz) == (s * s) * q) by (nonlinear_arith)
        requires
            q == fx * fx + fz * fz,
    ;
    lemma_cauchy_schwarz_plane(cx, cz, fx, fz);
    assert(s * s <= (cx * cx + cz * cz) * q);
    assert((s * s) * q <= ((cx * cx + cz * cz)) * (q * q)) by (nonlinear_arith)
        requires
            s * s <= (cx * cx + cz * cz) * q,
            1 <= q,
    ;
    assert((px * px + pz * pz) * (q * q) == (px * px) * (q * q) + (pz * pz) * (q * q))
        by (nonlinear_arith);
    assert(px * px + pz * pz <= cx * cx + cz * cz) by (nonlinear_arith)
        requires
            (px * px + pz * pz) * (q * q) <= (cx * cx + cz * cz) * (q * q),
            1 <= q,
    ;
}

/// Clamps the horizontal velocity's length to `maxv`, with the rounding the
/// specification stage records.
fn clamp_horizontal(cx: i64, cz: i64, maxv: i64) -> (r: Vec2Fx)
    requires
        iabs(cx as int) <= (FX_VEL_MAX + FX_PARAM_MAX) as int,
        iabs(cz as int) <= (FX_VEL_MAX + FX_PARAM_MAX) as int,
        0 < maxv <= FX_PARAM_MAX,
    ensures
        r.x as int == clamp_stage_s(cx as int, cz as int, maxv as int).0,
        r.z as int == clamp_stage_s(cx as int, cz as int, maxv as int).1,
        (r.x as int) * (r.x as int) + (r.z as int) * (r.z as int) <= (maxv as int) * (
        maxv as int),
        (r.x as int) * (r.x as int) + (r.z as int) * (r.z as int) <= (cx as int) * (cx as int) + (
        cz as int) * (cz as int),
        iabs(r.x as int) <= maxv as int,
        iabs(r.z as int) <= maxv as int,
{
    proof {
        let b = (FX_VEL_MAX + FX_PARAM_MAX) as int;
        assert(0 <= (cx as int) * (cx as int) <= 1_002_001_000_000_000_000_000_000 && 0 <= (
        cz as int) * (cz as int) <= 1_002_001_000_000_000_000_000_000) by (nonlinear_arith)
            requires
                iabs(cx as int) <= b,
                iabs(cz as int) <= b,
                b == 1_001_000_000_000,
        ;
        assert(0 <= (maxv as int) * (maxv as int) <= 1_000_000_000_000_000_000)
            by (nonlinear_arith)
            requires
                0 < maxv <= 1_000_000_000,
        ;
    }
    let n: i128 = (cx as i128) * (cx as i128) + (cz as i128) * (cz as i128);
    let m2: i128 = (maxv as i128) * (maxv as i128);
    if n <= m2 {
        proof {
            assert(iabs(cx as int) <= maxv as int && iabs(cz as int) <= maxv as int)
                by (nonlinear_arith)
                requires
                    (cx as int) * (cx as int) + (cz as int) * (cz as int) <= (maxv as int) * (
                    maxv as int),
                    0 < maxv,
            ;
        }
        Vec2Fx { x: cx, z: cz }
    } else {
        let l_u: u128 = isqrt_ceil_u128(n as u128);
        proof {
            assert(1 <= l_u && iabs(cx as int) <= l_u as int && iabs(cz as int) <= l_u as int)
                by (nonlinear_arith)
                requires
                    (n as int) <= (l_u as int) * (l_u as int),
                    (cx as int) * (cx as int) <= n as int,
                    (cz as int) * (cz as int) <= n as int,
                    1 <= n,
                    0 <= l_u,
            ;
            assert(iabs((cx as int) * (maxv as int)) <= ((FX_VEL_MAX + FX_PARAM_MAX) as int) * (
            FX_PARAM_MAX as int) && iabs((cz as int) * (maxv as int)) <= ((FX_VEL_MAX
                + FX_PARAM_MAX) as int) * (FX_PARAM_MAX as int)) by (nonlinear_arith)
                requires
                    iabs(cx as int) <= (FX_VEL_MAX + FX_PARAM_MAX) as int,
                    iabs(cz as int) <= (FX_VEL_MAX + FX_PARAM_MAX) as int,
                    0 < maxv <= FX_PARAM_MAX,
            ;
        }
        let l: i128 = l_u as i128;
        let rx: i128 = crate::fixed::div_trunc_i128((cx as i128) * (maxv as i128), l);
        let rz: i128 = crate::fixed::div_trunc_i128((cz as i128) * (maxv as i128), l);
        proof {
            lemma_div_trunc_prod_le(cx as int, maxv as int, l as int);
            lemma_div_trunc_prod_le(cz as int, maxv as int, l as int);
            lemma_clamp_scale_bound(cx as int, cz as int, maxv as int, l as int);
        }
        Vec2Fx { x: rx as i64, z: rz as i64 }
    }
}

/// Projects the clamped horizontal velocity back onto the forward axis.
fn project_horizontal(cx: i64, cz: i64, f: Vec2Fx) -> (r: Vec2Fx)
    requires
        iabs(cx as int) <= FX_PARAM_MAX as int,
        iabs(cz as int) <= FX_PARAM_MAX as int,
        f.in_bounds(FX_AXIS_MAX as int),
        f.x != 0 || f.z != 0,
    ensures
        r.x as int == project_stage_s(cx as int, cz as int, f).0,
        r.z as int == project_stage_s(cx as int, cz as int, f).1,
        (r.x as int) * (r.x as int) + (r.z as int) * (r.z as int) <= (cx as int) * (cx as int) + (
        cz as int) * (cz as int),
{
    proof {
        assert(0 <= (f.x as int) * (f.x as int) <= (FX_AXIS_MAX as int) * (FX_AXIS_MAX as int)
            && 0 <= (f.z as int) * (f.z as int) <= (FX_AXIS_MAX as int) * (FX_AXIS_MAX as int)
            && 1 <= (f.x as int) * (f.x as int) + (f.z as int) * (f.z as int) && iabs(
            (cx as int) * (f.x as int),
        ) <= (FX_PARAM_MAX as int) * (FX_AXIS_MAX as int) && iabs((cz as int) * (f.z as int)) <= (
        FX_PARAM_MAX as int) * (FX_AXIS_MAX as int)) by (nonlinear_arith)
            requires
                iabs(f.x as int) <= FX_AXIS_MAX as int,
                iabs(f.z as int) <= FX_AXIS_MAX as int,
                iabs(cx as int) <= FX_PARAM_MAX as int,
                iabs(cz as int) <= FX_PARAM_MAX as int,
                f.x != 0 || f.z != 0,
        ;
    }
    let q: i128 = (f.x as i128) * (f.x as i128) + (f.z as i128) * (f.z as i128);
    let s: i128 = (cx as i128) * (f.x as i128) + (cz as i128) * (f.z as i128);
    proof {
        assert(iabs((s as int) * (f.x as int)) <= 2 * ((FX_PARAM_MAX as int) * (
        FX_AXIS_MAX as int)) * (FX_AXIS_MAX as int) && iabs((s as int) * (f.z as int)) <= 2 * ((
        FX_PARAM_MAX as int) * (FX_AXIS_MAX as int)) * (FX_AXIS_MAX as int)) by (nonlinear_arith)
            requires
                iabs(s as int) <= 2 * ((FX_PARAM_MAX as int) * (FX_AXIS_MAX as int)),
                iabs(f.x as int) <= FX_AXIS_MAX as int,
                iabs(f.z as int) <= FX_AXIS_MAX as int,
        ;
    }
    let px: i128 = crate::fixed::div_trunc_i128(s * (f.x as i128), q);
    let pz: i128 = crate::fixed::div_trunc_i128(s * (f.z as i128), q);
    proof {
        lemma_project_within(cx as int, cz as int, f.x as int, f.z as int);
        assert(iabs(px as int) <= 2_000_000_000 && iabs(pz as int) <= 2_000_000_000)
            by (nonlinear_arith)
            requires
                (px as int) * (px as int) + (pz as int) * (pz as int) <= (cx as int) * (
                cx as int) + (cz as int) * (cz as int),
                iabs(cx as int) <= FX_PARAM_MAX as int,
                iabs(cz as int) <= FX_PARAM_MAX as int,
                FX_PARAM_MAX == 1_000_000_000,
        ;
    }
    Vec2Fx { x: px as i64, z: pz as i64 }
}

/// One tick of chassis motion integration.
///
/// Reads the held drive actions, updates the linear velocity (accelerate or
/// damp, clamp to the configured maximum, then re-project onto the forward
/// axis so no lateral component survives) and the turn velocity (steering
/// sign follows the drive direction, then damp and clamp), and returns the
/// yaw increment `turn_velocity * dt` to apply about the chassis's local
/// vertical axis.  The vertical velocity component is left to the physics
/// collaborator.  A missing chassis is the caller's no-op case; this
/// function itself never fails.
pub fn movement(
    velocity: &mut Vec3Fx,
    turn_velocity: &mut TurnVelocity,
    forward: Vec2Fx,
    params: &MovementParameters,
    actions: &ActionState,
    dt: i64,
) -> (yaw_delta: i64)
    requires
        params_wf(*params),
        tick_wf(*params, dt as int),
        old(velocity).in_bounds(FX_VEL_MAX as int),
        -FX_VEL_MAX <= old(turn_velocity).0 <= FX_VEL_MAX,
        forward.in_bounds(FX_AXIS_MAX as int),
        forward.x != 0 || forward.z != 0,
    ensures
        final(velocity).y == old(velocity).y,
        final(velocity).x as int == horizontal_velocity_s(
            old(velocity).x as int,
            old(velocity).z as int,
            forward,
            actions.move_forward,
            actions.move_backward,
            *params,
            dt as int,
        ).0,
        final(velocity).z as int == horizontal_velocity_s(
            old(velocity).x as int,
            old(velocity).z as int,
            forward,
            actions.move_forward,
            actions.move_backward,
            *params,
            dt as int,
        ).1,
        final(turn_velocity).0 as int == turn_velocity_s(
            old(turn_velocity).0 as int,
            actions.move_forward,
            actions.move_backward,
            actions.turn_left,
            actions.turn_right,
            *params,
            dt as int,
        ),
        yaw_delta as int == mul_fx_s(final(turn_velocity).0 as int, dt as int),
        (final(velocity).x as int) * (final(velocity).x as int) + (final(velocity).z as int) * (
        final(velocity).z as int) <= (params.max_velocity as int) * (params.max_velocity as int),
        -params.max_turn_velocity <= final(turn_velocity).0 <= params.max_turn_velocity,
{
    let vx0 = velocity.x;
    let vz0 = velocity.z;
    let vy0 = velocity.y;
    let fwd_held = actions.pressed(&Action::MoveForward);
    let bwd_held = actions.pressed(&Action::MoveBackward);

    let drive: Vec2Fx = if fwd_held && !bwd_held {
        let u = forward_unit(forward);
        let step = mul_fx(params.acceleration, dt);
        proof {
            lemma_mul_fx_bound(
                params.acceleration as int,
                dt as int,
                FX_PARAM_MAX as int,
                FX_SCALE as int,
            );
            lemma_mul_fx_bound(u.x as int, step as int, FX_SCALE as int, FX_PARAM_MAX as int);
            lemma_mul_fx_bound(u.z as int, step as int, FX_SCALE as int, FX_PARAM_MAX as int);
        }
        Vec2Fx { x: vx0 + mul_fx(u.x, step), z: vz0 + mul_fx(u.z, step) }
    } else if !fwd_held && bwd_held {
        let u = forward_unit(forward);
        let step = mul_fx(params.acceleration, dt);
        proof {
            lemma_mul_fx_bound(
                params.acceleration as int,
                dt as int,
                FX_PARAM_MAX as int,
                FX_SCALE as int,
            );
            lemma_mul_fx_bound(u.x as int, step as int, FX_SCALE as int, FX_PARAM_MAX as int);
            lemma_mul_fx_bound(u.z as int, step as int, FX_SCALE as int, FX_PARAM_MAX as int);
        }
        Vec2Fx { x: vx0 - mul_fx(u.x, step), z: vz0 - mul_fx(u.z, step) }
    } else {
        let k = FX_SCALE - mul_fx(params.dampening, dt);
        proof {
            lemma_mul_fx_nonneg(params.dampening as int, dt as int);
            lemma_mul_fx_shrinks(vx0 as int, k as int);
            lemma_mul_fx_shrinks(vz0 as int, k as int);
        }
        Vec2Fx { x: mul_fx(vx0, k), z: mul_fx(vz0, k) }
    };
    let clamped = clamp_horizontal(drive.x, drive.z, params.max_velocity);
    let projected = project_horizontal(clamped.x, clamped.z, forward);
    *velocity = Vec3Fx { x: projected.x, y: vy0, z: projected.z };

    let left_held = actions.pressed(&Action::TurnLeft);
    let right_held = actions.pressed(&Action::TurnRight);
    let tv0 = turn_velocity.0;
    let tv_raw: i64 = if left_held && !right_held {
        let step = mul_fx(params.turn_acceleration, dt);
        proof {
            lemma_mul_fx_bound(
                params.turn_acceleration as int,
                dt as int,
                FX_PARAM_MAX as int,
                FX_SCALE as int,
            );
        }
        if bwd_held && !fwd_held {
            tv0 - step
        } else {
            tv0 + step
        }
    } else if !left_held && right_held {
        let step = mul_fx(params.turn_acceleration, dt);
        proof {
            lemma_mul_fx_bound(
                params.turn_acceleration as int,
                dt as int,
                FX_PARAM_MAX as int,
                FX_SCALE as int,
            );
        }
        if bwd_held && !fwd_held {
            tv0 + step
        } else {
            tv0 - step
        }
    } else {
        let kt = FX_SCALE - mul_fx(params.turn_dampening, dt);
        proof {
            lemma_mul_fx_nonneg(params.turn_dampening as int, dt as int);
            lemma_mul_fx_shrinks(tv0 as int, kt as int);
        }
        mul_fx(tv0, kt)
    };
    let maxt = params.max_turn_velocity;
    let tv_new: i64 = if tv_raw < -maxt {
        -maxt
    } else if tv_raw > maxt {
        maxt
    } else {
        tv_raw
    };
    turn_velocity.0 = tv_new;
    mul_fx(tv_new, dt)
}

/// The clamp stage never lengthens the horizontal velocity and always lands
/// within the configured maximum.
proof fn lemma_clamp_stage_within(cx: int, cz: int, maxv: int)
    requires
        0 < maxv,
    ensures
        ({
            let c = clamp_stage_s(cx, cz, maxv);
            c.0 * c.0 + c.1 * c.1 <= maxv * maxv && c.0 * c.0 + c.1 * c.1 <= cx * cx + cz * cz
        }),
{
    let n = cx * cx + cz * cz;
    let m2 = maxv * maxv;
    assert(0 <= n && 1 <= m2) by (nonlinear_arith)
        requires
            n == cx * cx + cz * cz,
            m2 == maxv * maxv,
            0 < maxv,
    ;
    if n <= m2 {
    } else {
        lemma_sqrt_ceil_props(n);
        let l = sqrt_ceil(n);
        lemma_clamp_scale_bound(cx, cz, maxv, l);
    }
}

/// The projection stage never lengthens the horizontal velocity.
proof fn lemma_project_stage_within(cx: int, cz: int, f: Vec2Fx)
    requires
        f.x != 0 || f.z != 0,
    ensures
        ({
            let n = project_stage_s(cx, cz, f);
            n.0 * n.0 + n.1 * n.1 <= cx * cx + cz * cz
        }),
{
    lemma_project_within(cx, cz, f.x as int, f.z as int);
}

/// With neither drive action held and a positive damping step, one tick of
/// the horizontal pipeline strictly reduces the squared horizontal speed, or
/// holds it at exactly zero.
pub proof fn lemma_damping_strictly_slows(
    vx: int,
    vz: int,
    f: Vec2Fx,
    p: MovementParameters,
    dt: int,
)
    requires
        params_wf(p),
        tick_wf(p, dt),
        1 <= mul_fx_s(p.dampening as int, dt),
        f.x != 0 || f.z != 0,
    ensures
        ({
            let n = horizontal_velocity_s(vx, vz, f, false, false, p, dt);
            &&& ((vx == 0 && vz == 0) ==> (n.0 == 0 && n.1 == 0))
            &&& ((vx != 0 || vz != 0) ==> n.0 * n.0 + n.1 * n.1 < vx * vx + vz * vz)
        }),
{
    let k = FX_SCALE as int - mul_fx_s(p.dampening as int, dt);
    lemma_mul_fx_nonneg(p.dampening as int, dt as int);
    let dx = mul_fx_s(vx, k);
    let dz = mul_fx_s(vz, k);
    lemma_mul_fx_shrinks(vx, k);
    lemma_mul_fx_shrinks(vz, k);
    if vx == 0 && vz == 0 {
        assert(dx == 0 && dz == 0);
        assert(clamp_stage_s(0, 0, p.max_velocity as int) == (0int, 0int)) by {
            assert(0 * 0 + 0 * 0 <= (p.max_velocity as int) * (p.max_velocity as int))
                by (nonlinear_arith)
                requires
                    0 < p.max_velocity,
            ;
        }
        let s = dot2_s(0, 0, f.x as int, f.z as int);
        assert(s == 0);
        assert(s * (f.x as int) == 0 && s * (f.z as int) == 0) by (nonlinear_arith)
            requires
                s == 0,
        ;
        assert(1 <= f.norm2()) by (nonlinear_arith)
            requires
                f.norm2() == (f.x as int) * (f.x as int) + (f.z as int) * (f.z as int),
                f.x != 0 || f.z != 0,
        ;
        lemma_div_trunc_magnitude(0, f.norm2());
        assert(iabs(div_trunc(0, f.norm2())) <= iabs(0));
    } else {
        assert(dx * dx <= vx * vx && dz * dz <= vz * vz && dx * dx + dz * dz < vx * vx + vz * vz)
            by (nonlinear_arith)
            requires
                iabs(dx) <= iabs(vx),
                iabs(dz) <= iabs(vz),
                vx != 0 ==> iabs(dx) < iabs(vx),
                vz != 0 ==> iabs(dz) < iabs(vz),
                vx != 0 || vz != 0,
        ;
        lemma_clamp_stage_within(dx, dz, p.max_velocity as int);
        let c = clamp_stage_s(dx, dz, p.max_velocity as int);
        lemma_project_stage_within(c.0, c.1, f);
    }
}

/// The unrounded no-slip projection is exactly parallel to the forward axis:
/// its cross product with the axis vanishes identically.
pub proof fn lemma_projection_exactly_parallel(cx: int, cz: int, fx: int, fz: int)
    ensures
        cross2_s(dot2_s(cx, cz, fx, fz) * fx, dot2_s(cx, cz, fx, fz) * fz, fx, fz) == 0,
{
    let s = dot2_s(cx, cz, fx, fz);
    assert((s * fx) * fz - (s * fz) * fx == 0) by (nonlinear_arith);
}

/// The stored velocity of the projection stage deviates from exact
/// parallelism with the forward axis by less than one rounding unit per
/// component: its cross product with the axis stays below `|f.x| + |f.z|`.
proof fn lemma_project_stage_residual(cx: int, cz: int, f: Vec2Fx)
    requires
        f.x != 0 || f.z != 0,
    ensures
        ({
            let n = project_stage_s(cx, cz, f);
            iabs(cross2_s(n.0, n.1, f.x as int, f.z as int)) < iabs(f.x as int) + iabs(
                f.z as int,
            )
        }),
{
    let fx = f.x as int;
    let fz = f.z as int;
    let q = f.norm2();
    let s = dot2_s(cx, cz, fx, fz);
    let px = div_trunc(s * fx, q);
    let pz = div_trunc(s * fz, q);
    assert(1 <= q) by (nonlinear_arith)
        requires
            q == fx * fx + fz * fz,
            fx != 0 || fz != 0,
    ;
    lemma_div_trunc_residual(s * fx, q);
    lemma_div_trunc_residual(s * fz, q);
    let ex = px * q - s * fx;
    let ez = pz * q - s * fz;
    assert(iabs(ex) <= q - 1 && iabs(ez) <= q - 1);
    let cr = cross2_s(px, pz, fx, fz);
    assert(cr * q == ex * fz - ez * fx) by (nonlinear_arith)
        requires
            ex == px * q - s * fx,
            ez == pz * q - s * fz,
            cr == px * fz - pz * fx,
    ;
    let ucr = iabs(cr);
    let uex = iabs(ex);
    let uez = iabs(ez);
    let ufx = iabs(fx);
    let ufz = iabs(fz);
    assert(ucr == cr || ucr == -cr);
    assert(uex == ex || uex == -ex);
    assert(uez == ez || uez == -ez);
    assert(ufx == fx || ufx == -fx);
    assert(ufz == fz || ufz == -fz);
    assert(1 <= ufx + ufz);
    assert(ucr * q < (ufx + ufz) * q) by (nonlinear_arith)
        requires
            cr * q == ex * fz - ez * fx,
            ucr == cr || ucr == -cr,
            uex == ex || uex == -ex,
            uez == ez || uez == -ez,
            ufx == fx || ufx == -fx,
            ufz == fz || ufz == -fz,
            0 <= ucr,
            0 <= uex,
            0 <= uez,
            0 <= ufx,
            0 <= ufz,
            uex <= q - 1,
            uez <= q - 1,
            1 <= ufx + ufz,
            1 <= q,
    ;
    assert(ucr < ufx + ufz) by (nonlinear_arith)
        requires
            ucr * q < (ufx + ufz) * q,
            1 <= q,
    ;
}

/// After any integration tick the stored horizontal velocity is parallel to
/// the chassis forward axis up to less than one rounding unit per component.
pub proof fn lemma_no_lateral_slip(
    vx: int,
    vz: int,
    f: Vec2Fx,
    fwd: bool,
    bwd: bool,
    p: MovementParameters,
    dt: int,
)
    requires
        params_wf(p),
        tick_wf(p, dt),
        f.x != 0 || f.z != 0,
    ensures
        ({
            let n = horizontal_velocity_s(vx, vz, f, fwd, bwd, p, dt);
            iabs(cross2_s(n.0, n.1, f.x as int, f.z as int)) < iabs(f.x as int) + iabs(
                f.z as int,
            )
        }),
{
    let d = drive_stage_s(vx, vz, f, fwd, bwd, p.acceleration as int, p.dampening as int, dt);
    let c = clamp_stage_s(d.0, d.1, p.max_velocity as int);
    lemma_project_stage_residual(c.0, c.1, f);
}

/// Reversing the drive direction inverts the steering sense: with mirrored
/// turn state, holding MoveBackward yields exactly the negated turn velocity
/// of holding MoveForward under the same steering input.
pub proof fn lemma_reverse_steering_inverts(
    tv: int,
    left: bool,
    right: bool,
    p: MovementParameters,
    dt: int,
)
    requires
        params_wf(p),
        tick_wf(p, dt),
    ensures
        turn_velocity_s(-tv, false, true, left, right, p, dt) == -turn_velocity_s(
            tv,
            true,
            false,
            left,
            right,
            p,
            dt,
        ),
{
    let kt = FX_SCALE as int - mul_fx_s(p.turn_dampening as int, dt);
    lemma_mul_fx_neg(tv, kt);
}

} // verus!
