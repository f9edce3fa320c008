//! Ballistic launch-angle solving for a projectile under gravity.

use crate::fixed::{
    div_trunc, iabs, isqrt_u128, lemma_div_trunc_le, lemma_mul_fx_bound, lemma_sqrt_floor_is,
    mul_fx, mul_fx_s, sqrt_floor, FX_SCALE,
};
use crate::vec::Vec3Fx;
use vstd::prelude::*;

verus! {

/// Raw magnitude bound for launch speeds (a thousand units per second).
pub const FX_SPEED_MAX: i64 = 1_000_000_000;

/// Raw magnitude bound for the gravity magnitude (a hundred units per second
/// squared).
pub const FX_GRAVITY_MAX: i64 = 100_000_000;

/// Raw magnitude bound for launch and target positions handed to the solver.
pub const FX_RANGE_MAX: i64 = 1_000_000_000;

/// The kinds of projectile the game fires.
#[derive(Clone, Copy, PartialEq, Eq, Structural, Debug, Default)]
pub enum ProjectileType {
    #[default]
    Standard,
}

/// A projectile's configuration: its kind and its launch speed.
#[derive(Clone, Copy, PartialEq, Eq, Structural, Debug)]
pub struct Projectile {
    pub projectile_type: ProjectileType,
    pub velocity: i64,
}

/// A launch direction within the vertical plane through launch point and
/// target: the angle above the horizon is `atan2(vertical, horizontal)`.
#[derive(Clone, Copy, PartialEq, Eq, Structural, Debug)]
pub struct LaunchAngle {
    pub vertical: i64,
    pub horizontal: i64,
}

/// The ballistic discriminant `v^4 - g*(g*x^2 - 2*y*v^2)` in fixed-point
/// arithmetic, for horizontal distance `x` and height advantage `y` of the
/// launch point over the target.  The target is reachable at speed `v`
/// exactly when this is non-negative.
pub open spec fn ballistic_discriminant_s(v: int, x: int, y: int, g: int) -> int {
    let v2 = mul_fx_s(v, v);
    let v4 = mul_fx_s(v2, v2);
    let x2 = mul_fx_s(x, x);
    v4 - mul_fx_s(g, mul_fx_s(g, x2) - 2 * mul_fx_s(y, v2))
}

/// The low-arc launch direction for a reachable target: rise `v^2 - sqrt(d)`
/// over run `g*x`, with the square root carried out at the fixed-point
/// scale.
pub open spec fn launch_angle_s(v: int, x: int, g: int, d: int) -> (int, int) {
    (
        mul_fx_s(v, v) - sqrt_floor(d * (FX_SCALE as int)),
        mul_fx_s(g, x),
    )
}

impl Projectile {
    /// Solves for the low-arc launch angle that hits `target_position` from
    /// `launch_position` at this projectile's speed under gravity `g`.
    ///
    /// Returns the launch direction in the vertical plane through the two
    /// points, or `None` exactly when the target is out of reach at this
    /// speed (negative discriminant).  A zero-length run (target straight
    /// above or below) yields a vertical direction.
    pub fn calculate_angle_to_hit_target(
        &self,
        launch_position: Vec3Fx,
        target_position: Vec3Fx,
        g: i64,
    ) -> (r: Option<LaunchAngle>)
        requires
            0 < self.velocity <= FX_SPEED_MAX,
            0 < g <= FX_GRAVITY_MAX,
            launch_position.in_bounds(FX_RANGE_MAX as int),
            target_position.in_bounds(FX_RANGE_MAX as int),
        ensures
            ({
                let x = launch_position.xz_s().distance_s(target_position.xz_s());
                let y = launch_position.y as int - target_position.y as int;
                let d = ballistic_discriminant_s(self.velocity as int, x, y, g as int);
                match r {
                    Option::Some(a) => d >= 0 && (a.vertical as int, a.horizontal as int)
                        == launch_angle_s(self.velocity as int, x, g as int, d),
                    Option::None => d < 0,
                }
            }),
    {
        let x: i64 = launch_position.xz().distance(target_position.xz());
        let y: i64 = launch_position.y - target_position.y;
        let v: i64 = self.velocity;
        let v2: i64 = mul_fx(v, v);
        proof {
            lemma_mul_fx_bound(v as int, v as int, FX_SPEED_MAX as int, FX_SPEED_MAX as int);
        }
        let v4: i64 = mul_fx(v2, v2);
        proof {
            lemma_mul_fx_bound(v2 as int, v2 as int, 1_000_000_000_000, 1_000_000_000_000);
        }
        let x2: i64 = mul_fx(x, x);
        proof {
            lemma_mul_fx_bound(x as int, x as int, 30_000_000_000, 30_000_000_000);
            assert(iabs((g as int) * (x2 as int)) <= 90_000_000_000_000_000_000_000)
                by (nonlinear_arith)
                requires
                    0 < g <= 100_000_000,
                    iabs(x2 as int) <= 900_000_000_000_000,
            ;
            lemma_div_trunc_le(
                (g as int) * (x2 as int),
                FX_SCALE as int,
                90_000_000_000_000_000_000_000,
                FX_SCALE as int,
            );
            assert(iabs((y as int) * (v2 as int)) <= 2_000_000_000_000_000_000_000)
                by (nonlinear_arith)
                requires
                    iabs(y as int) <= 2_000_000_000,
                    iabs(v2 as int) <= 1_000_000_000_000,
            ;
            lemma_div_trunc_le(
                (y as int) * (v2 as int),
                FX_SCALE as int,
                2_000_000_000_000_000_000_000,
                FX_SCALE as int,
            );
        }
        let gx2: i128 = crate::fixed::div_trunc_i128(
            (g as i128) * (x2 as i128),
            FX_SCALE as i128,
        );
        let yv2: i128 = crate::fixed::div_trunc_i128(
            (y as i128) * (v2 as i128),
            FX_SCALE as i128,
        );
        let inner: i128 = gx2 - 2 * yv2;
        proof {
            assert(iabs((g as int) * (inner as int)) <= 10_000_000_000_000_000_000_000_000)
                by (nonlinear_arith)
                requires
                    0 < g <= 100_000_000,
                    iabs(inner as int) <= 100_000_000_000_000_000,
            ;
            lemma_div_trunc_le(
                (g as int) * (inner as int),
                FX_SCALE as int,
                10_000_000_000_000_000_000_000_000,
                FX_SCALE as int,
            );
        }
        let g_inner: i128 = crate::fixed::div_trunc_i128((g as i128) * inner, FX_SCALE as i128);
        let d: i128 = (v4 as i128) - g_inner;
        if d < 0 {
            None
        } else {
            proof {
                assert(0 <= (d as int) * (FX_SCALE as int) <= 20_000_000_000_000_000_000_000_000)
                    by (nonlinear_arith)
                    requires
                        0 <= d <= 11_000_000_000_000_000_000,
                        FX_SCALE == 1_000_000,
                ;
            }
            let ds: i128 = d * (FX_SCALE as i128);
            let root: u128 = isqrt_u128(ds as u128);
            proof {
                assert(root <= 5_000_000_000_000) by (nonlinear_arith)
                    requires
                        (root as int) * (root as int) <= ds as int,
                        ds <= 20_000_000_000_000_000_000_000_000,
                        0 <= root,
                ;
                lemma_sqrt_floor_is(ds as int, root as int);
            }
            let vertical: i64 = v2 - (root as i64);
            let horizontal: i64 = mul_fx(g, x);
            proof {
                lemma_mul_fx_bound(g as int, x as int, FX_GRAVITY_MAX as int, 30_000_000_000);
            }
            Some(LaunchAngle { vertical, horizontal })
        }
    }
}

} // verus!
