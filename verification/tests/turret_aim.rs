//! Turret orientation solving and aim-point resolution on concrete ticks.

use tanks::project_vector_onto_plane_y_axis;
use tanks::turret::{aim_turret, mat_mul_fx, update_aim_position, Mat3Fx, Ray, RayHitInfo};
use tanks::vec::Vec3Fx;

fn v(x: i64, y: i64, z: i64) -> Vec3Fx {
    Vec3Fx { x, y, z }
}

fn identity() -> Mat3Fx {
    Mat3Fx { c0: v(1_000_000, 0, 0), c1: v(0, 1_000_000, 0), c2: v(0, 0, 1_000_000) }
}

fn yaw_quarter() -> Mat3Fx {
    Mat3Fx { c0: v(0, 0, 1_000_000), c1: v(0, 1_000_000, 0), c2: v(-1_000_000, 0, 0) }
}

fn yaw_half() -> Mat3Fx {
    Mat3Fx { c0: v(-1_000_000, 0, 0), c1: v(0, 1_000_000, 0), c2: v(0, 0, -1_000_000) }
}

fn roll_quarter() -> Mat3Fx {
    Mat3Fx { c0: v(0, 1_000_000, 0), c1: v(-1_000_000, 0, 0), c2: v(0, 0, 1_000_000) }
}

fn solve(chassis: Mat3Fx) -> Mat3Fx {
    aim_turret(
        v(3_000_000, 0, 4_000_000),
        v(0, 0, 0),
        v(0, 0, 0),
        v(0, 1_000_000, 0),
        chassis,
    )
    .expect("a level turret with an off-axis aim point has a solution")
}

#[test]
fn turret_aims_at_projected_target() {
    // Identity chassis: the local orientation is the desired world
    // orientation itself, whose forward column is the aim direction.
    let local = solve(identity());
    assert_eq!(local.c2, v(3_000_000, 0, 4_000_000));
    // Right axis is the horizontal perpendicular of the aim direction.
    assert_eq!(local.c0, v(4_000_000, 0, -3_000_000));
    // Up axis is their cross product at the fixed-point scale.
    assert_eq!(local.c1, v(0, 25_000_000, 0));
}

#[test]
fn world_aim_is_invariant_under_chassis_rotation() {
    // For a fixed aim point, the composed world orientation (local composed
    // with the chassis) is the same whatever the chassis orientation.
    let world_identity = mat_mul_fx(solve(identity()), identity());
    for chassis in [yaw_quarter(), yaw_half(), roll_quarter()] {
        let world = mat_mul_fx(solve(chassis), chassis);
        assert_eq!(world, world_identity);
    }
    assert_eq!(world_identity.c2, v(3_000_000, 0, 4_000_000));
}

#[test]
fn degenerate_up_axis_holds_previous_orientation() {
    // An up axis with no vertical component cannot define the projection
    // plane: the solver reports no solution and the caller keeps the old
    // orientation.
    let r = aim_turret(
        v(3_000_000, 0, 4_000_000),
        v(0, 0, 0),
        v(0, 0, 0),
        v(1_000_000, 0, 0),
        identity(),
    );
    assert!(r.is_none());
    // The same holds when the vertical component is too small for the
    // fixed-point scale.
    let r2 = aim_turret(
        v(3_000_000, 0, 4_000_000),
        v(0, 0, 0),
        v(0, 0, 0),
        v(1_000_000, 100_000, 0),
        identity(),
    );
    assert!(r2.is_none());
}

#[test]
fn aim_point_on_turret_axis_holds_previous_orientation() {
    let r = aim_turret(
        v(0, 5_000_000, 0),
        v(0, 0, 0),
        v(0, 0, 0),
        v(0, 1_000_000, 0),
        identity(),
    );
    assert!(r.is_none());
}

#[test]
fn plane_projection_solves_the_vertical_component() {
    // Horizontal plane one unit up: the vertical component becomes one.
    let r = project_vector_onto_plane_y_axis(
        v(2_000_000, 9_000_000, 3_000_000),
        v(0, 1_000_000, 0),
        v(0, 1_000_000, 0),
    );
    assert_eq!(r, v(2_000_000, 1_000_000, 3_000_000));
    // Tilted plane through the origin: x/2 + y = 0, so x = 2 gives y = -1.
    let tilted = project_vector_onto_plane_y_axis(
        v(2_000_000, 9_000_000, 0),
        v(500_000, 1_000_000, 0),
        v(0, 0, 0),
    );
    assert_eq!(tilted.y, -1_000_000);
    assert_eq!(tilted.x, 2_000_000);
    assert_eq!(tilted.z, 0);
}

#[test]
fn ray_hit_moves_the_aim_point() {
    let mut aim = v(1_000_000, 2_000_000, 3_000_000);
    let ray = Ray { origin: v(0, 10_000_000, 0), direction: v(0, -1_000_000, 0) };
    update_aim_position(&mut aim, Some(ray), Some(RayHitInfo { time_of_impact: 10_000_000 }));
    // origin + direction * 10 lands on the ground plane.
    assert_eq!(aim, v(0, 0, 0));
}

#[test]
fn missed_ray_leaves_aim_point_unchanged() {
    let prior = v(1_000_000, 2_000_000, 3_000_000);
    let ray = Ray { origin: v(0, 10_000_000, 0), direction: v(0, -1_000_000, 0) };

    let mut aim = prior;
    update_aim_position(&mut aim, Some(ray), None);
    assert_eq!(aim, prior);

    let mut aim2 = prior;
    update_aim_position(&mut aim2, None, None);
    assert_eq!(aim2, prior);
}

#[test]
fn transpose_inverts_an_axis_aligned_rotation() {
    let m = yaw_quarter();
    let t = m.transpose();
    assert_eq!(mat_mul_fx(m, t), identity());
    assert_eq!(mat_mul_fx(t, m), identity());
}
