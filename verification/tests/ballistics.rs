//! Ballistic angle solving on concrete launch requests.

use tanks::projectile::{LaunchAngle, Projectile, ProjectileType};
use tanks::vec::Vec3Fx;

fn standard(velocity: i64) -> Projectile {
    Projectile { projectile_type: ProjectileType::Standard, velocity }
}

#[test]
fn reachable_target_yields_low_arc_angle() {
    // launch (0,0,0), target (10,0,0), v = 15, g = 9.8.
    let projectile = standard(15_000_000);
    let launch = Vec3Fx { x: 0, y: 0, z: 0 };
    let target = Vec3Fx { x: 10_000_000, y: 0, z: 0 };
    let angle = projectile
        .calculate_angle_to_hit_target(launch, target, 9_800_000)
        .expect("the target is reachable at this speed");
    // discriminant = v^4 - g*(g*x^2) = 50625 - 9604 = 41021 units^2;
    // rise = v^2 - sqrt(41021) = 225 - 202.536416; run = g*x = 98.
    assert_eq!(angle.horizontal, 98_000_000);
    assert_eq!(angle.vertical, 22_463_584);
    assert!(angle.vertical > 0);
}

#[test]
fn too_slow_for_distant_target_is_no_solution() {
    // v = 1 against a target 1000 units away.
    let projectile = standard(1_000_000);
    let launch = Vec3Fx { x: 0, y: 0, z: 0 };
    let target = Vec3Fx { x: 1_000_000_000, y: 0, z: 0 };
    let angle = projectile.calculate_angle_to_hit_target(launch, target, 9_800_000);
    assert!(angle.is_none());
}

#[test]
fn target_straight_above_gives_vertical_direction() {
    let projectile = standard(15_000_000);
    let launch = Vec3Fx { x: 0, y: 0, z: 0 };
    let target = Vec3Fx { x: 0, y: 5_000_000, z: 0 };
    let angle = projectile
        .calculate_angle_to_hit_target(launch, target, 9_800_000)
        .expect("a fast projectile reaches a target five units up");
    // Zero horizontal run: atan2(rise, 0) aims straight along the vertical.
    assert_eq!(angle.horizontal, 0);
    assert!(angle.vertical > 0);
}

#[test]
fn height_advantage_widens_reach() {
    // From 50 units up, a slow projectile still reaches a target at ground
    // level 20 units out; from the ground the same shot is unreachable.
    let projectile = standard(10_000_000);
    let high = Vec3Fx { x: 0, y: 50_000_000, z: 0 };
    let low = Vec3Fx { x: 0, y: 0, z: 0 };
    let target = Vec3Fx { x: 20_000_000, y: 0, z: 0 };
    assert!(projectile.calculate_angle_to_hit_target(high, target, 9_800_000).is_some());
    assert!(projectile.calculate_angle_to_hit_target(low, target, 9_800_000).is_none());
}

#[test]
fn launch_angle_components_are_plain_values() {
    let angle = LaunchAngle { vertical: 3, horizontal: 4 };
    assert_eq!(angle, LaunchAngle { vertical: 3, horizontal: 4 });
}
