//! Chassis motion integration: drive, damping, clamping, no-slip and
//! reverse-steering behaviour on concrete ticks.

use tanks::game::ActionState;
use tanks::player::{movement, MovementParameters, TurnVelocity};
use tanks::vec::{Vec2Fx, Vec3Fx};

const DT: i64 = 16_667;

fn no_input() -> ActionState {
    ActionState {
        turn_left: false,
        turn_right: false,
        move_forward: false,
        move_backward: false,
        shoot: false,
        aim: false,
    }
}

fn forward_axis() -> Vec2Fx {
    // The chassis looks down the negative z axis, one unit long.
    Vec2Fx { x: 0, z: -1_000_000 }
}

#[test]
fn forward_drive_accelerates_along_forward_axis() {
    let mut velocity = Vec3Fx { x: 0, y: 0, z: 0 };
    let mut turn_velocity = TurnVelocity(0);
    let params = MovementParameters::default();
    let actions = ActionState { move_forward: true, ..no_input() };
    let yaw = movement(
        &mut velocity,
        &mut turn_velocity,
        forward_axis(),
        &params,
        &actions,
        DT,
    );
    // acceleration * dt = 3.0 * 1/60 s = 50_001 micro-units, along -z.
    assert_eq!(velocity.x, 0);
    assert_eq!(velocity.y, 0);
    assert_eq!(velocity.z, -50_001);
    assert_eq!(turn_velocity.0, 0);
    assert_eq!(yaw, 0);
}

#[test]
fn damping_tick_strictly_slows_and_zero_stays_zero() {
    let params = MovementParameters::default();
    let mut velocity = Vec3Fx { x: 0, y: 0, z: -1_000_000 };
    let mut turn_velocity = TurnVelocity(0);
    movement(
        &mut velocity,
        &mut turn_velocity,
        forward_axis(),
        &params,
        &no_input(),
        DT,
    );
    // factor 1 - 10.0 * dt = 0.833330 exactly.
    assert_eq!(velocity.z, -833_330);
    assert!(velocity.z.abs() < 1_000_000);

    let mut at_rest = Vec3Fx { x: 0, y: 0, z: 0 };
    movement(
        &mut at_rest,
        &mut turn_velocity,
        forward_axis(),
        &params,
        &no_input(),
        DT,
    );
    assert_eq!((at_rest.x, at_rest.z), (0, 0));
}

#[test]
fn both_drive_actions_held_damp_like_neither() {
    let params = MovementParameters::default();
    let both = ActionState { move_forward: true, move_backward: true, ..no_input() };
    let mut velocity = Vec3Fx { x: 0, y: 0, z: -1_000_000 };
    let mut turn_velocity = TurnVelocity(0);
    movement(&mut velocity, &mut turn_velocity, forward_axis(), &params, &both, DT);
    assert_eq!(velocity.z, -833_330);
}

#[test]
fn horizontal_speed_is_clamped_to_max_velocity() {
    let params = MovementParameters::default();
    let mut velocity = Vec3Fx { x: 0, y: 0, z: -3_000_000 };
    let mut turn_velocity = TurnVelocity(0);
    // Hold forward so no damping shrinks the velocity before the clamp.
    let actions = ActionState { move_forward: true, ..no_input() };
    movement(
        &mut velocity,
        &mut turn_velocity,
        forward_axis(),
        &params,
        &actions,
        DT,
    );
    // |v| never exceeds max_velocity = 2.0 units.
    let speed2 = (velocity.x as i128) * (velocity.x as i128)
        + (velocity.z as i128) * (velocity.z as i128);
    assert!(speed2 <= 2_000_000i128 * 2_000_000i128);
    assert_eq!(velocity.z, -2_000_000);
}

#[test]
fn lateral_velocity_component_is_projected_away() {
    // No damping, so the projection alone is visible.
    let params = MovementParameters {
        acceleration: 3_000_000,
        dampening: 0,
        max_velocity: 2_000_000,
        turn_acceleration: 20_000_000,
        turn_dampening: 0,
        max_turn_velocity: 1_570_796,
    };
    let mut velocity = Vec3Fx { x: 1_000_000, y: 0, z: -1_000_000 };
    let mut turn_velocity = TurnVelocity(0);
    movement(
        &mut velocity,
        &mut turn_velocity,
        forward_axis(),
        &params,
        &no_input(),
        DT,
    );
    // The sideways x component is gone; the forward z component survives.
    assert_eq!(velocity.x, 0);
    assert_eq!(velocity.z, -1_000_000);
}

#[test]
fn vertical_velocity_is_left_to_the_physics_engine() {
    let params = MovementParameters::default();
    let mut velocity = Vec3Fx { x: 0, y: -123_456, z: 0 };
    let mut turn_velocity = TurnVelocity(0);
    movement(
        &mut velocity,
        &mut turn_velocity,
        forward_axis(),
        &params,
        &no_input(),
        DT,
    );
    assert_eq!(velocity.y, -123_456);
}

#[test]
fn reverse_steering_inverts_turn_sense() {
    let params = MovementParameters::default();
    let forward_left = ActionState { move_forward: true, turn_left: true, ..no_input() };
    let backward_left = ActionState { move_backward: true, turn_left: true, ..no_input() };

    let mut velocity = Vec3Fx { x: 0, y: 0, z: 0 };
    let mut tv_forward = TurnVelocity(0);
    let yaw_forward = movement(
        &mut velocity,
        &mut tv_forward,
        forward_axis(),
        &params,
        &forward_left,
        DT,
    );

    let mut velocity2 = Vec3Fx { x: 0, y: 0, z: 0 };
    let mut tv_backward = TurnVelocity(0);
    let yaw_backward = movement(
        &mut velocity2,
        &mut tv_backward,
        forward_axis(),
        &params,
        &backward_left,
        DT,
    );

    // turn_acceleration * dt = 333_340; reversing flips its sign.
    assert_eq!(tv_forward.0, 333_340);
    assert_eq!(tv_backward.0, -333_340);
    assert_eq!(tv_backward.0, -tv_forward.0);
    assert_eq!(yaw_forward, 5_555);
    assert_eq!(yaw_backward, -5_555);
    assert_eq!(yaw_backward, -yaw_forward);
}

#[test]
fn turn_velocity_is_clamped_to_max() {
    let params = MovementParameters::default();
    let actions = ActionState { move_forward: true, turn_left: true, ..no_input() };
    let mut velocity = Vec3Fx { x: 0, y: 0, z: 0 };
    let mut turn_velocity = TurnVelocity(1_500_000);
    movement(
        &mut velocity,
        &mut turn_velocity,
        forward_axis(),
        &params,
        &actions,
        DT,
    );
    // 1_500_000 + 333_340 overshoots the cap of pi/2 per second.
    assert_eq!(turn_velocity.0, 1_570_796);
}

#[test]
fn turn_velocity_damps_without_steering_input() {
    let params = MovementParameters::default();
    let mut velocity = Vec3Fx { x: 0, y: 0, z: 0 };
    let mut turn_velocity = TurnVelocity(1_000_000);
    movement(
        &mut velocity,
        &mut turn_velocity,
        forward_axis(),
        &params,
        &no_input(),
        DT,
    );
    // factor 1 - 15.0 * dt = 0.749995 exactly.
    assert_eq!(turn_velocity.0, 749_995);
}

#[test]
fn diagonal_forward_axis_keeps_velocity_parallel() {
    let params = MovementParameters {
        acceleration: 3_000_000,
        dampening: 0,
        max_velocity: 2_000_000,
        turn_acceleration: 20_000_000,
        turn_dampening: 0,
        max_turn_velocity: 1_570_796,
    };
    // 45 degrees: the exact unit vector does not exist on the grid, so the
    // stored velocity may keep a lateral residual, but it stays below one
    // rounding step per component.
    let diagonal = Vec2Fx { x: -707_107, z: -707_107 };
    let mut velocity = Vec3Fx { x: 500_000, y: 0, z: -1_500_000 };
    let mut turn_velocity = TurnVelocity(0);
    movement(&mut velocity, &mut turn_velocity, diagonal, &params, &no_input(), DT);
    let cross = (velocity.x as i128) * (diagonal.z as i128)
        - (velocity.z as i128) * (diagonal.x as i128);
    assert!(cross.abs() < (diagonal.x.abs() as i128) + (diagonal.z.abs() as i128));
}
