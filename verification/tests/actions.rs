//! Input snapshots, default drive configuration and vector helpers.

use tanks::game::{Action, ActionState, GamePhysicsLayer};
use tanks::player::MovementParameters;
use tanks::vec::{Vec2Fx, Vec3Fx};

#[test]
fn pressed_reads_the_held_actions() {
    let state = ActionState {
        turn_left: true,
        turn_right: false,
        move_forward: true,
        move_backward: false,
        shoot: true,
        aim: false,
    };
    assert!(state.pressed(&Action::TurnLeft));
    assert!(!state.pressed(&Action::TurnRight));
    assert!(state.pressed(&Action::MoveForward));
    assert!(!state.pressed(&Action::MoveBackward));
    assert!(state.pressed(&Action::Shoot));
    assert!(!state.pressed(&Action::Aim));
}

#[test]
fn ground_layer_is_distinct_from_default() {
    assert_ne!(GamePhysicsLayer::Ground, GamePhysicsLayer::Default);
    assert_eq!(GamePhysicsLayer::default(), GamePhysicsLayer::Default);
}

#[test]
fn default_movement_parameters_match_the_stock_tank() {
    let p = MovementParameters::default();
    assert_eq!(p.acceleration, 3_000_000);
    assert_eq!(p.dampening, 10_000_000);
    assert_eq!(p.max_velocity, 2_000_000);
    assert_eq!(p.turn_acceleration, 20_000_000);
    assert_eq!(p.turn_dampening, 15_000_000);
    assert_eq!(p.max_turn_velocity, 1_570_796);
}

#[test]
fn plane_distance_is_rounded_down() {
    let a = Vec2Fx { x: 0, z: 0 };
    let b = Vec2Fx { x: 3_000_000, z: 4_000_000 };
    assert_eq!(a.distance(b), 5_000_000);
    // sqrt(2) in micro-units, rounded toward zero.
    let c = Vec2Fx { x: 1_000_000, z: 1_000_000 };
    assert_eq!(a.distance(c), 1_414_213);
}

#[test]
fn vector_helpers_are_componentwise() {
    let a = Vec3Fx { x: 5, y: 6, z: 7 };
    let b = Vec3Fx { x: 1, y: 2, z: 3 };
    assert_eq!(a.sub(b), Vec3Fx { x: 4, y: 4, z: 4 });
    assert_eq!(a.add(b), Vec3Fx { x: 6, y: 8, z: 10 });
    let xz = a.xz();
    assert_eq!((xz.x, xz.z), (5, 7));
    assert_eq!(Vec3Fx { x: 2_000_000, y: 0, z: 0 }.scale(500_000).x, 1_000_000);
}
