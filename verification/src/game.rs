//! Logical actions and collision categories shared by the whole module.

use vstd::prelude::*;

verus! {

/// The logical player actions the input collaborator can report as held.
#[derive(Clone, Copy, PartialEq, Eq, Structural, Debug)]
pub enum Action {
    TurnLeft,
    TurnRight,
    MoveForward,
    MoveBackward,
    Shoot,
    Aim,
}

/// Collision categories: aim-point ray casts are restricted to `Ground`.
#[derive(Clone, Copy, PartialEq, Eq, Structural, Debug, Default)]
pub enum GamePhysicsLayer {
    #[default]
    Default,
    Ground,
}

/// Per-tick snapshot of which logical actions the input collaborator reports
/// as held.
#[derive(Clone, Copy, PartialEq, Eq, Structural, Debug, Default)]
pub struct ActionState {
    pub turn_left: bool,
    pub turn_right: bool,
    pub move_forward: bool,
    pub move_backward: bool,
    pub shoot: bool,
    pub aim: bool,
}

impl ActionState {
    /// Whether the given logical action is held, per this snapshot.
    pub open spec fn spec_pressed(self, action: Action) -> bool {
        match action {
            Action::TurnLeft => self.turn_left,
            Action::TurnRight => self.turn_right,
            Action::MoveForward => self.move_forward,
            Action::MoveBackward => self.move_backward,
            Action::Shoot => self.shoot,
            Action::Aim => self.aim,
        }
    }

    /// Queries whether a logical action is currently held.
    pub fn pressed(&self, action: &Action) -> (r: bool)
        ensures
            r == self.spec_pressed(*action),
    {
        match action {
            Action::TurnLeft => self.turn_left,
            Action::TurnRight => self.turn_right,
            Action::MoveForward => self.move_forward,
            Action::MoveBackward => self.move_backward,
            Action::Shoot => self.shoot,
            Action::Aim => self.aim,
        }
    }
}

} // verus!
