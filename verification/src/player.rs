//! Data model of the controlled character.
//!
//! All quantities are exact fixed-point integers: time is measured in
//! milliseconds, distances and per-tick speeds in milli-units (one
//! thousandth of a world unit).  A speed coefficient of `c` world units
//! per second therefore contributes exactly `c * dt` milli-units on a
//! tick of `dt` milliseconds.

use vstd::prelude::*;

verus! {

/// Horizontal facing of the sprite.  Sticky: it keeps its value on
/// ticks with no horizontal input.
#[derive(Clone, Copy, Debug, PartialEq, Eq, Structural)]
pub enum Facing {
    Right,
    Left,
}

/// Discrete locomotion state, recomputed every tick from the
/// integrator's outputs.
#[derive(Clone, Copy, Debug, PartialEq, Eq, Structural)]
pub enum MovementState {
    Idle,
    Walk,
    Run,
    Jump,
    Land,
}

/// Snapshot of the logical buttons for one tick, handed in by the
/// host together with the frame delta.
#[derive(Clone, Copy, Debug, PartialEq, Eq, Structural)]
pub struct InputSnapshot {
    /// Move-left button is held down.
    pub left: bool,
    /// Move-right button is held down.
    pub right: bool,
    /// Sprint button is held down.
    pub sprint: bool,
    /// Jump button went down on this very tick (edge, not level).
    pub jump_just_pressed: bool,
}

/// The controlled character: world position, facing, per-tick speeds
/// and the derived movement state.  Positions and speeds are in
/// milli-units.
#[derive(Clone, Copy, Debug, PartialEq, Eq, Structural)]
pub struct PlayerBody {
    pub position_x: i64,
    pub position_y: i64,
    pub facing: Facing,
    pub horizontal_speed: i64,
    pub vertical_speed: i64,
    pub movement_state: MovementState,
}

/// Mathematical model of a [`PlayerBody`]: the same fields over
/// unbounded integers, so laws about arbitrary tick sequences need no
/// machine-range side conditions.
pub ghost struct BodyModel {
    pub position_x: int,
    pub position_y: int,
    pub facing: Facing,
    pub horizontal_speed: int,
    pub vertical_speed: int,
    pub movement_state: MovementState,
}

impl View for PlayerBody {
    type V = BodyModel;

    open spec fn view(&self) -> BodyModel {
        BodyModel {
            position_x: self.position_x as int,
            position_y: self.position_y as int,
            facing: self.facing,
            horizontal_speed: self.horizontal_speed as int,
            vertical_speed: self.vertical_speed as int,
            movement_state: self.movement_state,
        }
    }
}

/// Ground invariant of the body.  The character never sinks below the
/// ground plane, and at ground level it carries no residual vertical
/// speed and is never still classified as landing.
pub open spec fn body_wf(m: BodyModel) -> bool {
    &&& m.position_y >= 0
    &&& m.position_y == 0 ==> m.vertical_speed == 0 && m.movement_state != MovementState::Land
}

/// The body as spawned at scene setup: at the origin, grounded,
/// motionless, facing right.
pub open spec fn initial_body() -> BodyModel {
    BodyModel {
        position_x: 0,
        position_y: 0,
        facing: Facing::Right,
        horizontal_speed: 0,
        vertical_speed: 0,
        movement_state: MovementState::Idle,
    }
}

impl PlayerBody {
    /// Spawns the character in its initial grounded idle pose.
    pub fn new() -> (body: PlayerBody)
        ensures
            body@ == initial_body(),
            body_wf(body@),
    {
        PlayerBody {
            position_x: 0,
            position_y: 0,
            facing: Facing::Right,
            horizontal_speed: 0,
            vertical_speed: 0,
            movement_state: MovementState::Idle,
        }
    }
}

} // verus!
