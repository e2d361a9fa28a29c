//! Locomotion state machine: derives the discrete movement state from
//! the integrator's outputs, once per tick.
//!
//! Precedence, in this fixed order: vertical motion dominates (Jump or
//! Land, with Land sticky while airborne), then horizontal motion
//! (Run or Walk), and the idle check runs last so it never masks an
//! in-progress jump arc.

use vstd::prelude::*;

use crate::motion::{integrate_spec, sprint_bonus_spec, DT_MAX_MS, SPRINT_BONUS};
use crate::player::{BodyModel, InputSnapshot, MovementState, PlayerBody};

verus! {

/// Vertical-speed threshold coefficient below which airborne motion
/// counts as descending (Land) rather than rising (Jump), world units
/// per second.
pub const LAND_THRESHOLD: i64 = 200;

/// The state the machine settles on for one tick, given the previous
/// state, the integrator's speeds, whether a sprint bonus was applied
/// this tick, and the frame delta.
pub open spec fn next_movement_state(
    prev: MovementState,
    horizontal_speed: int,
    vertical_speed: int,
    sprinted: bool,
    dt: int,
) -> MovementState {
    if vertical_speed != 0 && prev != MovementState::Land {
        if vertical_speed > -((LAND_THRESHOLD as int) * dt) {
            MovementState::Jump
        } else {
            MovementState::Land
        }
    } else if horizontal_speed != 0 && vertical_speed == 0 {
        if sprinted {
            MovementState::Run
        } else {
            MovementState::Walk
        }
    } else if horizontal_speed == 0 && vertical_speed == 0 {
        MovementState::Idle
    } else {
        prev
    }
}

/// One full body tick: the motion integrator followed by the
/// locomotion state machine.
pub open spec fn body_step(m: BodyModel, input: InputSnapshot, dt: int) -> BodyModel {
    let mi = integrate_spec(m, input, dt);
    BodyModel {
        movement_state: next_movement_state(
            m.movement_state,
            mi.horizontal_speed,
            mi.vertical_speed,
            sprint_bonus_spec(input, dt) != 0,
            dt,
        ),
        ..mi
    }
}

/// Runs the locomotion state machine on the body for one tick.  Reads
/// the speeds the integrator just wrote and the state of the previous
/// tick; touches nothing but `movement_state`.
pub fn update_locomotion_state(body: &mut PlayerBody, input: &InputSnapshot, dt_ms: u32)
    requires
        dt_ms <= DT_MAX_MS,
    ensures
        final(body)@.movement_state == next_movement_state(
            old(body)@.movement_state,
            old(body)@.horizontal_speed,
            old(body)@.vertical_speed,
            sprint_bonus_spec(*input, dt_ms as int) != 0,
            dt_ms as int,
        ),
        final(body)@.position_x == old(body)@.position_x,
        final(body)@.position_y == old(body)@.position_y,
        final(body)@.facing == old(body)@.facing,
        final(body)@.horizontal_speed == old(body)@.horizontal_speed,
        final(body)@.vertical_speed == old(body)@.vertical_speed,
{
    let dt: i64 = dt_ms as i64;
    let bonus: i64 = if input.sprint {
        SPRINT_BONUS * dt
    } else {
        0
    };

    if body.vertical_speed != 0 && body.movement_state != MovementState::Land {
        // Airborne: still rising or only mildly falling is Jump;
        // falling fast enough is Land, which then sticks until the
        // ground clamp zeroes the vertical speed.
        if body.vertical_speed > -(LAND_THRESHOLD * dt) {
            body.movement_state = MovementState::Jump;
        } else {
            body.movement_state = MovementState::Land;
        }
    } else if body.horizontal_speed != 0 && body.vertical_speed == 0 {
        body.movement_state = if bonus != 0 {
            MovementState::Run
        } else {
            MovementState::Walk
        };
    } else if body.horizontal_speed == 0 && body.vertical_speed == 0 {
        // Idle fallback, checked last: the machine always settles to
        // Idle once motion fully stops.
        body.movement_state = MovementState::Idle;
    }
}

} // verus!
