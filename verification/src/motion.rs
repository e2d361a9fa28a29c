//! Motion integrator: converts one tick of input and frame delta into
//! horizontal and vertical speed, applies the jump impulse and
//! gravity, integrates the position, and clamps to the ground plane.
//!
//! Per tick, in this fixed order: horizontal speed and facing, jump
//! seed, position integration, gravity with the authoritative ground
//! clamp last.

use vstd::prelude::*;

use crate::player::{BodyModel, Facing, InputSnapshot, MovementState, PlayerBody};

verus! {

/// Walking speed, world units per second.
pub const WALK_SPEED: i64 = 50;

/// Extra speed while the sprint button is held, world units per second.
pub const SPRINT_BONUS: i64 = 60;

/// Jump impulse coefficient, world units per second.
pub const JUMP_SPEED: i64 = 330;

/// Cap on the seeded jump impulse, in milli-units per tick.  The cap
/// keeps the jump height independent of frame-time spikes.
pub const JUMP_IMPULSE_CAP: i64 = 5000;

/// Gravity, world units per second of vertical speed lost per tick
/// second while airborne.
pub const GRAVITY: i64 = 12;

/// Largest frame delta a tick accepts, in milliseconds.
pub const DT_MAX_MS: u32 = 100_000_000;

/// Bound on coordinates and speeds under which one tick of `i64`
/// arithmetic cannot overflow.
pub const COORD_LIMIT: i64 = 1_000_000_000_000_000;

/// The body's coordinates and vertical speed are far enough from the
/// `i64` range ends for one tick of arithmetic.
pub open spec fn in_coord_range(m: BodyModel) -> bool {
    &&& -(COORD_LIMIT as int) <= m.position_x <= COORD_LIMIT as int
    &&& -(COORD_LIMIT as int) <= m.position_y <= COORD_LIMIT as int
    &&& -(COORD_LIMIT as int) <= m.vertical_speed <= COORD_LIMIT as int
}

/// Sprint contribution to the tick's horizontal speed, in milli-units.
pub open spec fn sprint_bonus_spec(input: InputSnapshot, dt: int) -> int {
    if input.sprint {
        (SPRINT_BONUS as int) * dt
    } else {
        0
    }
}

/// Signed horizontal displacement for the tick, in milli-units.
/// Right wins over left when both are held; zero when neither is.
pub open spec fn horizontal_speed_spec(input: InputSnapshot, dt: int) -> int {
    if input.right {
        (WALK_SPEED as int) * dt + sprint_bonus_spec(input, dt)
    } else if input.left {
        -((WALK_SPEED as int) * dt + sprint_bonus_spec(input, dt))
    } else {
        0
    }
}

/// Facing after the tick: follows the held direction, otherwise sticky.
pub open spec fn facing_after_spec(input: InputSnapshot, prev: Facing) -> Facing {
    if input.right {
        Facing::Right
    } else if input.left {
        Facing::Left
    } else {
        prev
    }
}

/// The capped jump impulse for a frame delta, in milli-units.
pub open spec fn jump_impulse_spec(dt: int) -> int {
    let raw = (JUMP_SPEED as int) * dt;
    if raw < 0 {
        0
    } else if raw > JUMP_IMPULSE_CAP as int {
        JUMP_IMPULSE_CAP as int
    } else {
        raw
    }
}

/// A jump request is honored only when the body is exactly at ground
/// level with zero vertical speed.
pub open spec fn jump_honored_spec(m: BodyModel, input: InputSnapshot) -> bool {
    input.jump_just_pressed && m.vertical_speed == 0 && m.position_y == 0
}

/// One tick of the motion integrator: horizontal speed and facing,
/// jump seed, position integration, then gravity with the ground
/// clamp last.  The movement state is left for the locomotion state
/// machine.
pub open spec fn integrate_spec(m: BodyModel, input: InputSnapshot, dt: int) -> BodyModel {
    let h = horizontal_speed_spec(input, dt);
    let v_seeded = if jump_honored_spec(m, input) {
        jump_impulse_spec(dt)
    } else {
        m.vertical_speed
    };
    let x = m.position_x + h;
    let y = m.position_y + v_seeded;
    if y > 0 {
        BodyModel {
            position_x: x,
            position_y: y,
            facing: facing_after_spec(input, m.facing),
            horizontal_speed: h,
            vertical_speed: v_seeded - (GRAVITY as int) * dt,
            movement_state: m.movement_state,
        }
    } else {
        BodyModel {
            position_x: x,
            position_y: 0,
            facing: facing_after_spec(input, m.facing),
            horizontal_speed: h,
            vertical_speed: 0,
            movement_state: m.movement_state,
        }
    }
}

/// The capped jump impulse seeded when a grounded jump request is
/// honored: `330 * dt` milli-units, clamped into `[0, 5000]`.
pub fn jump_impulse(dt_ms: u32) -> (impulse: i64)
    requires
        dt_ms <= DT_MAX_MS,
    ensures
        impulse == jump_impulse_spec(dt_ms as int),
        0 <= impulse <= JUMP_IMPULSE_CAP,
{
    let raw: i64 = JUMP_SPEED * (dt_ms as i64);
    if raw > JUMP_IMPULSE_CAP {
        JUMP_IMPULSE_CAP
    } else {
        raw
    }
}

/// Runs one tick of the motion integrator on the body.
pub fn integrate_motion(body: &mut PlayerBody, input: &InputSnapshot, dt_ms: u32)
    requires
        dt_ms <= DT_MAX_MS,
        in_coord_range(old(body)@),
    ensures
        final(body)@ == integrate_spec(old(body)@, *input, dt_ms as int),
{
    let dt: i64 = dt_ms as i64;
    let base: i64 = WALK_SPEED * dt;
    let bonus: i64 = if input.sprint {
        SPRINT_BONUS * dt
    } else {
        0
    };

    let mut horizontal: i64 = 0;
    if input.right {
        body.facing = Facing::Right;
        horizontal = base + bonus;
    } else if input.left {
        body.facing = Facing::Left;
        horizontal = -(base + bonus);
    }
    body.horizontal_speed = horizontal;

    // Seed the capped impulse only on a grounded, motionless jump
    // request: this forbids double jumps and mid-air re-triggers.
    if input.jump_just_pressed && body.vertical_speed == 0 && body.position_y == 0 {
        body.vertical_speed = jump_impulse(dt_ms);
    }

    body.position_x = body.position_x + horizontal;
    body.position_y = body.position_y + body.vertical_speed;

    // Gravity and the authoritative ground clamp, evaluated
    // unconditionally every tick, after integration.
    if body.position_y > 0 {
        body.vertical_speed = body.vertical_speed - GRAVITY * dt;
    } else {
        body.vertical_speed = 0;
        body.position_y = 0;
    }
}

} // verus!
