//! A verified 2D side-scroller character controller: a per-frame
//! update that turns directional and jump input into a discrete
//! movement state, integrates a simplified vertical-motion model
//! (jump impulse, gravity, ground clamp) and drives a sprite-frame
//! animation cycle consistent with that state.
//!
//! The host environment (renderer, window, input polling, clock) is
//! outside this crate.  Each frame it hands the library an
//! [`player::InputSnapshot`] and the frame delta in milliseconds, and
//! reads back the world position, the sprite frame index and the
//! horizontal flip flag.

use vstd::prelude::*;

pub mod animation;
pub mod laws;
pub mod locomotion;
pub mod motion;
pub mod player;

use crate::animation::{animate, cursor_step, cursor_wf, AnimationCursor, CursorModel};
use crate::locomotion::{body_step, update_locomotion_state};
use crate::motion::{in_coord_range, integrate_motion, DT_MAX_MS};
use crate::player::{BodyModel, InputSnapshot, PlayerBody};

verus! {

/// The animation cursor after a full tick: the driver runs last and
/// sees the facing and movement state the tick just settled on.
pub open spec fn tick_cursor_step(
    body: BodyModel,
    cursor: CursorModel,
    input: InputSnapshot,
    dt: int,
) -> CursorModel {
    let stepped = body_step(body, input, dt);
    cursor_step(cursor, stepped.facing, stepped.movement_state, dt)
}

/// One full update tick, in the pipeline's fixed order: motion
/// integrator, locomotion state machine, animation driver.
pub fn tick(
    body: &mut PlayerBody,
    cursor: &mut AnimationCursor,
    input: &InputSnapshot,
    dt_ms: u32,
)
    requires
        dt_ms <= DT_MAX_MS,
        in_coord_range(old(body)@),
        cursor_wf(old(cursor)@),
    ensures
        final(body)@ == body_step(old(body)@, *input, dt_ms as int),
        final(cursor)@ == tick_cursor_step(old(body)@, old(cursor)@, *input, dt_ms as int),
        cursor_wf(final(cursor)@),
{
    integrate_motion(body, input, dt_ms);
    update_locomotion_state(body, input, dt_ms);
    animate(cursor, body.facing, body.movement_state, dt_ms);
}

} // verus!
