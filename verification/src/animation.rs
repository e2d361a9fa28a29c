//! Animation driver: advances a sprite frame index on a repeating
//! timer, keyed by the current movement state, and mirrors the sprite
//! from the facing direction.
//!
//! The spritesheet is a 10 x 7 grid of 70 cells.  Each state cycles a
//! fixed frame range: Idle [0, 10), Walk [10, 18), Run [50, 58);
//! Jump plays [30, 33) once and freezes on frame 32; Land pins the
//! static pose 41.

use vstd::prelude::*;

use crate::motion::DT_MAX_MS;
use crate::player::{Facing, MovementState};

verus! {

/// Fixed period of the repeating animation timer, in milliseconds.
pub const CYCLE_PERIOD_MS: u32 = 150;

/// Number of cells in the spritesheet grid.
pub const FRAME_COUNT: u32 = 70;

/// Frame the Jump cycle freezes on.
pub const JUMP_FREEZE_FRAME: u32 = 32;

/// Static pose pinned while landing.
pub const LAND_FRAME: u32 = 41;

/// Animation state of one animated entity: the current sheet frame,
/// the repeating timer, and the horizontal mirror flag.
#[derive(Clone, Copy, Debug, PartialEq, Eq, Structural)]
pub struct AnimationCursor {
    pub frame_index: u32,
    /// Time accumulated towards the next timer fire, in milliseconds.
    pub elapsed_in_cycle: u32,
    /// Timer period, in milliseconds; fixed at `CYCLE_PERIOD_MS`.
    pub cycle_period: u32,
    /// Mirror the sprite horizontally; true exactly when facing left.
    pub flip_horizontal: bool,
}

/// Mathematical model of an [`AnimationCursor`] over unbounded
/// integers.
pub ghost struct CursorModel {
    pub frame_index: int,
    pub elapsed_in_cycle: int,
    pub cycle_period: int,
    pub flip_horizontal: bool,
}

impl View for AnimationCursor {
    type V = CursorModel;

    open spec fn view(&self) -> CursorModel {
        CursorModel {
            frame_index: self.frame_index as int,
            elapsed_in_cycle: self.elapsed_in_cycle as int,
            cycle_period: self.cycle_period as int,
            flip_horizontal: self.flip_horizontal,
        }
    }
}

/// Well-formed cursor: the frame index is a sheet cell, the period is
/// the fixed cycle period, and the accumulated time has not yet
/// reached it.
pub open spec fn cursor_wf(c: CursorModel) -> bool {
    &&& 0 <= c.frame_index < FRAME_COUNT as int
    &&& c.cycle_period == CYCLE_PERIOD_MS as int
    &&& 0 <= c.elapsed_in_cycle < c.cycle_period
}

/// The frame shown after one timer fire in the given state.
pub open spec fn advance_frame_spec(state: MovementState, frame: int) -> int {
    match state {
        MovementState::Idle => (frame + 1) % 10,
        MovementState::Walk => 10 + (frame + 1) % 8,
        MovementState::Run => 50 + (frame + 1) % 8,
        MovementState::Jump => if frame == JUMP_FREEZE_FRAME as int {
            frame
        } else {
            30 + (frame + 1) % 3
        },
        MovementState::Land => LAND_FRAME as int,
    }
}

/// One tick of the animation driver: mirror from facing first, then
/// accumulate the timer and, when it fires, advance the frame for the
/// current state and keep the remainder.
pub open spec fn cursor_step(
    c: CursorModel,
    facing: Facing,
    state: MovementState,
    dt: int,
) -> CursorModel {
    let elapsed = c.elapsed_in_cycle + dt;
    if elapsed >= c.cycle_period {
        CursorModel {
            frame_index: advance_frame_spec(state, c.frame_index),
            elapsed_in_cycle: elapsed % c.cycle_period,
            cycle_period: c.cycle_period,
            flip_horizontal: facing == Facing::Left,
        }
    } else {
        CursorModel {
            frame_index: c.frame_index,
            elapsed_in_cycle: elapsed,
            cycle_period: c.cycle_period,
            flip_horizontal: facing == Facing::Left,
        }
    }
}

impl AnimationCursor {
    /// A fresh cursor: frame 0, timer at rest, unmirrored.
    pub fn new() -> (cursor: AnimationCursor)
        ensures
            cursor@.frame_index == 0,
            cursor@.elapsed_in_cycle == 0,
            cursor@.flip_horizontal == false,
            cursor_wf(cursor@),
    {
        AnimationCursor {
            frame_index: 0,
            elapsed_in_cycle: 0,
            cycle_period: CYCLE_PERIOD_MS,
            flip_horizontal: false,
        }
    }
}

/// Runs one tick of the animation driver.  The flip flag is written
/// from the facing before any frame update, so a direction change is
/// never shown on a stale mirrored frame.
pub fn animate(cursor: &mut AnimationCursor, facing: Facing, state: MovementState, dt_ms: u32)
    requires
        cursor_wf(old(cursor)@),
        dt_ms <= DT_MAX_MS,
    ensures
        final(cursor)@ == cursor_step(old(cursor)@, facing, state, dt_ms as int),
        cursor_wf(final(cursor)@),
{
    cursor.flip_horizontal = facing == Facing::Left;

    let elapsed: u32 = cursor.elapsed_in_cycle + dt_ms;
    if elapsed >= cursor.cycle_period {
        cursor.elapsed_in_cycle = elapsed % cursor.cycle_period;
        match state {
            MovementState::Idle => {
                cursor.frame_index = (cursor.frame_index + 1) % 10;
            },
            MovementState::Walk => {
                cursor.frame_index = 10 + (cursor.frame_index + 1) % 8;
            },
            MovementState::Run => {
                cursor.frame_index = 50 + (cursor.frame_index + 1) % 8;
            },
            MovementState::Jump => {
                // One-shot-then-hold: the cycle stops on the freeze
                // frame instead of wrapping.
                if cursor.frame_index != JUMP_FREEZE_FRAME {
                    cursor.frame_index = 30 + (cursor.frame_index + 1) % 3;
                }
            },
            MovementState::Land => {
                cursor.frame_index = LAND_FRAME;
            },
        }
    } else {
        cursor.elapsed_in_cycle = elapsed;
    }
}

} // verus!
