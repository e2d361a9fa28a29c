//! Laws of the controller, stated and proved over the mathematical
//! step functions that the executable tick is proved equal to.

use vstd::prelude::*;

use crate::animation::{advance_frame_spec, cursor_step, cursor_wf, CursorModel};
use crate::locomotion::body_step;
use crate::motion::{jump_impulse_spec, GRAVITY};
use crate::player::{body_wf, BodyModel, Facing, InputSnapshot, MovementState};

verus! {

/// One tick of host input: the button snapshot and the frame delta in
/// milliseconds.
pub ghost struct TickInput {
    pub buttons: InputSnapshot,
    pub dt: int,
}

/// The body after a whole sequence of ticks, applied in order.
pub open spec fn run_steps(m: BodyModel, ticks: Seq<TickInput>) -> BodyModel
    decreases ticks.len(),
{
    if ticks.len() == 0 {
        m
    } else {
        run_steps(body_step(m, ticks[0].buttons, ticks[0].dt), ticks.drop_first())
    }
}

/// Ground invariant, one tick: a well-formed body stays well formed,
/// so the character never ends a tick below the ground plane, and at
/// ground level it carries no residual vertical speed.
pub proof fn lemma_ground_invariant(m: BodyModel, input: InputSnapshot, dt: int)
    requires
        body_wf(m),
        dt >= 0,
    ensures
        body_wf(body_step(m, input, dt)),
        body_step(m, input, dt).position_y >= 0,
{
}

/// Ground invariant, all tick sequences: `position_y >= 0` and the
/// grounded-means-motionless clause hold after any number of ticks
/// with non-negative frame deltas.
pub proof fn lemma_ground_invariant_all_ticks(m: BodyModel, ticks: Seq<TickInput>)
    requires
        body_wf(m),
        forall|i: int| 0 <= i < ticks.len() ==> #[trigger] ticks[i].dt >= 0,
    ensures
        body_wf(run_steps(m, ticks)),
        run_steps(m, ticks).position_y >= 0,
    decreases ticks.len(),
{
    if ticks.len() > 0 {
        lemma_ground_invariant(m, ticks[0].buttons, ticks[0].dt);
        let rest = ticks.drop_first();
        assert forall|i: int| 0 <= i < rest.len() implies #[trigger] rest[i].dt >= 0 by {
            assert(rest[i] == ticks[i + 1]);
        }
        lemma_ground_invariant_all_ticks(body_step(m, ticks[0].buttons, ticks[0].dt), rest);
    }
}

/// Jump requests are no-ops unless the body is exactly at ground
/// level with zero vertical speed: two ticks whose inputs differ only
/// in the jump button step to the same body.  In particular, repeated
/// jump requests while airborne change nothing.
pub proof fn lemma_jump_request_ignored(m: BodyModel, a: InputSnapshot, b: InputSnapshot, dt: int)
    requires
        !(m.position_y == 0 && m.vertical_speed == 0),
        a.left == b.left,
        a.right == b.right,
        a.sprint == b.sprint,
    ensures
        body_step(m, a, dt) == body_step(m, b, dt),
{
}

/// A grounded, motionless jump request on a tick with a positive
/// frame delta is honored: the body rises by exactly the capped
/// impulse, keeps the impulse less one tick of gravity as vertical
/// speed, and the state machine reports Jump.
pub proof fn lemma_grounded_jump_honored(m: BodyModel, input: InputSnapshot, dt: int)
    requires
        body_wf(m),
        m.position_y == 0,
        input.jump_just_pressed,
        dt > 0,
    ensures
        body_step(m, input, dt).position_y == jump_impulse_spec(dt),
        body_step(m, input, dt).vertical_speed == jump_impulse_spec(dt) - (GRAVITY as int) * dt,
        body_step(m, input, dt).movement_state == MovementState::Jump,
{
}

/// Idle convergence: with every button released, a grounded body with
/// zero vertical speed settles to Idle on this very tick — and the
/// conclusion re-establishes the hypothesis, so it stays Idle until
/// new input arrives.
pub proof fn lemma_idle_convergence(m: BodyModel, input: InputSnapshot, dt: int)
    requires
        m.position_y == 0,
        m.vertical_speed == 0,
        !input.left,
        !input.right,
        !input.jump_just_pressed,
    ensures
        body_step(m, input, dt).movement_state == MovementState::Idle,
        body_step(m, input, dt).horizontal_speed == 0,
        body_step(m, input, dt).vertical_speed == 0,
        body_step(m, input, dt).position_y == 0,
        body_step(m, input, dt).position_x == m.position_x,
        body_step(m, input, dt).facing == m.facing,
{
}

/// Facing stickiness: on a tick where neither move button is held,
/// the facing is exactly what it was; it changes only on ticks with
/// horizontal input.
pub proof fn lemma_facing_sticky(m: BodyModel, input: InputSnapshot, dt: int)
    requires
        !input.left,
        !input.right,
    ensures
        body_step(m, input, dt).facing == m.facing,
{
}

/// Animation cycle bounds: whatever frame the sheet was on before, a
/// timer fire lands Idle in [0, 10), Walk in [10, 18) and Run in
/// [50, 58).  Ticks on which the timer does not fire leave the frame
/// unchanged, so the bounds hold after any number of ticks once the
/// state's cycle has advanced.
pub proof fn lemma_animation_cycle_bounds(frame: int)
    requires
        frame >= 0,
    ensures
        0 <= advance_frame_spec(MovementState::Idle, frame) < 10,
        10 <= advance_frame_spec(MovementState::Walk, frame) < 18,
        50 <= advance_frame_spec(MovementState::Run, frame) < 58,
{
}

/// A well-formed cursor stays well formed through any tick of the
/// driver, in every state and facing.
pub proof fn lemma_cursor_wf_preserved(
    c: CursorModel,
    facing: Facing,
    state: MovementState,
    dt: int,
)
    requires
        cursor_wf(c),
        dt >= 0,
    ensures
        cursor_wf(cursor_step(c, facing, state, dt)),
{
}

/// Jump freeze: once the Jump cycle reaches its freeze frame,
/// further ticks in the Jump state never change the frame, whether or
/// not the timer fires.
pub proof fn lemma_jump_freeze(c: CursorModel, facing: Facing, dt: int)
    requires
        c.frame_index == 32,
        dt >= 0,
    ensures
        cursor_step(c, facing, MovementState::Jump, dt).frame_index == 32,
{
}

} // verus!
