//! End-to-end tests of the tick pipeline against concrete inputs.
//! Times are in milliseconds, distances and speeds in milli-units
//! (one thousandth of a world unit).

use platformer::animation::AnimationCursor;
use platformer::motion::jump_impulse;
use platformer::player::{Facing, InputSnapshot, MovementState, PlayerBody};
use platformer::tick;

fn idle_input() -> InputSnapshot {
    InputSnapshot { left: false, right: false, sprint: false, jump_just_pressed: false }
}

fn right_input() -> InputSnapshot {
    InputSnapshot { left: false, right: true, sprint: false, jump_just_pressed: false }
}

#[test]
fn new_body_is_grounded_idle() {
    let body = PlayerBody::new();
    assert_eq!(body.position_x, 0);
    assert_eq!(body.position_y, 0);
    assert_eq!(body.horizontal_speed, 0);
    assert_eq!(body.vertical_speed, 0);
    assert_eq!(body.facing, Facing::Right);
    assert_eq!(body.movement_state, MovementState::Idle);
    let cursor = AnimationCursor::new();
    assert_eq!(cursor.frame_index, 0);
    assert_eq!(cursor.elapsed_in_cycle, 0);
    assert!(!cursor.flip_horizontal);
}

#[test]
fn hold_right_ten_ticks_walks_one_unit_per_tick() {
    // delta_time 0.02 s, move-right held, no sprint: 50 * 0.02 = 1.0
    // world unit per tick, 10.0 units after ten ticks, Walk, facing
    // right.
    let mut body = PlayerBody::new();
    let mut cursor = AnimationCursor::new();
    for _ in 0..10 {
        tick(&mut body, &mut cursor, &right_input(), 20);
        assert_eq!(body.horizontal_speed, 1000);
    }
    assert_eq!(body.position_x, 10_000);
    assert_eq!(body.position_y, 0);
    assert_eq!(body.movement_state, MovementState::Walk);
    assert_eq!(body.facing, Facing::Right);
}

#[test]
fn sprinting_adds_bonus_and_runs() {
    let mut body = PlayerBody::new();
    let mut cursor = AnimationCursor::new();
    let input = InputSnapshot { left: true, right: false, sprint: true, jump_just_pressed: false };
    tick(&mut body, &mut cursor, &input, 20);
    // (50 + 60) * 0.02 = 2.2 world units, to the left.
    assert_eq!(body.horizontal_speed, -2200);
    assert_eq!(body.position_x, -2200);
    assert_eq!(body.movement_state, MovementState::Run);
    assert_eq!(body.facing, Facing::Left);
}

#[test]
fn right_wins_when_both_move_buttons_held() {
    let mut body = PlayerBody::new();
    let mut cursor = AnimationCursor::new();
    let input = InputSnapshot { left: true, right: true, sprint: false, jump_just_pressed: false };
    tick(&mut body, &mut cursor, &input, 20);
    assert_eq!(body.horizontal_speed, 1000);
    assert_eq!(body.facing, Facing::Right);
}

#[test]
fn jump_impulse_is_clamped() {
    // 330 * 0.02 = 6.6, clamped to 5.0 world units.
    assert_eq!(jump_impulse(20), 5000);
    // 330 * 0.010 = 3.3, inside the clamp band.
    assert_eq!(jump_impulse(10), 3300);
    assert_eq!(jump_impulse(0), 0);
}

#[test]
fn grounded_jump_is_honored() {
    let mut body = PlayerBody::new();
    let mut cursor = AnimationCursor::new();
    let input = InputSnapshot { left: false, right: false, sprint: false, jump_just_pressed: true };
    tick(&mut body, &mut cursor, &input, 20);
    // The capped impulse 5.0 raises the body, less one tick of
    // gravity (12 * 0.02 = 0.24) on the remaining speed.
    assert_eq!(body.position_y, 5000);
    assert_eq!(body.vertical_speed, 4760);
    assert_eq!(body.movement_state, MovementState::Jump);
}

#[test]
fn airborne_jump_requests_are_ignored() {
    let mut body = PlayerBody::new();
    let mut cursor = AnimationCursor::new();
    let jump = InputSnapshot { left: false, right: false, sprint: false, jump_just_pressed: true };
    tick(&mut body, &mut cursor, &jump, 20);
    let airborne = body;
    // A second request while airborne is a no-op: the tick plays out
    // exactly as one without the button.
    let mut with_jump = airborne;
    let mut cursor_a = AnimationCursor::new();
    tick(&mut with_jump, &mut cursor_a, &jump, 20);
    let mut without_jump = airborne;
    let mut cursor_b = AnimationCursor::new();
    tick(&mut without_jump, &mut cursor_b, &idle_input(), 20);
    assert_eq!(with_jump, without_jump);
}

#[test]
fn gravity_pulls_the_jump_arc_back_to_the_ground() {
    let mut body = PlayerBody::new();
    let mut cursor = AnimationCursor::new();
    let jump = InputSnapshot { left: false, right: false, sprint: false, jump_just_pressed: true };
    tick(&mut body, &mut cursor, &jump, 20);
    let mut previous_speed = body.vertical_speed;
    let mut saw_land = false;
    for _ in 0..2000 {
        tick(&mut body, &mut cursor, &idle_input(), 20);
        assert!(body.position_y >= 0);
        if body.position_y > 0 {
            // Airborne: each tick costs 12 * 0.02 = 0.24 of speed.
            assert_eq!(body.vertical_speed, previous_speed - 240);
        } else {
            assert_eq!(body.vertical_speed, 0);
        }
        if body.movement_state == MovementState::Land {
            saw_land = true;
        }
        previous_speed = body.vertical_speed;
    }
    // The arc ends grounded and settled, having passed through the
    // descending Land classification on the way down.
    assert!(saw_land);
    assert_eq!(body.position_y, 0);
    assert_eq!(body.movement_state, MovementState::Idle);
}

#[test]
fn fast_fall_classifies_as_land_and_sticks() {
    // Drop from a height with a strongly negative vertical speed:
    // below -200 * 0.02 = -4.0 the state machine reports Land, and
    // Land then sticks while airborne.
    let mut body = PlayerBody::new();
    body.position_y = 100_000;
    body.vertical_speed = -4100;
    let mut cursor = AnimationCursor::new();
    tick(&mut body, &mut cursor, &idle_input(), 20);
    assert_eq!(body.movement_state, MovementState::Land);
    tick(&mut body, &mut cursor, &idle_input(), 20);
    assert_eq!(body.movement_state, MovementState::Land);
}

#[test]
fn landing_clamps_to_ground_and_settles_to_idle() {
    let mut body = PlayerBody::new();
    body.position_y = 1000;
    body.vertical_speed = -4100;
    let mut cursor = AnimationCursor::new();
    // 1.0 + (-4.1) would sink below ground; the clamp pins y to 0 and
    // zeroes the speed, and the machine settles to Idle.
    tick(&mut body, &mut cursor, &idle_input(), 20);
    assert_eq!(body.position_y, 0);
    assert_eq!(body.vertical_speed, 0);
    assert_eq!(body.movement_state, MovementState::Idle);
}

#[test]
fn release_all_buttons_settles_to_idle_and_keeps_facing() {
    let mut body = PlayerBody::new();
    let mut cursor = AnimationCursor::new();
    let left = InputSnapshot { left: true, right: false, sprint: false, jump_just_pressed: false };
    tick(&mut body, &mut cursor, &left, 20);
    assert_eq!(body.movement_state, MovementState::Walk);
    tick(&mut body, &mut cursor, &idle_input(), 20);
    assert_eq!(body.movement_state, MovementState::Idle);
    assert_eq!(body.horizontal_speed, 0);
    // Sticky facing: unchanged from the last held direction.
    assert_eq!(body.facing, Facing::Left);
    tick(&mut body, &mut cursor, &idle_input(), 20);
    assert_eq!(body.movement_state, MovementState::Idle);
    assert_eq!(body.facing, Facing::Left);
}

#[test]
fn zero_delta_tick_changes_nothing_but_state() {
    let mut body = PlayerBody::new();
    let mut cursor = AnimationCursor::new();
    tick(&mut body, &mut cursor, &right_input(), 0);
    assert_eq!(body.horizontal_speed, 0);
    assert_eq!(body.position_x, 0);
    assert_eq!(body.movement_state, MovementState::Idle);
    // Facing still follows the held direction even on a zero delta.
    assert_eq!(body.facing, Facing::Right);
}
