//! Tests for the player physics: landing, wall blocking, jumping, the
//! fall-off-world reset, friction and the screen clamp.

use rust_mario::geometry::Platform;
use rust_mario::player::{AnimationState, InputState, Player};

const SCREEN_W: i64 = 800_000;
const SCREEN_H: i64 = 600_000;

fn no_input() -> InputState {
    InputState { move_left: false, move_right: false, jump_pressed: false, quit_requested: false }
}

fn hold_right() -> InputState {
    InputState { move_left: false, move_right: true, jump_pressed: false, quit_requested: false }
}

#[test]
fn test_player_new_defaults() {
    let p = Player::new(50_000, 50_000);
    assert_eq!(p.x, 50_000);
    assert_eq!(p.y, 50_000);
    assert_eq!(p.velocity_x, 0);
    assert_eq!(p.velocity_y, 0);
    assert!(!p.on_ground);
    assert_eq!(p.width, 20_000);
    assert_eq!(p.height, 20_000);
    assert!(p.facing_right);
    assert_eq!(p.animation_state, AnimationState::Idle);
    assert_eq!(p.animation_timer, 0);
}

#[test]
fn test_falling_player_lands_exactly_on_platform_top() {
    // Platform top at y = 400_000; the player starts 30_000 above it and
    // falls.  On the first tick that overlaps, the player snaps exactly to
    // platform top minus player height and becomes grounded.
    let platforms = vec![Platform::new(0, 400_000, 200_000, 20_000)];
    let mut p = Player::new(50_000, 370_000);

    p.update(&platforms, 100, &no_input(), SCREEN_W, SCREEN_H);
    // vy = 800 * 100 = 80_000; dy = 8_000; no contact yet.
    assert_eq!(p.y, 378_000);
    assert!(!p.on_ground);

    p.update(&platforms, 100, &no_input(), SCREEN_W, SCREEN_H);
    // vy = 160_000; dy = 16_000; overlap at 394_000: snap to 380_000.
    assert_eq!(p.y, 400_000 - 20_000);
    assert!(p.on_ground);
    assert_eq!(p.velocity_y, 0);
    assert_eq!(p.animation_state, AnimationState::Idle);
    assert_eq!(p.animation_timer, 200);
}

#[test]
fn test_wall_stops_horizontal_motion() {
    // A wall to the right of the player: the whole horizontal move is
    // rejected, x is unchanged and the horizontal velocity zeroed that tick.
    let platforms = vec![Platform::new(100_000, 0, 20_000, 100_000)];
    let mut p = Player::new(70_000, 50_000);
    p.on_ground = true;

    p.update(&platforms, 100, &hold_right(), SCREEN_W, SCREEN_H);
    assert_eq!(p.x, 70_000);
    assert_eq!(p.velocity_x, 0);
    assert_eq!(p.y, 50_000);
}

#[test]
fn test_jump_applies_upward_velocity_and_gravity() {
    let platforms: Vec<Platform> = Vec::new();
    let mut p = Player::new(50_000, 380_000);
    p.on_ground = true;
    let jump = InputState {
        move_left: false,
        move_right: false,
        jump_pressed: true,
        quit_requested: false,
    };

    p.update(&platforms, 100, &jump, SCREEN_W, SCREEN_H);
    // Jump sets vy = -300_000, then gravity adds 800 * 100.
    assert_eq!(p.velocity_y, -300_000 + 80_000);
    assert_eq!(p.y, 380_000 - 22_000);
    assert!(!p.on_ground);
    assert_eq!(p.animation_state, AnimationState::Jumping);
}

#[test]
fn test_fall_off_world_resets_to_spawn() {
    let platforms: Vec<Platform> = Vec::new();
    let mut p = Player::new(100_000, 599_000);
    p.velocity_y = 50_000_000;

    p.update(&platforms, 100, &no_input(), SCREEN_W, SCREEN_H);
    assert_eq!(p.x, 50_000);
    assert_eq!(p.y, 50_000);
    assert_eq!(p.velocity_x, 0);
    assert_eq!(p.velocity_y, 0);
}

#[test]
fn test_friction_scales_grounded_velocity_by_four_fifths() {
    // The player lands this tick while holding right: input sets
    // vx = 200_000, landing grounds the player, and friction then leaves
    // vx = 200_000 * 4 / 5.
    let platforms = vec![Platform::new(0, 400_000, 200_000, 20_000)];
    let mut p = Player::new(50_000, 380_000);

    p.update(&platforms, 100, &hold_right(), SCREEN_W, SCREEN_H);
    assert!(p.on_ground);
    assert_eq!(p.x, 70_000);
    assert_eq!(p.y, 380_000);
    assert_eq!(p.velocity_x, 160_000);
    assert_eq!(p.animation_state, AnimationState::Walking);
}

#[test]
fn test_no_input_zeroes_horizontal_velocity() {
    // With nothing held, input resolution zeroes vx at the top of the tick,
    // so a previously set horizontal velocity does not decay through
    // friction — it vanishes at once.
    let platforms = vec![Platform::new(0, 400_000, 200_000, 20_000)];
    let mut p = Player::new(50_000, 380_000);
    p.velocity_x = 100_000;

    p.update(&platforms, 100, &no_input(), SCREEN_W, SCREEN_H);
    assert_eq!(p.velocity_x, 0);
}

#[test]
fn test_screen_clamp_stops_at_right_edge() {
    let platforms: Vec<Platform> = Vec::new();
    let mut p = Player::new(790_000, 100_000);

    p.update(&platforms, 100, &hold_right(), SCREEN_W, SCREEN_H);
    assert_eq!(p.x, SCREEN_W - 20_000);
    assert_eq!(p.velocity_x, 0);
}

#[test]
fn test_player_platform_intersection_symmetric() {
    let p = Player::new(50_000, 50_000);
    let plat = Platform::new(60_000, 60_000, 30_000, 10_000);
    assert_eq!(
        p.intersects(plat.x, plat.y, plat.width, plat.height),
        plat.intersects(p.x, p.y, p.width, p.height)
    );
    assert!(p.intersects(60_000, 60_000, 30_000, 10_000));
    let far = Platform::new(500_000, 500_000, 30_000, 10_000);
    assert_eq!(
        p.intersects(far.x, far.y, far.width, far.height),
        far.intersects(p.x, p.y, p.width, p.height)
    );
}

#[test]
fn test_facing_follows_held_direction() {
    let platforms: Vec<Platform> = Vec::new();
    let mut p = Player::new(400_000, 100_000);
    let left = InputState {
        move_left: true,
        move_right: false,
        jump_pressed: false,
        quit_requested: false,
    };
    p.update(&platforms, 100, &left, SCREEN_W, SCREEN_H);
    assert!(!p.facing_right);
    assert_eq!(p.velocity_x, -200_000);
    p.update(&platforms, 100, &no_input(), SCREEN_W, SCREEN_H);
    // No direction held: facing is kept, velocity zeroed.
    assert!(!p.facing_right);
    assert_eq!(p.velocity_x, 0);
}
