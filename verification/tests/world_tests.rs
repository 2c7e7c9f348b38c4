//! Tests for the world tick: winning, the sticky win flag, enemy contact,
//! and the camera.

use rust_mario::player::InputState;
use rust_mario::world::SimpleLevel;

const SCREEN_W: i64 = 800_000;
const SCREEN_H: i64 = 600_000;

fn no_input() -> InputState {
    InputState { move_left: false, move_right: false, jump_pressed: false, quit_requested: false }
}

#[test]
fn test_screenshot_functionality() {
    // The game state is set up correctly on construction.
    let game = SimpleLevel::new();
    assert!(!game.game_won, "Game should not be won initially");
    println!("Screenshot functionality test passed - game state initialized correctly");
}

#[test]
fn test_initial_layout() {
    let game = SimpleLevel::new();
    assert_eq!(game.platforms().len(), 9);
    assert_eq!(game.trees().len(), 5);
    assert_eq!(game.enemies().len(), 3);
    assert_eq!(game.camera_x(), 0);
    assert_eq!(game.goal().x, 870_000);
    assert_eq!(game.goal().y, 140_000);
    assert_eq!(game.goal().width, 30_000);
    assert_eq!(game.goal().height, 60_000);
    assert_eq!(game.player.x, 50_000);
    assert_eq!(game.player.y, 50_000);
}

#[test]
fn test_win_is_set_and_sticky() {
    // Fresh world: not won.  Place the player fully inside the goal and
    // tick once: won becomes true.  Move the player back out and tick
    // again: won stays true and the tick is a no-op.
    let mut game = SimpleLevel::new();
    assert!(!game.game_won);

    game.player.x = 875_000;
    game.player.y = 160_000;
    // A wide screen so the clamp does not pull the player out of the goal.
    game.update(0, &no_input(), 1_000_000, SCREEN_H);
    assert!(game.game_won);

    game.player.x = 50_000;
    game.player.y = 50_000;
    game.update(0, &no_input(), 1_000_000, SCREEN_H);
    assert!(game.game_won);
    // A won world does not move the player any more.
    assert_eq!(game.player.x, 50_000);
    assert_eq!(game.player.y, 50_000);
}

#[test]
fn test_camera_never_negative() {
    // The player sits near the left edge, so the camera target is negative;
    // the offset is clamped to zero, tick after tick.
    let mut game = SimpleLevel::new();
    for _ in 0..10 {
        game.update(16, &no_input(), SCREEN_W, SCREEN_H);
        assert!(game.camera_x() >= 0);
    }
    assert_eq!(game.camera_x(), 0);
}

#[test]
fn test_camera_follows_player_smoothly() {
    let mut game = SimpleLevel::new();
    game.player.x = 700_000;
    game.player.y = 100_000;
    game.update(100, &no_input(), SCREEN_W, SCREEN_H);
    // Target is 700_000 - 400_000; the camera moves a tenth of the way.
    assert_eq!(game.camera_x(), 30_000);
}

#[test]
fn test_enemy_contact_resets_player_to_spawn() {
    let mut game = SimpleLevel::new();
    game.player.x = 220_000;
    game.player.y = 384_000;
    game.update(0, &no_input(), SCREEN_W, SCREEN_H);
    assert_eq!(game.player.x, 50_000);
    assert_eq!(game.player.y, 50_000);
    assert_eq!(game.player.velocity_x, 0);
    assert_eq!(game.player.velocity_y, 0);
    assert!(!game.game_won);
}

#[test]
fn test_should_quit_reports_input() {
    let game = SimpleLevel::new();
    let quit = InputState {
        move_left: false,
        move_right: false,
        jump_pressed: false,
        quit_requested: true,
    };
    assert!(game.should_quit(&quit));
    assert!(!game.should_quit(&no_input()));
}
