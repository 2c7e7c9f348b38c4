//! Tests for the enemy patrol state machine.

use rust_mario::enemy::{Enemy, EnemyDirection};

#[test]
fn test_enemy_new_defaults() {
    let e = Enemy::new(220_000, 384_000, 210_000, 380_000);
    assert_eq!(e.x, 220_000);
    assert_eq!(e.y, 384_000);
    assert_eq!(e.width, 16_000);
    assert_eq!(e.height, 16_000);
    assert_eq!(e.direction, EnemyDirection::Right);
    assert_eq!(e.speed, 30_000);
    assert_eq!(e.patrol_start, 210_000);
    assert_eq!(e.patrol_end, 380_000);
}

#[test]
fn test_patrol_walks_then_flips_at_end() {
    // Patrol from 100 to 200 world units at 50 per second, one-second
    // ticks: x goes 100 -> 150 -> 200, and at 200 the direction flips.
    let mut e = Enemy::new(100_000, 0, 100_000, 200_000);
    e.speed = 50_000;

    e.update(1_000);
    assert_eq!(e.x, 150_000);
    assert_eq!(e.direction, EnemyDirection::Right);

    e.update(1_000);
    assert_eq!(e.x, 200_000);
    assert_eq!(e.direction, EnemyDirection::Left);
}

#[test]
fn test_patrol_clamps_on_overshoot() {
    // A step that would overshoot the patrol end is clamped to the bound.
    let mut e = Enemy::new(100_000, 0, 90_000, 110_000);
    e.update(1_000);
    assert_eq!(e.x, 110_000);
    assert_eq!(e.direction, EnemyDirection::Left);

    e.update(1_000);
    assert_eq!(e.x, 90_000);
    assert_eq!(e.direction, EnemyDirection::Right);
}

#[test]
fn test_patrol_stays_in_bounds_over_many_ticks() {
    let mut e = Enemy::new(100_000, 0, 90_000, 110_000);
    for _ in 0..50 {
        e.update(333);
        assert!(e.patrol_start <= e.x && e.x <= e.patrol_end);
    }
}

#[test]
fn test_enemy_intersects_strict() {
    let e = Enemy::new(0, 0, 0, 100_000);
    assert!(e.intersects(10_000, 10_000, 20_000, 20_000));
    // Edge touch on the right side of the enemy is not an intersection.
    assert!(!e.intersects(16_000, 0, 10_000, 10_000));
}
