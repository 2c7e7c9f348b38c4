//! Fixed-point units and the truncating division they are computed with.
//!
//! One world unit is `SCALE` sub-units.  Positions are sub-units, velocities
//! are sub-units per second, accelerations are sub-units per second squared,
//! and time steps are milliseconds, so the displacement of a body with
//! velocity `v` over a step `dt` is `v * dt / SCALE`, rounded toward zero.

use vstd::prelude::*;
use vstd::arithmetic::div_mod::{lemma_div_nonincreasing, lemma_div_pos_is_pos};

verus! {

/// Sub-units per world unit.
pub const SCALE: i64 = 1000;

/// Downward acceleration while airborne, in sub-units per second squared.
pub const GRAVITY: i64 = 800_000;

/// Upward velocity granted by a jump, in sub-units per second.
pub const JUMP_STRENGTH: i64 = 300_000;

/// Horizontal speed while a direction is held, in sub-units per second.
pub const PLAYER_SPEED: i64 = 200_000;

/// Width and height of the player, in sub-units.
pub const PLAYER_SIZE: i64 = 20_000;

/// Thickness of every platform in the built-in level, in sub-units.
pub const PLATFORM_HEIGHT: i64 = 20_000;

/// Width of the goal zone, in sub-units; its height is twice this.
pub const GOAL_SIZE: i64 = 30_000;

/// Width and height of an enemy, in sub-units.
pub const ENEMY_SIZE: i64 = 16_000;

/// Patrol speed of an enemy, in sub-units per second.
pub const ENEMY_SPEED: i64 = 30_000;

/// X coordinate the player is reset to, in sub-units.
pub const SPAWN_X: i64 = 50_000;

/// Y coordinate the player is reset to, in sub-units.
pub const SPAWN_Y: i64 = 50_000;

/// Horizontal speed above which a grounded player animates as walking.
pub const WALK_ANIMATION_THRESHOLD: i64 = 10_000;

/// Largest time step accepted by the update operations, in milliseconds.
pub const DT_LIMIT: i64 = 1_000_000;

/// Bound on level geometry coordinates and sizes, and on screen dimensions.
pub const COORD_LIMIT: i64 = 1_000_000_000;

/// Bound on the magnitude of player positions accepted by an update.
pub const POS_LIMIT: i64 = 1_000_000_000_000;

/// Bound on the magnitude of velocities accepted by an update.
pub const VEL_LIMIT: i64 = 1_000_000_000;

/// Bound on the animation timer accepted by an update.
pub const TIMER_LIMIT: i64 = 1_000_000_000_000_000;

/// Bound on the magnitude of the camera offset accepted by an update.
pub const CAMERA_LIMIT: i64 = 1_000_000_000_000_000;

/// Bound on the coordinates accepted by the raw rectangle tests.
pub const GEOM_ARG_LIMIT: i64 = 1_000_000_000_000_000_000;

/// Bound on the dividend accepted by `div_trunc`.
pub const DIV_ARG_LIMIT: i64 = 0x4000_0000_0000_0000;

/// Quotient of `a` by `d`, rounded toward zero, as Rust's integer division
/// rounds.  Meaningful for `d >= 1`.
pub open spec fn div_t(a: int, d: int) -> int {
    if a >= 0 {
        a / d
    } else {
        -((-a) / d)
    }
}

/// Truncating division never moves a quotient past zero or past the dividend.
pub proof fn lemma_div_t_bounds(a: int, d: int)
    requires
        1 <= d,
    ensures
        a >= 0 ==> 0 <= div_t(a, d) <= a,
        a < 0 ==> a <= div_t(a, d) <= 0,
{
    if a >= 0 {
        lemma_div_pos_is_pos(a, d);
        lemma_div_nonincreasing(a, d);
    } else {
        lemma_div_pos_is_pos(-a, d);
        lemma_div_nonincreasing(-a, d);
    }
}

/// How far a body with velocity `v` (sub-units per second) moves over a step
/// of `dt` milliseconds.
pub open spec fn displacement(v: int, dt: int) -> int {
    div_t(v * dt, SCALE as int)
}

/// Quotient of `a` by `d`, rounded toward zero.
pub fn div_trunc(a: i64, d: i64) -> (q: i64)
    requires
        1 <= d,
        -DIV_ARG_LIMIT <= a <= DIV_ARG_LIMIT,
    ensures
        q == div_t(a as int, d as int),
        a >= 0 ==> 0 <= q <= a,
        a < 0 ==> a <= q <= 0,
{
    proof {
        lemma_div_t_bounds(a as int, d as int);
    }
    if a >= 0 {
        let q: u64 = (a as u64) / (d as u64);
        q as i64
    } else {
        let m: i64 = -a;
        let q: u64 = (m as u64) / (d as u64);
        let qi: i64 = q as i64;
        -qi
    }
}

/// Displacement of a body with velocity `v` over a step of `dt` milliseconds.
pub fn displacement_exec(v: i64, dt: i64) -> (d: i64)
    requires
        -2_000_000_000 <= v <= 2_000_000_000,
        0 <= dt <= DT_LIMIT,
    ensures
        d == displacement(v as int, dt as int),
        -2_000_000_000_000_000 <= d <= 2_000_000_000_000_000,
{
    proof {
        assert(-2_000_000_000_000_000 <= (v as int) * (dt as int)
            <= 2_000_000_000_000_000) by (nonlinear_arith)
            requires
                -2_000_000_000 <= v as int <= 2_000_000_000,
                0 <= dt as int <= 1_000_000,
        ;
    }
    let prod: i64 = v * dt;
    div_trunc(prod, SCALE)
}

} // verus!
