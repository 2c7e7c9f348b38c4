//! Patrolling enemies — a two-state machine walking back and forth between
//! two x bounds, unaffected by gravity and platforms — and decorative trees.

use vstd::prelude::*;
use vstd::arithmetic::mul::lemma_mul_nonnegative;
use crate::geometry::{Rect, rect_in_arg_range, rect_intersects, rect_of};
use crate::units::{
    displacement, displacement_exec, div_t, COORD_LIMIT, DT_LIMIT, ENEMY_SIZE, ENEMY_SPEED,
    GEOM_ARG_LIMIT, SCALE, VEL_LIMIT,
};

verus! {

/// Which way an enemy is currently walking.
#[derive(Clone, Copy, Debug, PartialEq, Eq, Structural)]
pub enum EnemyDirection {
    Left,
    Right,
}

/// The mathematical state of an enemy.
pub ghost struct EnemyModel {
    pub x: int,
    pub y: int,
    pub w: int,
    pub h: int,
    pub direction: EnemyDirection,
    pub speed: int,
    pub patrol_start: int,
    pub patrol_end: int,
}

/// The rectangle the enemy occupies.
pub open spec fn enemy_rect(e: EnemyModel) -> Rect {
    rect_of(e.x, e.y, e.w, e.h)
}

/// Bounds under which one tick of the patrol cannot overflow.
pub open spec fn enemy_wf(e: EnemyModel) -> bool {
    &&& -COORD_LIMIT <= e.x <= COORD_LIMIT
    &&& -COORD_LIMIT <= e.y <= COORD_LIMIT
    &&& 0 <= e.w <= COORD_LIMIT
    &&& 0 <= e.h <= COORD_LIMIT
    &&& 0 <= e.speed <= VEL_LIMIT
    &&& -COORD_LIMIT <= e.patrol_start <= COORD_LIMIT
    &&& -COORD_LIMIT <= e.patrol_end <= COORD_LIMIT
}

/// The enemy stands inside its patrol range.
pub open spec fn patrol_invariant(e: EnemyModel) -> bool {
    e.patrol_start <= e.x <= e.patrol_end
}

/// One tick of patrol: move by `speed * dt` along the current direction; on
/// crossing a patrol bound, clamp to that bound and flip the direction.
pub open spec fn enemy_step(e: EnemyModel, dt: int) -> EnemyModel {
    let d: int = displacement(e.speed, dt);
    match e.direction {
        EnemyDirection::Right => {
            let nx: int = e.x + d;
            if nx >= e.patrol_end {
                EnemyModel { x: e.patrol_end, direction: EnemyDirection::Left, ..e }
            } else {
                EnemyModel { x: nx, ..e }
            }
        },
        EnemyDirection::Left => {
            let nx: int = e.x - d;
            if nx <= e.patrol_start {
                EnemyModel { x: e.patrol_start, direction: EnemyDirection::Right, ..e }
            } else {
                EnemyModel { x: nx, ..e }
            }
        },
    }
}

/// A patrol step never leaves the patrol range, and never moves its bounds:
/// an enemy that starts between its bounds stays between them, and its
/// direction flips exactly when it reaches one.
pub proof fn lemma_patrol_stays_in_bounds(e: EnemyModel, dt: int)
    requires
        patrol_invariant(e),
        0 <= e.speed,
        0 <= dt,
    ensures
        patrol_invariant(enemy_step(e, dt)),
        enemy_step(e, dt).patrol_start == e.patrol_start,
        enemy_step(e, dt).patrol_end == e.patrol_end,
{
    lemma_mul_nonnegative(e.speed, dt);
    crate::units::lemma_div_t_bounds(e.speed * dt, SCALE as int);
}

/// One patrol step moves only the x coordinate, keeps it within the
/// raw-test range, and leaves every other component unchanged.
pub proof fn lemma_enemy_step_bounds(e: EnemyModel, dt: int)
    requires
        enemy_wf(e),
        0 <= dt <= DT_LIMIT,
    ensures
        ({
            let s = enemy_step(e, dt);
            &&& rect_in_arg_range(enemy_rect(s))
            &&& s.y == e.y
            &&& s.w == e.w
            &&& s.h == e.h
            &&& s.speed == e.speed
            &&& s.patrol_start == e.patrol_start
            &&& s.patrol_end == e.patrol_end
        }),
{
    assert(0 <= e.speed * dt <= 1_000_000_000_000_000) by (nonlinear_arith)
        requires
            0 <= e.speed <= 1_000_000_000,
            0 <= dt <= 1_000_000,
    ;
    crate::units::lemma_div_t_bounds(e.speed * dt, SCALE as int);
}

/// A simple patrolling enemy.
#[derive(Clone, Copy, Debug)]
pub struct Enemy {
    pub x: i64,
    pub y: i64,
    pub width: i64,
    pub height: i64,
    pub direction: EnemyDirection,
    pub speed: i64,
    pub patrol_start: i64,
    pub patrol_end: i64,
}

impl View for Enemy {
    type V = EnemyModel;

    open spec fn view(&self) -> EnemyModel {
        EnemyModel {
            x: self.x as int,
            y: self.y as int,
            w: self.width as int,
            h: self.height as int,
            direction: self.direction,
            speed: self.speed as int,
            patrol_start: self.patrol_start as int,
            patrol_end: self.patrol_end as int,
        }
    }
}

/// The state a freshly spawned enemy starts from.
pub open spec fn initial_enemy_at(x: int, y: int, patrol_start: int, patrol_end: int) -> EnemyModel {
    EnemyModel {
        x,
        y,
        w: ENEMY_SIZE as int,
        h: ENEMY_SIZE as int,
        direction: EnemyDirection::Right,
        speed: ENEMY_SPEED as int,
        patrol_start,
        patrol_end,
    }
}

impl Enemy {
    /// Create a new enemy at `(x, y)` patrolling between `patrol_start` and
    /// `patrol_end`, walking right at the fixed patrol speed.
    pub fn new(x: i64, y: i64, patrol_start: i64, patrol_end: i64) -> (e: Enemy)
        requires
            -COORD_LIMIT <= y <= COORD_LIMIT,
            -COORD_LIMIT <= patrol_start <= COORD_LIMIT,
            -COORD_LIMIT <= patrol_end <= COORD_LIMIT,
            patrol_start <= x <= patrol_end,
        ensures
            e@ == initial_enemy_at(x as int, y as int, patrol_start as int, patrol_end as int),
            enemy_wf(e@),
            patrol_invariant(e@),
    {
        Enemy {
            x,
            y,
            width: ENEMY_SIZE,
            height: ENEMY_SIZE,
            direction: EnemyDirection::Right,
            speed: ENEMY_SPEED,
            patrol_start,
            patrol_end,
        }
    }

    /// One tick of the patrol state machine: exactly `enemy_step` on the
    /// model.
    pub fn update(&mut self, delta_time: i64)
        requires
            enemy_wf(old(self)@),
            0 <= delta_time <= DT_LIMIT,
        ensures
            final(self)@ == enemy_step(old(self)@, delta_time as int),
    {
        let d: i64 = displacement_exec(self.speed, delta_time);
        match self.direction {
            EnemyDirection::Right => {
                let nx: i64 = self.x + d;
                if nx >= self.patrol_end {
                    self.x = self.patrol_end;
                    self.direction = EnemyDirection::Left;
                } else {
                    self.x = nx;
                }
            },
            EnemyDirection::Left => {
                let nx: i64 = self.x - d;
                if nx <= self.patrol_start {
                    self.x = self.patrol_start;
                    self.direction = EnemyDirection::Right;
                } else {
                    self.x = nx;
                }
            },
        }
    }

    /// Whether the enemy overlaps the rectangle at `(x, y)` of size `width`
    /// by `height`.
    pub fn intersects(&self, x: i64, y: i64, width: i64, height: i64) -> (r: bool)
        requires
            rect_in_arg_range(enemy_rect(self@)),
            rect_in_arg_range(rect_of(x as int, y as int, width as int, height as int)),
        ensures
            r == rect_intersects(
                rect_of(x as int, y as int, width as int, height as int),
                enemy_rect(self@),
            ),
    {
        x < self.x + self.width && x + width > self.x && y < self.y + self.height && y + height
            > self.y
    }
}

/// A decorative background tree; it takes no part in the simulation.
#[derive(Clone, Copy, Debug)]
pub struct Tree {
    pub x: i64,
    pub y: i64,
    pub height: i64,
}

/// The mathematical state of a tree.
pub ghost struct TreeModel {
    pub x: int,
    pub y: int,
    pub height: int,
}

impl View for Tree {
    type V = TreeModel;

    open spec fn view(&self) -> TreeModel {
        TreeModel { x: self.x as int, y: self.y as int, height: self.height as int }
    }
}

impl Tree {
    /// Create a new tree at the specified position.
    pub fn new(x: i64, y: i64, height: i64) -> (t: Tree)
        ensures
            t@ == (TreeModel { x: x as int, y: y as int, height: height as int }),
    {
        Tree { x, y, height }
    }
}

} // verus!
