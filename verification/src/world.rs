//! The world: one player, static platforms, patrolling enemies, decorative
//! trees, a goal zone, a smoothed horizontal camera and the sticky win flag,
//! orchestrated by one per-tick update.

use vstd::prelude::*;
use crate::enemy::{
    enemy_rect, enemy_step, enemy_wf, initial_enemy_at, lemma_enemy_step_bounds, Enemy, EnemyModel,
    Tree, TreeModel,
};
use crate::geometry::{platform_wf, rect_in_arg_range, rect_intersects, rect_of, Platform, Rect};
use crate::player::{
    initial_player_at, lemma_player_step_bounds, platform_views, platforms_wf, player_rect,
    player_step, player_wf, InputState, Player, PlayerModel,
};
use crate::units::{
    div_t, div_trunc, CAMERA_LIMIT, COORD_LIMIT, DT_LIMIT, GOAL_SIZE, PLATFORM_HEIGHT, SPAWN_X,
    SPAWN_Y,
};

verus! {

/// The goal zone the player must reach.  Fixed size, immutable after
/// construction.
#[derive(Clone, Copy, Debug)]
pub struct Goal {
    pub x: i64,
    pub y: i64,
    pub width: i64,
    pub height: i64,
}

impl View for Goal {
    type V = Rect;

    open spec fn view(&self) -> Rect {
        Rect { x: self.x as int, y: self.y as int, w: self.width as int, h: self.height as int }
    }
}

impl Goal {
    /// Create a new goal at the specified position, one goal-size wide and
    /// two tall.
    pub fn new(x: i64, y: i64) -> (g: Goal)
        requires
            -COORD_LIMIT <= x <= COORD_LIMIT,
            -COORD_LIMIT <= y <= COORD_LIMIT,
        ensures
            g@ == rect_of(x as int, y as int, GOAL_SIZE as int, 2 * GOAL_SIZE as int),
            platform_wf(g@),
    {
        Goal { x, y, width: GOAL_SIZE, height: GOAL_SIZE * 2 }
    }
}

/// The mathematical state of the whole world.
#[verifier::ext_equal]
pub ghost struct WorldModel {
    pub player: PlayerModel,
    pub platforms: Seq<Rect>,
    pub goal: Rect,
    pub trees: Seq<TreeModel>,
    pub enemies: Seq<EnemyModel>,
    pub won: bool,
    pub camera_x: int,
}

/// The models of a list of enemies.
pub open spec fn enemy_views(s: Seq<Enemy>) -> Seq<EnemyModel> {
    s.map_values(|e: Enemy| e@)
}

/// The models of a list of trees.
pub open spec fn tree_views(s: Seq<Tree>) -> Seq<TreeModel> {
    s.map_values(|t: Tree| t@)
}

/// Bounds under which one tick of the world update cannot overflow.
pub open spec fn world_wf(w: WorldModel) -> bool {
    &&& player_wf(w.player)
    &&& platforms_wf(w.platforms)
    &&& (forall|i: int| 0 <= i < w.enemies.len() ==> enemy_wf(#[trigger] w.enemies[i]))
    &&& platform_wf(w.goal)
    &&& -CAMERA_LIMIT <= w.camera_x <= CAMERA_LIMIT
}

/// Whether some enemy touches the player.
pub open spec fn some_enemy_hits_player(enemies: Seq<EnemyModel>, p: PlayerModel) -> bool {
    exists|i: int|
        0 <= i < enemies.len() && rect_intersects(player_rect(p), enemy_rect(#[trigger] enemies[i]))
}

/// Enemy contact sends the player back to the spawn point with zeroed
/// velocity; everything else about the player is kept.
pub open spec fn enemy_contact_applied(enemies: Seq<EnemyModel>, p: PlayerModel) -> PlayerModel {
    if some_enemy_hits_player(enemies, p) {
        PlayerModel { x: SPAWN_X as int, y: SPAWN_Y as int, vx: 0, vy: 0, ..p }
    } else {
        p
    }
}

/// Camera follow: the offset moves a tenth of the way toward the point that
/// centres the player, then is clamped to be non-negative.
pub open spec fn camera_followed(cam: int, px: int, sw: int) -> int {
    let target: int = px - div_t(sw, 2);
    let moved: int = cam + div_t(target - cam, 10);
    if moved < 0 {
        0
    } else {
        moved
    }
}

/// One tick of the world.  A won world is left entirely unchanged.
/// Otherwise: the player steps against the platforms, every enemy patrols,
/// enemy contact resets the player to spawn, the camera follows the player,
/// and reaching the goal sets the sticky win flag.
pub open spec fn world_step(w: WorldModel, inp: InputState, dt: int, sw: int, sh: int) -> WorldModel {
    if w.won {
        w
    } else {
        let p1: PlayerModel = player_step(w.player, w.platforms, inp, dt, sw, sh);
        let es: Seq<EnemyModel> = w.enemies.map_values(|e: EnemyModel| enemy_step(e, dt));
        let p2: PlayerModel = enemy_contact_applied(es, p1);
        let cam: int = camera_followed(w.camera_x, p2.x, sw);
        let won: bool = rect_intersects(player_rect(p2), w.goal);
        WorldModel { player: p2, enemies: es, camera_x: cam, won, ..w }
    }
}

/// Once won, ticks change nothing at all: the win flag is sticky and
/// gameplay updates become no-ops.
pub proof fn lemma_won_is_sticky(w: WorldModel, inp: InputState, dt: int, sw: int, sh: int)
    requires
        w.won,
    ensures
        world_step(w, inp, dt, sw, sh) == w,
        world_step(w, inp, dt, sw, sh).won,
{
}

/// The camera offset never becomes negative, whatever the player position:
/// an un-won tick clamps it to be non-negative, and a won tick keeps it.
pub proof fn lemma_camera_never_negative(w: WorldModel, inp: InputState, dt: int, sw: int, sh: int)
    requires
        w.camera_x >= 0,
    ensures
        world_step(w, inp, dt, sw, sh).camera_x >= 0,
{
}

/// The platform layout of the built-in level.
pub open spec fn initial_platforms() -> Seq<Rect> {
    seq![
        rect_of(0, 400_000, 200_000, PLATFORM_HEIGHT as int),
        rect_of(250_000, 450_000, 150_000, PLATFORM_HEIGHT as int),
        rect_of(450_000, 350_000, 100_000, PLATFORM_HEIGHT as int),
        rect_of(600_000, 300_000, 120_000, PLATFORM_HEIGHT as int),
        rect_of(750_000, 250_000, 100_000, PLATFORM_HEIGHT as int),
        rect_of(200_000, 300_000, 80_000, PLATFORM_HEIGHT as int),
        rect_of(350_000, 200_000, 80_000, PLATFORM_HEIGHT as int),
        rect_of(500_000, 150_000, 80_000, PLATFORM_HEIGHT as int),
        rect_of(850_000, 200_000, 100_000, PLATFORM_HEIGHT as int),
    ]
}

/// The decorative trees of the built-in level.
pub open spec fn initial_trees() -> Seq<TreeModel> {
    seq![
        TreeModel { x: 100_000, y: 400_000, height: 40_000 },
        TreeModel { x: 300_000, y: 450_000, height: 35_000 },
        TreeModel { x: 520_000, y: 350_000, height: 45_000 },
        TreeModel { x: 700_000, y: 250_000, height: 38_000 },
        TreeModel { x: 950_000, y: 200_000, height: 42_000 },
    ]
}

/// The enemies of the built-in level.
pub open spec fn initial_enemies() -> Seq<EnemyModel> {
    seq![
        initial_enemy_at(220_000, 384_000, 210_000, 380_000),
        initial_enemy_at(470_000, 334_000, 460_000, 540_000),
        initial_enemy_at(620_000, 284_000, 610_000, 710_000),
    ]
}

/// The state a freshly constructed world starts from.
pub open spec fn initial_world() -> WorldModel {
    WorldModel {
        player: initial_player_at(SPAWN_X as int, SPAWN_Y as int),
        platforms: initial_platforms(),
        goal: rect_of(870_000, 140_000, GOAL_SIZE as int, 2 * GOAL_SIZE as int),
        trees: initial_trees(),
        enemies: initial_enemies(),
        won: false,
        camera_x: 0,
    }
}

/// The whole game state: the level layout and everything that moves in it.
pub struct SimpleLevel {
    pub player: Player,
    platforms: Vec<Platform>,
    goal: Goal,
    trees: Vec<Tree>,
    enemies: Vec<Enemy>,
    pub game_won: bool,
    camera_x: i64,
}

impl View for SimpleLevel {
    type V = WorldModel;

    closed spec fn view(&self) -> WorldModel {
        WorldModel {
            player: self.player@,
            platforms: platform_views(self.platforms@),
            goal: self.goal@,
            trees: tree_views(self.trees@),
            enemies: enemy_views(self.enemies@),
            won: self.game_won,
            camera_x: self.camera_x as int,
        }
    }
}

impl SimpleLevel {
    /// Create the built-in level: the platform layout, trees, enemies, the
    /// goal, a fresh player at the spawn point and a camera at zero.
    pub fn new() -> (w: SimpleLevel)
        ensures
            w@ == initial_world(),
            world_wf(w@),
    {
        let mut platforms: Vec<Platform> = Vec::new();
        platforms.push(Platform::new(0, 400_000, 200_000, PLATFORM_HEIGHT));
        platforms.push(Platform::new(250_000, 450_000, 150_000, PLATFORM_HEIGHT));
        platforms.push(Platform::new(450_000, 350_000, 100_000, PLATFORM_HEIGHT));
        platforms.push(Platform::new(600_000, 300_000, 120_000, PLATFORM_HEIGHT));
        platforms.push(Platform::new(750_000, 250_000, 100_000, PLATFORM_HEIGHT));
        platforms.push(Platform::new(200_000, 300_000, 80_000, PLATFORM_HEIGHT));
        platforms.push(Platform::new(350_000, 200_000, 80_000, PLATFORM_HEIGHT));
        platforms.push(Platform::new(500_000, 150_000, 80_000, PLATFORM_HEIGHT));
        platforms.push(Platform::new(850_000, 200_000, 100_000, PLATFORM_HEIGHT));

        let mut trees: Vec<Tree> = Vec::new();
        trees.push(Tree::new(100_000, 400_000, 40_000));
        trees.push(Tree::new(300_000, 450_000, 35_000));
        trees.push(Tree::new(520_000, 350_000, 45_000));
        trees.push(Tree::new(700_000, 250_000, 38_000));
        trees.push(Tree::new(950_000, 200_000, 42_000));

        let mut enemies: Vec<Enemy> = Vec::new();
        enemies.push(Enemy::new(220_000, 384_000, 210_000, 380_000));
        enemies.push(Enemy::new(470_000, 334_000, 460_000, 540_000));
        enemies.push(Enemy::new(620_000, 284_000, 610_000, 710_000));

        let w = SimpleLevel {
            player: Player::new(SPAWN_X, SPAWN_Y),
            platforms,
            goal: Goal::new(870_000, 140_000),
            trees,
            enemies,
            game_won: false,
            camera_x: 0,
        };
        proof {
            assert(w@.platforms =~= initial_platforms());
            assert(w@.trees =~= initial_trees());
            assert(w@.enemies =~= initial_enemies());
            assert(w@ =~~= initial_world());
        }
        w
    }

    /// The platforms of the level, for rendering.
    pub fn platforms(&self) -> (r: &Vec<Platform>)
        ensures
            platform_views(r@) == self@.platforms,
    {
        &self.platforms
    }

    /// The goal zone, for rendering.
    pub fn goal(&self) -> (r: &Goal)
        ensures
            r@ == self@.goal,
    {
        &self.goal
    }

    /// The decorative trees, for rendering.
    pub fn trees(&self) -> (r: &Vec<Tree>)
        ensures
            tree_views(r@) == self@.trees,
    {
        &self.trees
    }

    /// The enemies, for rendering.
    pub fn enemies(&self) -> (r: &Vec<Enemy>)
        ensures
            enemy_views(r@) == self@.enemies,
    {
        &self.enemies
    }

    /// The current horizontal camera offset.
    pub fn camera_x(&self) -> (r: i64)
        ensures
            r as int == self@.camera_x,
    {
        self.camera_x
    }

    /// One tick of the game: exactly `world_step` on the model.
    #[verifier::rlimit(50)]
    pub fn update(
        &mut self,
        delta_time: i64,
        input: &InputState,
        screen_width: i64,
        screen_height: i64,
    )
        requires
            world_wf(old(self)@),
            0 <= delta_time <= DT_LIMIT,
            0 <= screen_width <= COORD_LIMIT,
            0 <= screen_height <= COORD_LIMIT,
        ensures
            final(self)@ == world_step(
                old(self)@,
                *input,
                delta_time as int,
                screen_width as int,
                screen_height as int,
            ),
            old(self)@.won ==> final(self)@ == old(self)@,
            old(self)@.won ==> final(self)@.won,
            !old(self)@.won ==> final(self)@.camera_x >= 0,
            old(self)@.camera_x >= 0 ==> final(self)@.camera_x >= 0,
    {
        if self.game_won {
            return ;
        }
        let ghost w0 = old(self)@;
        let ghost dt = delta_time as int;
        let ghost sw = screen_width as int;
        let ghost sh = screen_height as int;

        self.player.update(&self.platforms, delta_time, input, screen_width, screen_height);
        let ghost p1 = player_step(w0.player, w0.platforms, *input, dt, sw, sh);
        assert(self.player@ == p1);
        proof {
            lemma_player_step_bounds(w0.player, w0.platforms, *input, dt, sw, sh);
        }

        let ghost enemies0 = self.enemies@;
        proof {
            assert forall|k: int| 0 <= k < enemies0.len() implies enemy_wf(
                #[trigger] enemies0[k]@,
            ) by {
                assert(w0.enemies[k] == enemies0[k]@);
            }
        }
        let n: usize = self.enemies.len();
        let mut j: usize = 0;
        while j < n
            invariant
                j <= n,
                n == self.enemies@.len(),
                self.enemies@.len() == enemies0.len(),
                0 <= delta_time <= DT_LIMIT,
                forall|k: int|
                    0 <= k < j ==> #[trigger] self.enemies@[k]@ == enemy_step(
                        enemies0[k]@,
                        delta_time as int,
                    ),
                forall|k: int| j <= k < enemies0.len() ==> self.enemies@[k] == enemies0[k],
                forall|k: int| 0 <= k < enemies0.len() ==> enemy_wf(#[trigger] enemies0[k]@),
                self.player@ == p1,
                self.game_won == false,
                platform_views(self.platforms@) == w0.platforms,
                tree_views(self.trees@) == w0.trees,
                self.goal@ == w0.goal,
                self.camera_x as int == w0.camera_x,
            decreases n - j,
        {
            let mut e = self.enemies[j];
            e.update(delta_time);
            self.enemies.set(j, e);
            j = j + 1;
        }
        let ghost es = w0.enemies.map_values(|e: EnemyModel| enemy_step(e, dt));
        proof {
            assert(enemy_views(self.enemies@) =~= es);
        }

        let mut hit: bool = false;
        let m: usize = self.enemies.len();
        let mut k: usize = 0;
        while k < m
            invariant
                k <= m,
                m == self.enemies@.len(),
                enemy_views(self.enemies@) == es,
                es.len() == enemies0.len(),
                forall|i: int| 0 <= i < enemies0.len() ==> enemy_wf(#[trigger] enemies0[i]@),
                forall|i: int|
                    0 <= i < enemies0.len() ==> #[trigger] es[i] == enemy_step(
                        enemies0[i]@,
                        delta_time as int,
                    ),
                0 <= delta_time <= DT_LIMIT,
                dt == delta_time as int,
                rect_in_arg_range(player_rect(p1)),
                self.player@ == p1,
                self.game_won == false,
                platform_views(self.platforms@) == w0.platforms,
                tree_views(self.trees@) == w0.trees,
                self.goal@ == w0.goal,
                self.camera_x as int == w0.camera_x,
                hit == exists|i: int|
                    0 <= i < k && rect_intersects(player_rect(p1), enemy_rect(#[trigger] es[i])),
            decreases m - k,
        {
            proof {
                lemma_enemy_step_bounds(enemies0[k as int]@, dt);
                assert(rect_in_arg_range(enemy_rect(es[k as int])));
            }
            let touching = self.enemies[k].intersects(
                self.player.x,
                self.player.y,
                self.player.width,
                self.player.height,
            );
            if touching {
                assert(rect_intersects(player_rect(p1), enemy_rect(es[k as int])));
                hit = true;
            }
            k = k + 1;
        }
        assert(hit == some_enemy_hits_player(es, p1));
        if hit {
            self.player.x = SPAWN_X;
            self.player.y = SPAWN_Y;
            self.player.velocity_x = 0;
            self.player.velocity_y = 0;
        }
        let ghost p2 = enemy_contact_applied(es, p1);
        assert(self.player@ == p2);

        let target: i64 = self.player.x - div_trunc(screen_width, 2);
        let moved: i64 = self.camera_x + div_trunc(target - self.camera_x, 10);
        self.camera_x = if moved < 0 {
            0
        } else {
            moved
        };
        assert(self.camera_x as int == camera_followed(w0.camera_x, p2.x, sw));

        proof {
            assert(platform_wf(self.goal@));
        }
        if self.player.intersects(self.goal.x, self.goal.y, self.goal.width, self.goal.height) {
            self.game_won = true;
        }
        assert(self.game_won == rect_intersects(player_rect(p2), w0.goal));

        proof {
            assert(self@ =~~= world_step(w0, *input, dt, sw, sh));
        }
    }

    /// Whether the host asked to quit this tick.
    pub fn should_quit(&self, input: &InputState) -> (r: bool)
        ensures
            r == input.quit_requested,
    {
        input.quit_requested
    }
}

} // verus!
