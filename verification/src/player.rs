//! The player body and its per-tick update: input resolution, gravity,
//! axis-separated collision resolution against the platforms, screen
//! clamping, the fall-off-world reset, ground friction and the animation
//! state machine, in that fixed order.  The order is deliberate policy — it
//! affects the final resolved position — and `player_step` pins it down.

use vstd::prelude::*;
use vstd::arithmetic::div_mod::{lemma_div_multiples_vanish, lemma_div_of0};
use crate::geometry::{Platform, Rect, platform_wf, rect_in_arg_range, rect_intersects, rect_of};
use crate::units::{
    displacement, displacement_exec, div_t, div_trunc, lemma_div_t_bounds, COORD_LIMIT, DT_LIMIT,
    GEOM_ARG_LIMIT, GRAVITY, JUMP_STRENGTH, PLAYER_SIZE, PLAYER_SPEED, POS_LIMIT, SCALE, SPAWN_X,
    SPAWN_Y, TIMER_LIMIT, VEL_LIMIT, WALK_ANIMATION_THRESHOLD,
};

verus! {

/// What the player looks like while being drawn.
#[derive(Clone, Copy, Debug, PartialEq, Eq, Structural)]
pub enum AnimationState {
    Idle,
    Walking,
    Jumping,
}

/// A snapshot of the input state for one tick.  `move_left` and `move_right`
/// are level-triggered (held), `jump_pressed` is edge-triggered: true only on
/// the tick the jump control goes from released to pressed.
#[derive(Clone, Copy, Debug)]
pub struct InputState {
    pub move_left: bool,
    pub move_right: bool,
    pub jump_pressed: bool,
    pub quit_requested: bool,
}

/// The mathematical state of the player.
pub ghost struct PlayerModel {
    pub x: int,
    pub y: int,
    pub vx: int,
    pub vy: int,
    pub w: int,
    pub h: int,
    pub on_ground: bool,
    pub facing_right: bool,
    pub anim: AnimationState,
    pub timer: int,
}

/// The rectangle the player occupies.
pub open spec fn player_rect(p: PlayerModel) -> Rect {
    rect_of(p.x, p.y, p.w, p.h)
}

/// Bounds under which one tick of the update cannot overflow.
pub open spec fn player_wf(p: PlayerModel) -> bool {
    &&& -POS_LIMIT <= p.x <= POS_LIMIT
    &&& -POS_LIMIT <= p.y <= POS_LIMIT
    &&& -VEL_LIMIT <= p.vx <= VEL_LIMIT
    &&& -VEL_LIMIT <= p.vy <= VEL_LIMIT
    &&& 0 <= p.w <= COORD_LIMIT
    &&& 0 <= p.h <= COORD_LIMIT
    &&& 0 <= p.timer <= TIMER_LIMIT
}

/// Every platform in the sequence is well formed.
pub open spec fn platforms_wf(plats: Seq<Rect>) -> bool {
    forall|i: int| 0 <= i < plats.len() ==> platform_wf(#[trigger] plats[i])
}

/// The rectangles of a list of platforms.
pub open spec fn platform_views(s: Seq<Platform>) -> Seq<Rect> {
    s.map_values(|p: Platform| p@)
}

/// Input resolution: a held direction sets the horizontal velocity and the
/// facing; with nothing held the horizontal velocity is zeroed.  A jump edge
/// while grounded starts an upward jump.
pub open spec fn input_applied(p: PlayerModel, inp: InputState) -> PlayerModel {
    let vx: int = if inp.move_left {
        -(PLAYER_SPEED as int)
    } else if inp.move_right {
        PLAYER_SPEED as int
    } else {
        0
    };
    let facing_right: bool = if inp.move_left {
        false
    } else if inp.move_right {
        true
    } else {
        p.facing_right
    };
    if inp.jump_pressed && p.on_ground {
        PlayerModel { vx, facing_right, vy: -(JUMP_STRENGTH as int), on_ground: false, ..p }
    } else {
        PlayerModel { vx, facing_right, ..p }
    }
}

/// Gravity accelerates the player downward while airborne; it is suspended
/// entirely while grounded.
pub open spec fn gravity_applied(p: PlayerModel, dt: int) -> PlayerModel {
    if !p.on_ground {
        PlayerModel { vy: p.vy + div_t(GRAVITY as int * dt, SCALE as int), ..p }
    } else {
        p
    }
}

/// Whether the rectangle overlaps at least one platform.
pub open spec fn overlaps_some_platform(plats: Seq<Rect>, r: Rect) -> bool {
    exists|i: int| 0 <= i < plats.len() && rect_intersects(r, #[trigger] plats[i])
}

/// Horizontal resolution: if the horizontally displaced rectangle overlaps
/// any platform, the whole horizontal move is rejected and the horizontal
/// velocity zeroed; otherwise the move is committed.
pub open spec fn horizontal_applied(p: PlayerModel, plats: Seq<Rect>, new_x: int) -> PlayerModel {
    if overlaps_some_platform(plats, rect_of(new_x, p.y, p.w, p.h)) {
        PlayerModel { vx: 0, ..p }
    } else {
        PlayerModel { x: new_x, ..p }
    }
}

/// Whether a platform blocks the vertical move: the vertically displaced
/// rectangle overlaps it, and the approach is directional — falling with the
/// pre-update top at or above the platform top, or rising with the pre-update
/// top at or below the platform bottom.
pub open spec fn vertical_hit(plat: Rect, x: int, y: int, vy: int, new_y: int, w: int, h: int) -> bool {
    &&& rect_intersects(rect_of(x, new_y, w, h), plat)
    &&& ((vy > 0 && y <= plat.y) || (vy < 0 && y >= plat.y + plat.h))
}

/// Index of the first platform at or after `i` that blocks the vertical move.
pub open spec fn first_vertical_hit_from(
    plats: Seq<Rect>,
    x: int,
    y: int,
    vy: int,
    new_y: int,
    w: int,
    h: int,
    i: int,
) -> Option<int>
    decreases plats.len() - i,
{
    if i < 0 || i >= plats.len() {
        None
    } else if vertical_hit(plats[i], x, y, vy, new_y, w, h) {
        Some(i)
    } else {
        first_vertical_hit_from(plats, x, y, vy, new_y, w, h, i + 1)
    }
}

/// Index of the first platform that blocks the vertical move, if any.
pub open spec fn first_vertical_hit(
    plats: Seq<Rect>,
    x: int,
    y: int,
    vy: int,
    new_y: int,
    w: int,
    h: int,
) -> Option<int> {
    first_vertical_hit_from(plats, x, y, vy, new_y, w, h, 0)
}

/// Vertical resolution: the grounded flag is reset, then the first blocking
/// platform decides.  Falling onto it snaps the player to its top and
/// grounds them; rising into it snaps the player to its bottom.  Either way
/// the vertical velocity is zeroed and the vertical move cancelled.  With no
/// blocking platform the vertical move is committed.
pub open spec fn vertical_applied(p: PlayerModel, plats: Seq<Rect>, new_y: int) -> PlayerModel {
    match first_vertical_hit(plats, p.x, p.y, p.vy, new_y, p.w, p.h) {
        Some(i) => {
            let plat: Rect = plats[i];
            if p.vy > 0 {
                PlayerModel { y: plat.y - p.h, vy: 0, on_ground: true, ..p }
            } else {
                PlayerModel { y: plat.y + plat.h, vy: 0, on_ground: false, ..p }
            }
        },
        None => PlayerModel { y: new_y, on_ground: false, ..p },
    }
}

/// Screen clamp: the player is kept inside `[0, sw - w]` horizontally, and
/// the horizontal velocity is zeroed on a clamp.  The two sides are checked
/// in order, left first.
pub open spec fn screen_clamped(p: PlayerModel, sw: int) -> PlayerModel {
    let q: PlayerModel = if p.x < 0 {
        PlayerModel { x: 0, vx: 0, ..p }
    } else {
        p
    };
    if q.x + q.w > sw {
        PlayerModel { x: sw - q.w, vx: 0, ..q }
    } else {
        q
    }
}

/// Fall-off-world reset: below the bottom of the screen the player is
/// teleported back to the spawn point with both velocities zeroed.
pub open spec fn fall_reset_applied(p: PlayerModel, sh: int) -> PlayerModel {
    if p.y > sh {
        PlayerModel { x: SPAWN_X as int, y: SPAWN_Y as int, vx: 0, vy: 0, ..p }
    } else {
        p
    }
}

/// Ground friction: a grounded player's horizontal velocity is multiplied by
/// 4/5 — the fixed-point form of the 0.8 per-tick decay — rounding
/// toward zero.
pub open spec fn friction_applied(p: PlayerModel) -> PlayerModel {
    if p.on_ground {
        PlayerModel { vx: div_t(p.vx * 4, 5), ..p }
    } else {
        p
    }
}

/// The animation state the player's motion calls for.
pub open spec fn anim_state_of(p: PlayerModel) -> AnimationState {
    if !p.on_ground {
        AnimationState::Jumping
    } else if p.vx > WALK_ANIMATION_THRESHOLD as int || p.vx < -(WALK_ANIMATION_THRESHOLD as int) {
        AnimationState::Walking
    } else {
        AnimationState::Idle
    }
}

/// Animation bookkeeping: the timer accumulates the time step
/// unconditionally and the state follows the resolved motion.
pub open spec fn animation_applied(p: PlayerModel, dt: int) -> PlayerModel {
    PlayerModel { timer: p.timer + dt, anim: anim_state_of(p), ..p }
}

/// One full tick of the player update, stage by stage in the fixed order.
pub open spec fn player_step(
    p: PlayerModel,
    plats: Seq<Rect>,
    inp: InputState,
    dt: int,
    sw: int,
    sh: int,
) -> PlayerModel {
    let a: PlayerModel = input_applied(p, inp);
    let b: PlayerModel = gravity_applied(a, dt);
    let new_x: int = b.x + displacement(b.vx, dt);
    let new_y: int = b.y + displacement(b.vy, dt);
    let c: PlayerModel = horizontal_applied(b, plats, new_x);
    let d: PlayerModel = vertical_applied(c, plats, new_y);
    let e: PlayerModel = screen_clamped(d, sw);
    let f: PlayerModel = fall_reset_applied(e, sh);
    let g: PlayerModel = friction_applied(f);
    animation_applied(g, dt)
}

/// A found first vertical hit is a valid index whose platform satisfies the
/// blocking condition.
pub proof fn lemma_first_vertical_hit_from_valid(
    plats: Seq<Rect>,
    x: int,
    y: int,
    vy: int,
    new_y: int,
    w: int,
    h: int,
    i: int,
)
    ensures
        match first_vertical_hit_from(plats, x, y, vy, new_y, w, h, i) {
            Some(j) => i <= j < plats.len() && vertical_hit(plats[j], x, y, vy, new_y, w, h),
            None => true,
        },
    decreases plats.len() - i,
{
    if 0 <= i < plats.len() && !vertical_hit(plats[i], x, y, vy, new_y, w, h) {
        lemma_first_vertical_hit_from_valid(plats, x, y, vy, new_y, w, h, i + 1);
    }
}

/// One tick keeps the player rectangle within the raw-test range, brings the
/// x coordinate back inside the geometry range, and preserves the player's
/// size.
pub proof fn lemma_player_step_bounds(
    p: PlayerModel,
    plats: Seq<Rect>,
    inp: InputState,
    dt: int,
    sw: int,
    sh: int,
)
    requires
        player_wf(p),
        platforms_wf(plats),
        0 <= dt <= DT_LIMIT,
        0 <= sw <= COORD_LIMIT,
        0 <= sh <= COORD_LIMIT,
    ensures
        ({
            let q = player_step(p, plats, inp, dt, sw, sh);
            &&& -COORD_LIMIT <= q.x <= COORD_LIMIT
            &&& -1_000_000_000_000_000_000 <= q.y <= 1_000_000_000_000_000_000
            &&& q.w == p.w
            &&& q.h == p.h
            &&& rect_in_arg_range(player_rect(q))
        }),
{
    let a = input_applied(p, inp);
    let b = gravity_applied(a, dt);
    lemma_div_t_bounds(GRAVITY as int * dt, SCALE as int);
    assert(-801_000_000_000 <= b.vy <= 801_000_000_000);
    assert(-200_000 <= b.vx <= 200_000);
    assert(-200_000_000_000 <= b.vx * dt <= 200_000_000_000) by (nonlinear_arith)
        requires
            -200_000 <= b.vx <= 200_000,
            0 <= dt <= 1_000_000,
    ;
    assert(-801_000_000_000_000_000 <= b.vy * dt <= 801_000_000_000_000_000)
        by (nonlinear_arith)
        requires
            -801_000_000_000 <= b.vy <= 801_000_000_000,
            0 <= dt <= 1_000_000,
    ;
    lemma_div_t_bounds(b.vx * dt, SCALE as int);
    lemma_div_t_bounds(b.vy * dt, SCALE as int);
    let new_x = b.x + displacement(b.vx, dt);
    let new_y = b.y + displacement(b.vy, dt);
    let c = horizontal_applied(b, plats, new_x);
    lemma_first_vertical_hit_from_valid(plats, c.x, c.y, c.vy, new_y, c.w, c.h, 0);
    let d = vertical_applied(c, plats, new_y);
    let e = screen_clamped(d, sw);
    assert(-COORD_LIMIT <= e.x <= COORD_LIMIT);
    let f = fall_reset_applied(e, sh);
}

/// Landing: if, on this tick, the first platform blocking the vertical move
/// is approached from above while falling, and its top is on screen, the
/// player lands exactly on that platform's top — grounded, with the vertical
/// velocity zeroed — within the very tick of first overlap.
pub proof fn lemma_falling_player_lands_on_platform_top(
    p: PlayerModel,
    plats: Seq<Rect>,
    inp: InputState,
    dt: int,
    sw: int,
    sh: int,
    i: int,
)
    requires
        ({
            let b = gravity_applied(input_applied(p, inp), dt);
            let new_x = b.x + displacement(b.vx, dt);
            let new_y = b.y + displacement(b.vy, dt);
            let c = horizontal_applied(b, plats, new_x);
            &&& b.vy > 0
            &&& 0 <= i < plats.len()
            &&& first_vertical_hit(plats, c.x, c.y, c.vy, new_y, c.w, c.h) == Some(i)
            &&& plats[i].y - p.h <= sh
        }),
    ensures
        ({
            let q = player_step(p, plats, inp, dt, sw, sh);
            &&& q.y == plats[i].y - p.h
            &&& q.on_ground
            &&& q.vy == 0
        }),
{
}

/// A wall stops horizontal motion: when the horizontally displaced rectangle
/// overlaps some platform, the whole move is rejected — the tick ends with
/// zero horizontal velocity, and, provided the player starts inside the
/// screen bounds and is not reset by falling off the world, the x coordinate
/// is exactly unchanged.
pub proof fn lemma_wall_stops_horizontal_motion(
    p: PlayerModel,
    plats: Seq<Rect>,
    inp: InputState,
    dt: int,
    sw: int,
    sh: int,
)
    requires
        ({
            let b = gravity_applied(input_applied(p, inp), dt);
            let new_x = b.x + displacement(b.vx, dt);
            overlaps_some_platform(plats, rect_of(new_x, b.y, b.w, b.h))
        }),
    ensures
        player_step(p, plats, inp, dt, sw, sh).vx == 0,
        ({
            let b = gravity_applied(input_applied(p, inp), dt);
            let new_y = b.y + displacement(b.vy, dt);
            let c = PlayerModel { vx: 0, ..b };
            let d = vertical_applied(c, plats, new_y);
            (0 <= p.x && p.x + p.w <= sw && d.y <= sh) ==> player_step(p, plats, inp, dt, sw, sh).x
                == p.x
        }),
{
    lemma_div_of0(5);
}

/// After a tick the player is horizontally inside the screen: the clamp
/// stage forces `x` into `[0, sw - w]`, and the spawn point the fall reset
/// may jump to lies inside that range whenever the screen can hold it.
pub proof fn lemma_player_stays_on_screen(
    p: PlayerModel,
    plats: Seq<Rect>,
    inp: InputState,
    dt: int,
    sw: int,
    sh: int,
)
    requires
        SPAWN_X as int + p.w <= sw,
    ensures
        ({
            let q = player_step(p, plats, inp, dt, sw, sh);
            0 <= q.x && q.x + q.w <= sw
        }),
{
}

/// The friction stage multiplies a grounded player's horizontal velocity by
/// 4/5 — the fixed-point form of the per-tick 0.8 decay — rounding toward
/// zero, and changes nothing else; an airborne player is untouched by it.
pub proof fn lemma_friction_scales_grounded_velocity(p: PlayerModel)
    ensures
        p.on_ground ==> friction_applied(p).vx == div_t(p.vx * 4, 5),
        !p.on_ground ==> friction_applied(p) == p,
        friction_applied(p) == (PlayerModel { vx: friction_applied(p).vx, ..p }),
{
}

/// With no direction held, input resolution zeroes the horizontal velocity
/// at the top of the tick, and nothing later in the tick can make it
/// non-zero again: the tick ends with zero horizontal velocity.
pub proof fn lemma_no_input_zeroes_horizontal_velocity(
    p: PlayerModel,
    plats: Seq<Rect>,
    inp: InputState,
    dt: int,
    sw: int,
    sh: int,
)
    requires
        !inp.move_left,
        !inp.move_right,
    ensures
        player_step(p, plats, inp, dt, sw, sh).vx == 0,
{
    lemma_div_of0(5);
}

/// The player state a fresh player starts from.
pub open spec fn initial_player_at(x: int, y: int) -> PlayerModel {
    PlayerModel {
        x,
        y,
        vx: 0,
        vy: 0,
        w: PLAYER_SIZE as int,
        h: PLAYER_SIZE as int,
        on_ground: false,
        facing_right: true,
        anim: AnimationState::Idle,
        timer: 0,
    }
}

/// The player character.
#[derive(Clone, Copy, Debug)]
pub struct Player {
    pub x: i64,
    pub y: i64,
    pub velocity_x: i64,
    pub velocity_y: i64,
    pub on_ground: bool,
    pub width: i64,
    pub height: i64,
    pub facing_right: bool,
    pub animation_state: AnimationState,
    pub animation_timer: i64,
}

impl View for Player {
    type V = PlayerModel;

    open spec fn view(&self) -> PlayerModel {
        PlayerModel {
            x: self.x as int,
            y: self.y as int,
            vx: self.velocity_x as int,
            vy: self.velocity_y as int,
            w: self.width as int,
            h: self.height as int,
            on_ground: self.on_ground,
            facing_right: self.facing_right,
            anim: self.animation_state,
            timer: self.animation_timer as int,
        }
    }
}

/// Whether the rectangle at `(x, y)` of size `w` by `h` overlaps any of the
/// platforms.
fn overlaps_any(platforms: &Vec<Platform>, x: i64, y: i64, w: i64, h: i64) -> (r: bool)
    requires
        platforms_wf(platform_views(platforms@)),
        -GEOM_ARG_LIMIT <= x <= GEOM_ARG_LIMIT,
        -GEOM_ARG_LIMIT <= y <= GEOM_ARG_LIMIT,
        0 <= w <= COORD_LIMIT,
        0 <= h <= COORD_LIMIT,
    ensures
        r == overlaps_some_platform(
            platform_views(platforms@),
            rect_of(x as int, y as int, w as int, h as int),
        ),
{
    let ghost plats = platform_views(platforms@);
    let ghost target = rect_of(x as int, y as int, w as int, h as int);
    let n: usize = platforms.len();
    let mut i: usize = 0;
    while i < n
        invariant
            n == platforms@.len(),
            i <= n,
            plats == platform_views(platforms@),
            target == rect_of(x as int, y as int, w as int, h as int),
            platforms_wf(plats),
            -GEOM_ARG_LIMIT <= x <= GEOM_ARG_LIMIT,
            -GEOM_ARG_LIMIT <= y <= GEOM_ARG_LIMIT,
            0 <= w <= COORD_LIMIT,
            0 <= h <= COORD_LIMIT,
            forall|k: int| 0 <= k < i ==> !rect_intersects(target, #[trigger] plats[k]),
        decreases n - i,
    {
        assert(platform_wf(plats[i as int]));
        if platforms[i].intersects(x, y, w, h) {
            assert(rect_intersects(target, plats[i as int]));
            return true;
        }
        i = i + 1;
    }
    false
}

/// Index of the first platform that blocks the vertical move from `y` to
/// `new_y` with vertical velocity `vy`, for the player rectangle of size `w`
/// by `h` whose horizontal position `x` is already resolved.
fn find_vertical_hit(
    platforms: &Vec<Platform>,
    x: i64,
    y: i64,
    vy: i64,
    new_y: i64,
    w: i64,
    h: i64,
) -> (r: Option<usize>)
    requires
        platforms_wf(platform_views(platforms@)),
        -GEOM_ARG_LIMIT <= x <= GEOM_ARG_LIMIT,
        -GEOM_ARG_LIMIT <= y <= GEOM_ARG_LIMIT,
        -GEOM_ARG_LIMIT <= new_y <= GEOM_ARG_LIMIT,
        0 <= w <= COORD_LIMIT,
        0 <= h <= COORD_LIMIT,
    ensures
        ({
            let spec_hit = first_vertical_hit(
                platform_views(platforms@),
                x as int,
                y as int,
                vy as int,
                new_y as int,
                w as int,
                h as int,
            );
            match r {
                Some(i) => i < platforms@.len() && spec_hit == Some(i as int),
                None => spec_hit is None,
            }
        }),
{
    let ghost plats = platform_views(platforms@);
    let n: usize = platforms.len();
    let mut i: usize = 0;
    while i < n
        invariant
            n == platforms@.len(),
            i <= n,
            plats == platform_views(platforms@),
            platforms_wf(plats),
            -GEOM_ARG_LIMIT <= x <= GEOM_ARG_LIMIT,
            -GEOM_ARG_LIMIT <= y <= GEOM_ARG_LIMIT,
            -GEOM_ARG_LIMIT <= new_y <= GEOM_ARG_LIMIT,
            0 <= w <= COORD_LIMIT,
            0 <= h <= COORD_LIMIT,
            first_vertical_hit(plats, x as int, y as int, vy as int, new_y as int, w as int, h as int)
                == first_vertical_hit_from(
                plats,
                x as int,
                y as int,
                vy as int,
                new_y as int,
                w as int,
                h as int,
                i as int,
            ),
        decreases n - i,
    {
        assert(platform_wf(plats[i as int]));
        let pl = platforms[i];
        let blocked = pl.intersects(x, new_y, w, h) && ((vy > 0 && y <= pl.y) || (vy < 0 && y
            >= pl.y + pl.height));
        if blocked {
            assert(vertical_hit(plats[i as int], x as int, y as int, vy as int, new_y as int,
                w as int, h as int));
            return Some(i);
        }
        assert(!vertical_hit(plats[i as int], x as int, y as int, vy as int, new_y as int, w as int,
            h as int));
        i = i + 1;
    }
    None
}

impl Player {
    /// Create a new player at the specified position.
    pub fn new(x: i64, y: i64) -> (p: Player)
        requires
            -POS_LIMIT <= x <= POS_LIMIT,
            -POS_LIMIT <= y <= POS_LIMIT,
        ensures
            p@ == initial_player_at(x as int, y as int),
            player_wf(p@),
    {
        Player {
            x,
            y,
            velocity_x: 0,
            velocity_y: 0,
            on_ground: false,
            width: PLAYER_SIZE,
            height: PLAYER_SIZE,
            facing_right: true,
            animation_state: AnimationState::Idle,
            animation_timer: 0,
        }
    }

    /// Input resolution, the first stage of the tick.
    fn handle_input(&mut self, input: &InputState)
        ensures
            final(self)@ == input_applied(old(self)@, *input),
    {
        if input.move_left {
            self.velocity_x = -PLAYER_SPEED;
            self.facing_right = false;
        } else if input.move_right {
            self.velocity_x = PLAYER_SPEED;
            self.facing_right = true;
        } else {
            self.velocity_x = 0;
        }
        if input.jump_pressed && self.on_ground {
            self.velocity_y = -JUMP_STRENGTH;
            self.on_ground = false;
        }
    }

    /// Animation state selection, the last stage of the tick.
    fn update_animation_state(&mut self)
        ensures
            final(self)@ == (PlayerModel { anim: anim_state_of(old(self)@), ..old(self)@ }),
    {
        if !self.on_ground {
            self.animation_state = AnimationState::Jumping;
        } else if self.velocity_x > WALK_ANIMATION_THRESHOLD || self.velocity_x
            < -WALK_ANIMATION_THRESHOLD {
            self.animation_state = AnimationState::Walking;
        } else {
            self.animation_state = AnimationState::Idle;
        }
    }

    /// One tick of player physics: exactly `player_step` on the model.
    #[verifier::rlimit(50)]
    pub fn update(
        &mut self,
        platforms: &Vec<Platform>,
        delta_time: i64,
        input: &InputState,
        screen_width: i64,
        screen_height: i64,
    )
        requires
            player_wf(old(self)@),
            platforms_wf(platform_views(platforms@)),
            0 <= delta_time <= DT_LIMIT,
            0 <= screen_width <= COORD_LIMIT,
            0 <= screen_height <= COORD_LIMIT,
        ensures
            final(self)@ == player_step(
                old(self)@,
                platform_views(platforms@),
                *input,
                delta_time as int,
                screen_width as int,
                screen_height as int,
            ),
    {
        let ghost plats = platform_views(platforms@);
        let ghost p0 = self@;
        let ghost dt = delta_time as int;

        self.handle_input(input);
        let ghost p1 = input_applied(p0, *input);

        proof {
            lemma_div_multiples_vanish(800 * dt, 1000);
            assert(div_t(GRAVITY as int * dt, SCALE as int) == 800 * dt);
        }
        if !self.on_ground {
            self.velocity_y = self.velocity_y + div_trunc(GRAVITY * delta_time, SCALE);
        }
        let ghost p2 = gravity_applied(p1, dt);
        assert(self@ == p2);
        assert(-2_000_000_000 <= self.velocity_y <= 2_000_000_000);

        let dx: i64 = displacement_exec(self.velocity_x, delta_time);
        let new_x: i64 = self.x + dx;
        let dy: i64 = displacement_exec(self.velocity_y, delta_time);
        let new_y: i64 = self.y + dy;
        assert(new_x as int == p2.x + displacement(p2.vx, dt));
        assert(new_y as int == p2.y + displacement(p2.vy, dt));

        if overlaps_any(platforms, new_x, self.y, self.width, self.height) {
            self.velocity_x = 0;
        } else {
            self.x = new_x;
        }
        let ghost p3 = horizontal_applied(p2, plats, p2.x + displacement(p2.vx, dt));
        assert(self@ == p3);

        self.on_ground = false;
        let hit = find_vertical_hit(
            platforms,
            self.x,
            self.y,
            self.velocity_y,
            new_y,
            self.width,
            self.height,
        );
        match hit {
            Some(i) => {
                let pl = platforms[i];
                if self.velocity_y > 0 {
                    self.y = pl.y - self.height;
                    self.velocity_y = 0;
                    self.on_ground = true;
                } else {
                    self.y = pl.y + pl.height;
                    self.velocity_y = 0;
                }
            },
            None => {
                self.y = new_y;
            },
        }
        let ghost p4 = vertical_applied(p3, plats, p2.y + displacement(p2.vy, dt));
        assert(self@ == p4);

        if self.x < 0 {
            self.x = 0;
            self.velocity_x = 0;
        }
        if self.x + self.width > screen_width {
            self.x = screen_width - self.width;
            self.velocity_x = 0;
        }
        let ghost p5 = screen_clamped(p4, screen_width as int);
        assert(self@ == p5);

        if self.y > screen_height {
            self.x = SPAWN_X;
            self.y = SPAWN_Y;
            self.velocity_x = 0;
            self.velocity_y = 0;
        }
        let ghost p6 = fall_reset_applied(p5, screen_height as int);
        assert(self@ == p6);

        if self.on_ground {
            assert(-PLAYER_SPEED <= self.velocity_x <= PLAYER_SPEED);
            self.velocity_x = div_trunc(self.velocity_x * 4, 5);
        }
        let ghost p7 = friction_applied(p6);
        assert(self@ == p7);

        self.animation_timer = self.animation_timer + delta_time;
        self.update_animation_state();
        assert(self@ == animation_applied(p7, dt));
    }

    /// Whether the player overlaps the rectangle at `(x, y)` of size `width`
    /// by `height` — used for goal detection.
    pub fn intersects(&self, x: i64, y: i64, width: i64, height: i64) -> (r: bool)
        requires
            rect_in_arg_range(player_rect(self@)),
            rect_in_arg_range(rect_of(x as int, y as int, width as int, height as int)),
        ensures
            r == rect_intersects(
                player_rect(self@),
                rect_of(x as int, y as int, width as int, height as int),
            ),
    {
        self.x < x + width && self.x + self.width > x && self.y < y + height && self.y + self.height
            > y
    }
}

} // verus!
