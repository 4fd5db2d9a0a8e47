//! The game state machine: one ball, one paddle, a sequence of levels, a
//! lives counter, and the per-frame update that ties them together.

use vstd::prelude::*;

use crate::arith::{
    clamp_i64, clamp_spec, half_of, iabs, lemma_abs_le_sqrt_bracket, tdiv, tdiv_i128, DIM_LIMIT,
    DT_LIMIT, POS_LIMIT, UNIT,
};
use crate::ball_object::BallObject;
use crate::bounce::paddle_bounce_spec;
use crate::collision::{
    check_collision, collides, delta_x, delta_y, vector_direction_spec, Direction,
};
use crate::game_level::{GameLevel, LevelError};
use crate::game_object::{vec2, Color, DrawCommand, GameObject, Vec2};

verus! {

/// Radius of the ball, in milli-pixels (12.5 pixels).
pub const BALL_RADIUS: i64 = 12_500;

/// Size of the paddle, in milli-pixels (100 by 20 pixels).
pub const PLAYER_SIZE_X: i64 = 100_000;

pub const PLAYER_SIZE_Y: i64 = 20_000;

/// The fixed launch velocity of the ball, in milli-pixels per second
/// (100 to the right, 350 upward).
pub const INITIAL_BALL_VELOCITY_X: i64 = 100_000;

pub const INITIAL_BALL_VELOCITY_Y: i64 = -350_000;

/// Horizontal paddle speed, in milli-pixels per second (500 pixels per
/// second).
pub const PLAYER_VELOCITY: i64 = 500_000;

/// Speed multiplier applied to key-driven paddle movement.
pub const PLAYER_SPEED_FACTOR: i64 = 4;

/// Coarse mode of the game.
#[derive(Clone, Copy, PartialEq, Eq, Structural, Debug)]
pub enum GameState {
    Active,
    Menu,
    Win,
}

/// Which way an input event moves the paddle.
#[derive(Clone, Copy, PartialEq, Eq, Structural, Debug)]
pub enum PaddleMove {
    Left,
    Right,
}

/// Handles into the rendering layer's texture table, one per kind of
/// drawable.  The engine stores and hands out only these indices; what they
/// resolve to is the renderer's business.
#[derive(Clone, Copy, PartialEq, Eq, Structural, Debug)]
pub struct TextureSet {
    pub background: usize,
    pub block: usize,
    pub block_solid: usize,
    pub paddle: usize,
    pub ball: usize,
}

/// The whole game state.  All entities are owned here and change only
/// through [`Game::update`] and the input-driven entry points.
#[derive(Debug)]
pub struct Game {
    pub state: GameState,
    /// Level region size in milli-pixels.
    pub width: i64,
    pub height: i64,
    pub levels: Vec<GameLevel>,
    pub current_level: usize,
    pub player: GameObject,
    pub ball: BallObject,
    pub lives: u32,
    pub textures: TextureSet,
}

/// The paddle in its starting state: centered at the bottom of the level.
pub open spec fn player_start(width: int, height: int, sprite: usize) -> GameObject {
    GameObject {
        position: vec2(width / 2 - PLAYER_SIZE_X / 2, height - PLAYER_SIZE_Y),
        size: Vec2 { x: PLAYER_SIZE_X, y: PLAYER_SIZE_Y },
        velocity: Vec2 { x: 0, y: 0 },
        sprite,
        color: Color { r: 1000, g: 1000, b: 1000 },
        is_solid: false,
        destroyed: false,
    }
}

/// The ball in its starting state: resting on the centered paddle, offset
/// so the circle touches the paddle's top center, with the launch velocity
/// already stored.
pub open spec fn ball_start(width: int, height: int, sprite: usize) -> BallObject {
    BallObject {
        game_obj: GameObject {
            position: vec2(width / 2 - BALL_RADIUS, height - PLAYER_SIZE_Y - 2 * BALL_RADIUS),
            size: vec2(2 * BALL_RADIUS, 2 * BALL_RADIUS),
            velocity: Vec2 { x: INITIAL_BALL_VELOCITY_X, y: INITIAL_BALL_VELOCITY_Y },
            sprite,
            color: Color { r: 1000, g: 1000, b: 1000 },
            is_solid: false,
            destroyed: false,
        },
        radius: BALL_RADIUS,
        stuck: true,
    }
}

/// How one brick resolution changes the ball.  A destroyed brick is
/// skipped.  On a hit, the struck face decides the axis: a Left/Right hit
/// negates the horizontal velocity and pushes the ball out horizontally by
/// the penetration depth `radius - |delta|`, away from the struck side; an
/// Up/Down hit does the same vertically.  Solid and breakable bricks
/// deflect the ball alike.
pub open spec fn brick_bounced_ball(ball: BallObject, brick: GameObject) -> BallObject {
    if !brick.destroyed && collides(ball, brick) {
        let dx = delta_x(ball, brick);
        let dy = delta_y(ball, brick);
        let dir = vector_direction_spec(dx, dy);
        if dir == Direction::Left || dir == Direction::Right {
            let pen = ball.radius - iabs(dx);
            BallObject {
                game_obj: GameObject {
                    position: vec2(
                        if dir == Direction::Left {
                            ball.game_obj.position.x + pen
                        } else {
                            ball.game_obj.position.x - pen
                        },
                        ball.game_obj.position.y as int,
                    ),
                    velocity: vec2(
                        -ball.game_obj.velocity.x,
                        ball.game_obj.velocity.y as int,
                    ),
                    ..ball.game_obj
                },
                ..ball
            }
        } else {
            let pen = ball.radius - iabs(dy);
            BallObject {
                game_obj: GameObject {
                    position: vec2(
                        ball.game_obj.position.x as int,
                        if dir == Direction::Up {
                            ball.game_obj.position.y - pen
                        } else {
                            ball.game_obj.position.y + pen
                        },
                    ),
                    velocity: vec2(
                        ball.game_obj.velocity.x as int,
                        -ball.game_obj.velocity.y,
                    ),
                    ..ball.game_obj
                },
                ..ball
            }
        }
    } else {
        ball
    }
}

/// How the resolution changes the brick: a breakable brick that is hit is
/// destroyed; solid and destroyed bricks are untouched.
pub open spec fn brick_after_hit(ball: BallObject, brick: GameObject) -> GameObject {
    if !brick.destroyed && collides(ball, brick) && !brick.is_solid {
        GameObject { destroyed: true, ..brick }
    } else {
        brick
    }
}

/// The ball after resolving bricks `0 .. n` in storage order, each applied
/// to the ball as the previous ones left it (no re-test after a
/// resolution within the same frame).
pub open spec fn ball_after_bricks(ball: BallObject, bricks: Seq<GameObject>, n: int) -> BallObject
    decreases n,
{
    if n <= 0 {
        ball
    } else {
        brick_bounced_ball(ball_after_bricks(ball, bricks, n - 1), bricks[n - 1])
    }
}

/// Brick `i` after the frame's brick sweep: it meets the ball as bricks
/// `0 .. i` left it.
pub open spec fn brick_after_bricks(ball: BallObject, bricks: Seq<GameObject>, i: int) -> GameObject {
    brick_after_hit(ball_after_bricks(ball, bricks, i), bricks[i])
}

/// The ball after the paddle test: only a moving (not stuck) ball that
/// overlaps the paddle is deflected, by the speed-preserving paddle bounce.
pub open spec fn ball_after_paddle(ball: BallObject, player: GameObject) -> BallObject {
    if !ball.stuck && collides(ball, player) {
        let half = player.size.x as int / 2;
        let distance = ball.game_obj.position.x + ball.radius - (player.position.x + half);
        BallObject {
            game_obj: GameObject {
                velocity: paddle_bounce_spec(ball.game_obj.velocity, distance, half),
                ..ball.game_obj
            },
            ..ball
        }
    } else {
        ball
    }
}

/// Destroying is idempotent in effect: a brick that is already destroyed
/// is skipped, so resolving it alters neither the ball's position or
/// velocity nor the brick.
pub proof fn lemma_destroyed_brick_inert(ball: BallObject, brick: GameObject)
    requires
        brick.destroyed,
    ensures
        brick_bounced_ball(ball, brick) == ball,
        brick_after_hit(ball, brick) == brick,
{
}

/// A brick once destroyed stays destroyed through a frame's sweep; only a
/// full level reload, which rebuilds the bricks wholesale, restores it.
pub proof fn lemma_destroyed_is_monotonic(ball: BallObject, bricks: Seq<GameObject>, i: int)
    requires
        0 <= i < bricks.len(),
        bricks[i].destroyed,
    ensures
        brick_after_bricks(ball, bricks, i).destroyed,
{
}

/// Resolve the ball against one brick: test, deflect the ball, and report
/// whether the brick must be destroyed.
fn resolve_brick_hit(ball: &mut BallObject, brick: &GameObject) -> (destroy: bool)
    requires
        old(ball).wf(),
        -POS_LIMIT <= old(ball).game_obj.position.x <= POS_LIMIT,
        -POS_LIMIT <= old(ball).game_obj.position.y <= POS_LIMIT,
        brick.brick_wf(),
    ensures
        *final(ball) == brick_bounced_ball(*old(ball), *brick),
        destroy == (!brick.destroyed && collides(*old(ball), *brick) && !brick.is_solid),
        final(ball).wf(),
        -POS_LIMIT <= final(ball).game_obj.position.x <= POS_LIMIT,
        -POS_LIMIT <= final(ball).game_obj.position.y <= POS_LIMIT,
        final(ball).stuck == old(ball).stuck,
        final(ball).radius == old(ball).radius,
        final(ball).game_obj.size == old(ball).game_obj.size,
        final(ball).game_obj.sprite == old(ball).game_obj.sprite,
        final(ball).game_obj.velocity.norm2() == old(ball).game_obj.velocity.norm2(),
        brick.destroyed ==> *final(ball) == *old(ball),
{
    if brick.destroyed {
        return false;
    }
    let b = *ball;
    let c = check_collision(&b, brick);
    if !c.hit {
        return false;
    }
    let dx = c.diff.x;
    let dy = c.diff.y;
    let r = ball.radius;
    proof {
        assert(dy * dy >= 0 && dx * dx >= 0) by (nonlinear_arith);
        assert(dx * dx < r * r && dy * dy < r * r);
        assert((r as int) * (r as int) == (((r as int) - 1) + 1) * (((r as int) - 1) + 1));
        lemma_abs_le_sqrt_bracket(dx as int, r as int - 1);
        lemma_abs_le_sqrt_bracket(dy as int, r as int - 1);
        assert(-4 * DIM_LIMIT <= old(ball).game_obj.position.x <= 4 * DIM_LIMIT);
        assert(-4 * DIM_LIMIT <= old(ball).game_obj.position.y <= 4 * DIM_LIMIT);
    }
    let vx = ball.game_obj.velocity.x;
    let vy = ball.game_obj.velocity.y;
    if c.direction == Direction::Left || c.direction == Direction::Right {
        let pen = r - (if dx < 0 { -dx } else { dx });
        ball.game_obj.velocity = Vec2 { x: -vx, y: vy };
        if c.direction == Direction::Left {
            ball.game_obj.position = Vec2 {
                x: ball.game_obj.position.x + pen,
                y: ball.game_obj.position.y,
            };
        } else {
            ball.game_obj.position = Vec2 {
                x: ball.game_obj.position.x - pen,
                y: ball.game_obj.position.y,
            };
        }
    } else {
        let pen = r - (if dy < 0 { -dy } else { dy });
        ball.game_obj.velocity = Vec2 { x: vx, y: -vy };
        if c.direction == Direction::Up {
            ball.game_obj.position = Vec2 {
                x: ball.game_obj.position.x,
                y: ball.game_obj.position.y - pen,
            };
        } else {
            ball.game_obj.position = Vec2 {
                x: ball.game_obj.position.x,
                y: ball.game_obj.position.y + pen,
            };
        }
    }
    proof {
        assert(ball.game_obj.velocity.norm2() == vx * vx + vy * vy) by (nonlinear_arith)
            requires
                ball.game_obj.velocity.x == vx || ball.game_obj.velocity.x == -vx,
                ball.game_obj.velocity.y == vy || ball.game_obj.velocity.y == -vy,
        ;
    }
    !brick.is_solid
}

/// The paddle after a life-loss reset: back to its centered start size,
/// position and tint; sprite, velocity and flags kept.
pub open spec fn player_after_reset(g: Game) -> GameObject {
    GameObject {
        position: vec2(g.width as int / 2 - PLAYER_SIZE_X / 2, g.height - PLAYER_SIZE_Y),
        size: Vec2 { x: PLAYER_SIZE_X, y: PLAYER_SIZE_Y },
        color: Color { r: 1000, g: 1000, b: 1000 },
        ..g.player
    }
}

/// The ball after a life-loss reset: stuck again, resting on the reset
/// paddle's top center, the launch velocity stored, tinted white.
pub open spec fn ball_after_reset(g: Game) -> BallObject {
    BallObject {
        game_obj: GameObject {
            position: vec2(
                g.width as int / 2 - BALL_RADIUS,
                g.height - PLAYER_SIZE_Y - 2 * BALL_RADIUS,
            ),
            velocity: Vec2 { x: INITIAL_BALL_VELOCITY_X, y: INITIAL_BALL_VELOCITY_Y },
            color: Color { r: 1000, g: 1000, b: 1000 },
            ..g.ball.game_obj
        },
        stuck: true,
        ..g.ball
    }
}

impl Game {
    /// Bounds on the entities that hold even in the middle of a frame: the
    /// level region is wide enough for the paddle, the paddle sits inside a
    /// small margin around the region, and the ball's position and speed
    /// are bounded.
    pub open spec fn entities_frame_wf(self) -> bool {
        &&& PLAYER_SIZE_X <= self.width <= DIM_LIMIT
        &&& 2 <= self.height <= DIM_LIMIT
        &&& self.player.wf()
        &&& 2 <= self.player.size.x <= self.width
        &&& -2 * DIM_LIMIT <= self.player.position.x <= 2 * DIM_LIMIT
        &&& -2 * DIM_LIMIT <= self.player.position.y <= 2 * DIM_LIMIT
        &&& self.ball.wf()
        &&& -POS_LIMIT <= self.ball.game_obj.position.x <= POS_LIMIT
        &&& -POS_LIMIT <= self.ball.game_obj.position.y <= POS_LIMIT
        &&& 1 <= self.lives <= 3
    }

    /// Between frames the ball additionally sits above the loss line (the
    /// per-frame update resets it the moment it falls past the bottom).
    pub open spec fn entities_wf(self) -> bool {
        &&& self.entities_frame_wf()
        &&& self.ball.game_obj.position.y <= self.height - 1
    }

    /// At least one level, the active index valid, every brick inside the
    /// level region.
    pub open spec fn levels_wf(self) -> bool {
        &&& self.levels@.len() >= 1
        &&& self.current_level < self.levels@.len()
        &&& forall|k: int| 0 <= k < self.levels@.len() ==> (#[trigger] self.levels@[k]).wf()
    }

    /// What holds in the middle of a frame, after motion but before the
    /// loss check.
    pub open spec fn frame_wf(self) -> bool {
        &&& self.entities_frame_wf()
        &&& self.levels_wf()
    }

    /// Full well-formedness between frames.
    pub open spec fn wf(self) -> bool {
        &&& self.entities_wf()
        &&& self.levels_wf()
    }

    /// A fresh game: mode Active, three lives, no levels yet, paddle and
    /// ball in their starting states.
    pub fn new(width: i64, height: i64, textures: TextureSet) -> (g: Game)
        requires
            PLAYER_SIZE_X <= width <= DIM_LIMIT,
            2 <= height <= DIM_LIMIT,
        ensures
            g.state == GameState::Active,
            g.width == width,
            g.height == height,
            g.levels@ =~= Seq::<GameLevel>::empty(),
            g.current_level == 0,
            g.player == player_start(width as int, height as int, textures.paddle),
            g.ball == ball_start(width as int, height as int, textures.ball),
            g.lives == 3,
            g.textures == textures,
            g.entities_wf(),
    {
        let half_w = half_of(width);
        let player = GameObject::new(
            Vec2 { x: half_w - 50_000, y: height - PLAYER_SIZE_Y },
            Vec2 { x: PLAYER_SIZE_X, y: PLAYER_SIZE_Y },
            Vec2 { x: 0, y: 0 },
            textures.paddle,
            Color { r: 1000, g: 1000, b: 1000 },
        );
        let ball = BallObject {
            game_obj: GameObject::new(
                Vec2 { x: half_w - BALL_RADIUS, y: height - PLAYER_SIZE_Y - 2 * BALL_RADIUS },
                Vec2 { x: 2 * BALL_RADIUS, y: 2 * BALL_RADIUS },
                Vec2 { x: INITIAL_BALL_VELOCITY_X, y: INITIAL_BALL_VELOCITY_Y },
                textures.ball,
                Color { r: 1000, g: 1000, b: 1000 },
            ),
            radius: BALL_RADIUS,
            stuck: true,
        };
        Game {
            state: GameState::Active,
            width,
            height,
            levels: Vec::new(),
            current_level: 0,
            player,
            ball,
            lives: 3,
            textures,
        }
    }

    /// Build a level from a tile grid (over the top half of the region, as
    /// the classic layout has it) and append it to the level sequence.
    pub fn add_level(&mut self, tile_data: &Vec<Vec<u32>>) -> (res: Result<(), LevelError>)
        requires
            old(self).entities_wf(),
        ensures
            final(self).entities_wf(),
            res is Ok ==> {
                &&& final(self).levels@.len() == old(self).levels@.len() + 1
                &&& final(self).levels@.subrange(0, old(self).levels@.len() as int) == old(self).levels@
                &&& final(self).levels@.last().wf()
                &&& final(self).levels@.last().bricks@ == crate::game_level::grid_bricks(
                    crate::game_level::grid_view(*tile_data),
                    old(self).width as int / crate::game_level::grid_view(*tile_data)[0].len() as int,
                    (old(self).height as int / 2) / crate::game_level::grid_view(*tile_data).len() as int,
                    old(self).textures.block_solid,
                    old(self).textures.block,
                    crate::game_level::grid_view(*tile_data).len() as int,
                )
                &&& final(self).levels@.last().initial_bricks@ == final(self).levels@.last().bricks@
            },
            res is Err ==> *final(self) == *old(self),
            ({
                let g = crate::game_level::grid_view(*tile_data);
                let uw = old(self).width as int / g[0].len() as int;
                let uh = (old(self).height as int / 2) / g.len() as int;
                match res {
                    Ok(()) => crate::game_level::grid_ok(g) && uw >= 1 && uh >= 1,
                    Err(LevelError::EmptyGrid) => g.len() == 0 || g[0].len() == 0,
                    Err(LevelError::RaggedRows) => g.len() > 0 && g[0].len() > 0
                        && !crate::game_level::grid_ok(g),
                    Err(LevelError::DegenerateTile) => crate::game_level::grid_ok(g) && (uw == 0
                        || uh == 0),
                }
            }),
            final(self).state == old(self).state
                && final(self).width == old(self).width
                && final(self).height == old(self).height
                && final(self).current_level == old(self).current_level
                && final(self).player == old(self).player
                && final(self).ball == old(self).ball
                && final(self).lives == old(self).lives
                && final(self).textures == old(self).textures,
    {
        let mut level = GameLevel::new();
        let half_h = half_of(self.height);
        let res = level.load(
            tile_data,
            self.width,
            half_h,
            self.textures.block_solid,
            self.textures.block,
        );
        match res {
            Ok(()) => {
                self.levels.push(level);
                Ok(())
            },
            Err(e) => Err(e),
        }
    }

    /// Release the ball from the paddle; from the next frame on it moves by
    /// its stored velocity.
    pub fn launch_ball(&mut self)
        ensures
            *final(self) == (Game {
                ball: BallObject { stuck: false, ..old(self).ball },
                ..*old(self)
            }),
    {
        self.ball.stuck = false;
    }

    /// Switch the active level forward (wrapping past the end) or backward
    /// (wrapping below zero).  Does not touch lives or bricks.
    pub fn cycle_level(&mut self, forward: bool)
        requires
            old(self).levels@.len() >= 1,
            old(self).current_level < old(self).levels@.len(),
        ensures
            *final(self) == (Game {
                current_level: final(self).current_level,
                ..*old(self)
            }),
            forward ==> final(self).current_level == (old(self).current_level + 1) % old(self).levels@.len() as int,
            !forward && old(self).current_level > 0 ==> final(self).current_level == old(self).current_level - 1,
            !forward && old(self).current_level == 0 ==> final(self).current_level == old(self).levels@.len() - 1,
            final(self).current_level < final(self).levels@.len(),
    {
        let len = self.levels.len();
        if forward {
            self.current_level = (self.current_level + 1) % len;
        } else if self.current_level > 0 {
            self.current_level = self.current_level - 1;
        } else {
            self.current_level = self.levels.len() - 1;
        }
    }

    /// Move the paddle horizontally by `velocity * dt` (times the speed
    /// factor), clamped so that it never leaves the level region.
    pub fn move_paddle(&mut self, direction: PaddleMove, dt: i64)
        requires
            old(self).entities_wf(),
            0 <= dt <= DT_LIMIT,
        ensures
            ({
                let delta = tdiv(PLAYER_VELOCITY * PLAYER_SPEED_FACTOR * dt, UNIT as int);
                let target = if direction == PaddleMove::Left {
                    old(self).player.position.x - delta
                } else {
                    old(self).player.position.x + delta
                };
                *final(self) == (Game {
                    player: GameObject {
                        position: vec2(
                            clamp_spec(target, 0, old(self).width - old(self).player.size.x),
                            old(self).player.position.y as int,
                        ),
                        ..old(self).player
                    },
                    ..*old(self)
                })
            }),
            final(self).entities_wf(),
            old(self).wf() ==> final(self).wf(),
    {
        proof {
            assert(PLAYER_VELOCITY * PLAYER_SPEED_FACTOR == 2_000_000) by (nonlinear_arith);
            assert(0 <= 2_000_000 * (dt as int) <= 7_200_000_000_000) by (nonlinear_arith)
                requires
                    0 <= dt <= 3_600_000,
            ;
        }
        let delta = tdiv_i128(2_000_000i128 * (dt as i128), UNIT as i128) as i64;
        let target = if direction == PaddleMove::Left {
            self.player.position.x - delta
        } else {
            self.player.position.x + delta
        };
        let clamped = clamp_i64(target, 0, self.width - self.player.size.x);
        self.player.position = Vec2 { x: clamped, y: self.player.position.y };
    }

    /// Put the paddle back to its centered start and the ball back onto it
    /// (stuck, launch velocity stored, both tinted white again).
    pub fn reset_player(&mut self)
        requires
            old(self).entities_frame_wf(),
        ensures
            *final(self) == (Game {
                player: player_after_reset(*old(self)),
                ball: ball_after_reset(*old(self)),
                ..*old(self)
            }),
            final(self).entities_wf(),
            old(self).frame_wf() ==> final(self).wf(),
    {
        let half_w = half_of(self.width);
        let px = half_w - 50_000;
        let py = self.height - PLAYER_SIZE_Y;
        self.player.position = Vec2 { x: px, y: py };
        self.player.size = Vec2 { x: PLAYER_SIZE_X, y: PLAYER_SIZE_Y };
        self.player.color = Color { r: 1000, g: 1000, b: 1000 };
        proof {
            assert((100_000 as int) * (100_000 as int) == 10_000_000_000) by (nonlinear_arith);
            assert(((-350_000) as int) * ((-350_000) as int) == 122_500_000_000) by (
            nonlinear_arith);
        }
        self.ball.reset(
            Vec2 { x: px + 50_000 - BALL_RADIUS, y: py - 2 * BALL_RADIUS },
            Vec2 { x: INITIAL_BALL_VELOCITY_X, y: INITIAL_BALL_VELOCITY_Y },
        );
        self.ball.game_obj.color = Color { r: 1000, g: 1000, b: 1000 };
    }

    /// One frame's collision sweep: every live brick of the active level in
    /// storage order (each hit applied independently, with no re-test
    /// within the frame), then the paddle.
    fn do_collisions(&mut self)
        requires
            old(self).frame_wf(),
        ensures
            ({
                let cl = old(self).current_level as int;
                let bricks0 = old(self).levels@[cl].bricks@;
                let mid = ball_after_bricks(old(self).ball, bricks0, bricks0.len() as int);
                &&& final(self).ball == ball_after_paddle(mid, old(self).player)
                &&& final(self).levels@.len() == old(self).levels@.len()
                &&& final(self).levels@[cl].bricks@.len() == bricks0.len()
                &&& forall|j: int|
                    0 <= j < bricks0.len() ==> final(self).levels@[cl].bricks@[j]
                        == brick_after_bricks(old(self).ball, bricks0, j)
                &&& final(self).levels@[cl].initial_bricks@ == old(
                    self,
                ).levels@[cl].initial_bricks@
                &&& forall|k: int|
                    0 <= k < old(self).levels@.len() && k != cl ==> final(self).levels@[k] == old(
                        self,
                    ).levels@[k]
            }),
            final(self).frame_wf(),
            final(self).ball.stuck == old(self).ball.stuck,
            final(self).ball.radius == old(self).ball.radius,
            final(self).ball.game_obj.size == old(self).ball.game_obj.size,
            final(self).ball.game_obj.sprite == old(self).ball.game_obj.sprite,
            final(self).ball.game_obj.color == old(self).ball.game_obj.color,
            final(self).ball.game_obj.is_solid == old(self).ball.game_obj.is_solid,
            final(self).ball.game_obj.destroyed == old(self).ball.game_obj.destroyed,
            final(self).state == old(self).state,
            final(self).width == old(self).width,
            final(self).height == old(self).height,
            final(self).current_level == old(self).current_level,
            final(self).player == old(self).player,
            final(self).lives == old(self).lives,
            final(self).textures == old(self).textures,
    {
        let ghost ball0 = old(self).ball;
        let cl = self.current_level;
        let ghost bricks0 = self.levels@[cl as int].bricks@;
        let n = self.levels[cl].bricks.len();
        let mut i: usize = 0;
        while i < n
            invariant
                0 <= i <= n,
                cl == old(self).current_level,
                (cl as int) < old(self).levels@.len(),
                bricks0 == old(self).levels@[cl as int].bricks@,
                n == bricks0.len(),
                ball0 == old(self).ball,
                old(self).frame_wf(),
                self.ball.wf(),
                -POS_LIMIT <= self.ball.game_obj.position.x <= POS_LIMIT,
                -POS_LIMIT <= self.ball.game_obj.position.y <= POS_LIMIT,
                self.ball == ball_after_bricks(ball0, bricks0, i as int),
                self.ball.stuck == ball0.stuck,
                self.ball.radius == ball0.radius,
                self.ball.game_obj.size == ball0.game_obj.size,
                self.ball.game_obj.sprite == ball0.game_obj.sprite,
                self.ball.game_obj.color == ball0.game_obj.color,
                self.ball.game_obj.is_solid == ball0.game_obj.is_solid,
                self.ball.game_obj.destroyed == ball0.game_obj.destroyed,
                self.levels@.len() == old(self).levels@.len(),
                self.levels@[cl as int].wf(),
                self.levels@[cl as int].bricks@.len() == n,
                forall|j: int|
                    0 <= j < i ==> self.levels@[cl as int].bricks@[j] == brick_after_bricks(
                        ball0,
                        bricks0,
                        j,
                    ),
                forall|j: int| i <= j < n ==> self.levels@[cl as int].bricks@[j] == bricks0[j],
                self.levels@[cl as int].initial_bricks@ == old(
                    self,
                ).levels@[cl as int].initial_bricks@,
                forall|k: int|
                    0 <= k < old(self).levels@.len() && k != cl ==> self.levels@[k] == old(
                        self,
                    ).levels@[k],
                self.state == old(self).state,
                self.width == old(self).width,
                self.height == old(self).height,
                self.current_level == old(self).current_level,
                self.player == old(self).player,
                self.lives == old(self).lives,
                self.textures == old(self).textures,
            decreases n - i,
        {
            let brick = self.levels[cl].bricks[i];
            proof {
                assert(brick == bricks0[i as int]);
                assert(old(self).levels@[cl as int].wf());
                assert(brick.brick_wf());
            }
            let destroy = resolve_brick_hit(&mut self.ball, &brick);
            proof {
                assert(ball_after_bricks(ball0, bricks0, i + 1) == brick_bounced_ball(
                    ball_after_bricks(ball0, bricks0, i as int),
                    bricks0[i as int],
                ));
            }
            if destroy {
                let level = &mut self.levels[cl];
                level.bricks[i] = GameObject { destroyed: true, ..brick };
            }
            proof {
                assert(self.levels@[cl as int].bricks@[i as int] == brick_after_bricks(
                    ball0,
                    bricks0,
                    i as int,
                ));
            }
            i = i + 1;
        }
        if !self.ball.stuck {
            let b = self.ball;
            let c = check_collision(&b, &self.player);
            if c.hit {
                let half = half_of(self.player.size.x);
                let distance = (b.game_obj.position.x + b.radius) - (self.player.position.x
                    + half);
                proof {
                    let dx = delta_x(b, self.player);
                    let dy = delta_y(b, self.player);
                    assert(dx * dx >= 0 && dy * dy >= 0) by (nonlinear_arith);
                    assert(dx * dx < b.radius * b.radius);
                    lemma_abs_le_sqrt_bracket(dx, b.radius as int - 1);
                }
                let v = crate::bounce::paddle_bounce(b.game_obj.velocity, distance, half);
                self.ball.game_obj.velocity = v;
            }
        }
    }

    /// One simulation frame.  The ball moves and bounces off the walls,
    /// then off the bricks of the active level and the paddle; if it has
    /// fallen past the bottom edge a life is lost: the paddle and ball are
    /// reset, and when no life remains the whole level is rebuilt, the
    /// lives restored and the mode set back to Active.
    pub fn update(&mut self, dt: i64)
        requires
            old(self).wf(),
            0 <= dt <= DT_LIMIT,
        ensures
            final(self).wf(),
            ({
                let g0 = *old(self);
                let cl = g0.current_level as int;
                let bricks0 = g0.levels@[cl].bricks@;
                let moved = g0.ball.moved(dt as int, g0.width as int);
                let mid = ball_after_paddle(
                    ball_after_bricks(moved, bricks0, bricks0.len() as int),
                    g0.player,
                );
                let lost = mid.game_obj.position.y >= g0.height;
                &&& final(self).width == g0.width
                &&& final(self).height == g0.height
                &&& final(self).current_level == g0.current_level
                &&& final(self).textures == g0.textures
                &&& final(self).levels@.len() == g0.levels@.len()
                &&& forall|k: int|
                    0 <= k < g0.levels@.len() && k != cl ==> final(self).levels@[k]
                        == g0.levels@[k]
                &&& final(self).levels@[cl].initial_bricks@ == g0.levels@[cl].initial_bricks@
                &&& !lost ==> {
                    &&& final(self).ball == mid
                    &&& final(self).player == g0.player
                    &&& final(self).lives == g0.lives
                    &&& final(self).state == g0.state
                    &&& final(self).levels@[cl].bricks@.len() == bricks0.len()
                    &&& forall|j: int|
                        0 <= j < bricks0.len() ==> final(self).levels@[cl].bricks@[j]
                            == brick_after_bricks(moved, bricks0, j)
                }
                &&& lost ==> {
                    &&& final(self).player == player_after_reset(g0)
                    &&& final(self).ball == ball_after_reset(g0)
                    &&& (g0.lives == 1 ==> {
                        &&& final(self).lives == 3
                        &&& final(self).state == GameState::Active
                        &&& final(self).levels@[cl].bricks@ == g0.levels@[cl].initial_bricks@
                    })
                    &&& (g0.lives > 1 ==> {
                        &&& final(self).lives == g0.lives - 1
                        &&& final(self).state == g0.state
                        &&& final(self).levels@[cl].bricks@.len() == bricks0.len()
                        &&& forall|j: int|
                            0 <= j < bricks0.len() ==> final(self).levels@[cl].bricks@[j]
                                == brick_after_bricks(moved, bricks0, j)
                    })
                }
            }),
    {
        let width = self.width;
        self.ball.move_ball(dt, width);
        self.do_collisions();
        if self.ball.game_obj.position.y >= self.height {
            self.lives = self.lives - 1;
            if self.lives == 0 {
                self.reset_level();
                self.state = GameState::Active;
            }
            self.reset_player();
        }
    }

    /// Rebuild the active level's bricks wholesale from its load-time
    /// template (clearing every destroyed flag) and restore the three
    /// lives.
    pub fn reset_level(&mut self)
        requires
            old(self).levels@.len() >= 1,
            old(self).current_level < old(self).levels@.len(),
        ensures
            final(self).levels@.len() == old(self).levels@.len(),
            final(self).levels@[old(self).current_level as int].bricks@ == old(self).levels@[old(self).current_level as int].initial_bricks@,
            final(self).levels@[old(self).current_level as int].initial_bricks@ == old(self).levels@[old(self).current_level as int].initial_bricks@,
            forall|k: int|
                0 <= k < old(self).levels@.len() && k != old(self).current_level ==> final(self).levels@[k] == old(self).levels@[k],
            final(self).lives == 3,
            final(self).state == old(self).state
                && final(self).width == old(self).width
                && final(self).height == old(self).height
                && final(self).current_level == old(self).current_level
                && final(self).player == old(self).player
                && final(self).ball == old(self).ball
                && final(self).textures == old(self).textures,
            old(self).wf() ==> final(self).wf(),
    {
        let cl = self.current_level;
        let level = &mut self.levels[cl];
        level.reset();
        self.lives = 3;
    }
}


/// The draw commands the bricks `0 .. n` contribute, in storage order;
/// destroyed bricks are skipped.
pub open spec fn brick_draws(bricks: Seq<GameObject>, n: int) -> Seq<DrawCommand>
    decreases n,
{
    if n <= 0 {
        Seq::empty()
    } else {
        brick_draws(bricks, n - 1) + if bricks[n - 1].destroyed {
            Seq::empty()
        } else {
            seq![bricks[n - 1].draw_of()]
        }
    }
}

/// The frame's draw list: nothing unless the game is Active; otherwise the
/// background over the whole region, then the live bricks of the active
/// level, then the paddle, then the ball.
pub open spec fn render_spec(g: Game) -> Seq<DrawCommand> {
    if g.state == GameState::Active {
        seq![
            DrawCommand {
                sprite: g.textures.background,
                position: Vec2 { x: 0, y: 0 },
                size: Vec2 { x: g.width, y: g.height },
                color: Color { r: 1000, g: 1000, b: 1000 },
            },
        ] + brick_draws(
            g.levels@[g.current_level as int].bricks@,
            g.levels@[g.current_level as int].bricks@.len() as int,
        ) + seq![g.player.draw_of(), g.ball.game_obj.draw_of()]
    } else {
        Seq::empty()
    }
}

impl Game {
    /// Compute the frame's draw list (see [`render_spec`]).  The engine
    /// never draws; the rendering layer runs these commands.
    pub fn render(&self) -> (cmds: Vec<DrawCommand>)
        requires
            self.levels@.len() >= 1,
            self.current_level < self.levels@.len(),
        ensures
            cmds@ == render_spec(*self),
    {
        let mut cmds: Vec<DrawCommand> = Vec::new();
        if !matches!(self.state, GameState::Active) {
            proof {
                assert(cmds@ =~= render_spec(*self));
            }
            return cmds;
        }
        let bg = DrawCommand {
            sprite: self.textures.background,
            position: Vec2 { x: 0, y: 0 },
            size: Vec2 { x: self.width, y: self.height },
            color: Color { r: 1000, g: 1000, b: 1000 },
        };
        cmds.push(bg);
        let cl = self.current_level;
        let ghost bricks = self.levels@[cl as int].bricks@;
        let n = self.levels[cl].bricks.len();
        let mut i: usize = 0;
        while i < n
            invariant
                0 <= i <= n,
                self.state == GameState::Active,
                cl == self.current_level,
                (cl as int) < self.levels@.len(),
                bricks == self.levels@[cl as int].bricks@,
                n == bricks.len(),
                cmds@ =~= seq![
                    DrawCommand {
                        sprite: self.textures.background,
                        position: Vec2 { x: 0, y: 0 },
                        size: Vec2 { x: self.width, y: self.height },
                        color: Color { r: 1000, g: 1000, b: 1000 },
                    },
                ] + brick_draws(bricks, i as int),
            decreases n - i,
        {
            let brick = self.levels[cl].bricks[i];
            if !brick.destroyed {
                cmds.push(brick.draw());
            }
            proof {
                assert(cmds@ =~= seq![
                    DrawCommand {
                        sprite: self.textures.background,
                        position: Vec2 { x: 0, y: 0 },
                        size: Vec2 { x: self.width, y: self.height },
                        color: Color { r: 1000, g: 1000, b: 1000 },
                    },
                ] + brick_draws(bricks, i + 1));
            }
            i = i + 1;
        }
        cmds.push(self.player.draw());
        cmds.push(self.ball.draw());
        proof {
            assert(cmds@ =~= render_spec(*self));
        }
        cmds
    }
}

} // verus!
