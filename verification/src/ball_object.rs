//! The ball: a circular entity with a stuck-to-paddle flag.

use vstd::prelude::*;

use crate::arith::{tdiv, tdiv_i128, DIM_LIMIT, DT_LIMIT, MOVE_LIMIT, POS_LIMIT, UNIT, VEL_LIMIT};
use crate::game_object::{vec2, Color, DrawCommand, GameObject, Vec2};

verus! {

/// A circular entity.  Its bounding square is `2 * radius` on each side;
/// `position` is the square's top-left corner, so the circle's center is
/// `position + (radius, radius)`.
#[derive(Clone, Copy, PartialEq, Eq, Structural, Debug)]
pub struct BallObject {
    pub game_obj: GameObject,
    /// Circle radius in milli-pixels; positive.
    pub radius: i64,
    /// While true the ball rests on the paddle: it ignores motion and walls
    /// until launched.
    pub stuck: bool,
}

impl BallObject {
    /// Geometric sanity: the underlying object is well formed, the size is
    /// derived from the radius, and the velocity's euclidean norm is bounded
    /// (so speed-preserving bounces stay in range).
    pub open spec fn wf(self) -> bool {
        &&& self.game_obj.wf()
        &&& 1 <= self.radius
        &&& self.game_obj.size.x == 2 * self.radius
        &&& self.game_obj.size.y == 2 * self.radius
        &&& self.game_obj.velocity.norm2() <= VEL_LIMIT * VEL_LIMIT
    }

    /// A fresh ball: resting on the paddle, white, motionless.
    pub fn new(position: Vec2, sprite: usize, radius: i64) -> (r: BallObject)
        requires
            1 <= radius,
            2 * radius <= DIM_LIMIT,
            -POS_LIMIT <= position.x <= POS_LIMIT,
            -POS_LIMIT <= position.y <= POS_LIMIT,
        ensures
            r == (BallObject {
                game_obj: GameObject {
                    position,
                    size: vec2(2 * radius, 2 * radius),
                    velocity: Vec2 { x: 0, y: 0 },
                    sprite,
                    color: Color { r: 1000, g: 1000, b: 1000 },
                    is_solid: false,
                    destroyed: false,
                },
                radius,
                stuck: true,
            }),
            r.wf(),
    {
        BallObject {
            game_obj: GameObject::new(
                position,
                Vec2 { x: 2 * radius, y: 2 * radius },
                Vec2 { x: 0, y: 0 },
                sprite,
                Color { r: 1000, g: 1000, b: 1000 },
            ),
            radius,
            stuck: true,
        }
    }

    /// One frame of free motion.  A stuck ball does not move.  Otherwise the
    /// position advances by `velocity * dt` (rounded toward zero onto the
    /// grid), and the ball bounces off the left, right and top walls:
    /// the offending coordinate is clamped to the wall and the matching
    /// velocity component is negated.  There is no bottom wall; falling past
    /// the bottom is the loss condition, handled by the state machine.
    pub open spec fn moved(self, dt: int, window_width: int) -> BallObject {
        if self.stuck {
            self
        } else {
            let vx = self.game_obj.velocity.x as int;
            let vy = self.game_obj.velocity.y as int;
            let px = self.game_obj.position.x + tdiv(vx * dt, UNIT as int);
            let py = self.game_obj.position.y + tdiv(vy * dt, UNIT as int);
            let sx = self.game_obj.size.x as int;
            let xv: (int, int) = if px <= 0 {
                (0, -vx)
            } else if px + sx >= window_width {
                (window_width - sx, -vx)
            } else {
                (px, vx)
            };
            let yv: (int, int) = if py <= 0 {
                (0, -vy)
            } else {
                (py, vy)
            };
            BallObject {
                game_obj: GameObject {
                    position: vec2(xv.0, yv.0),
                    velocity: vec2(xv.1, yv.1),
                    ..self.game_obj
                },
                ..self
            }
        }
    }

    /// Advance the ball by one frame (see [`Self::moved`]).
    pub fn move_ball(&mut self, dt: i64, window_width: i64)
        requires
            old(self).wf(),
            old(self).game_obj.position.y <= DIM_LIMIT,
            0 <= dt <= DT_LIMIT,
            1 <= window_width <= DIM_LIMIT,
        ensures
            *final(self) == old(self).moved(dt as int, window_width as int),
            final(self).wf(),
            final(self).game_obj.size == old(self).game_obj.size,
            final(self).radius == old(self).radius,
            final(self).stuck == old(self).stuck,
            !old(self).stuck ==> {
                &&& -DIM_LIMIT <= final(self).game_obj.position.x <= DIM_LIMIT
                &&& 0 <= final(self).game_obj.position.y
                &&& (final(self).game_obj.position.y <= old(self).game_obj.position.y + MOVE_LIMIT
                    || final(self).game_obj.position.y == 0)
            },
    {
        if !self.stuck {
            let vx = self.game_obj.velocity.x;
            let vy = self.game_obj.velocity.y;
            proof {
                assert(vx * vx >= 0 && vy * vy >= 0) by (nonlinear_arith);
                assert(-1_000_000_000 <= vx <= 1_000_000_000 && -1_000_000_000 <= vy
                    <= 1_000_000_000) by (nonlinear_arith)
                    requires
                        vx * vx <= 1_000_000_000_000_000_000,
                        vy * vy <= 1_000_000_000_000_000_000,
                ;
                assert(-3_600_000_000_000_000 <= (vx as int) * (dt as int) <= 3_600_000_000_000_000
                    && -3_600_000_000_000_000 <= (vy as int) * (dt as int)
                    <= 3_600_000_000_000_000) by (nonlinear_arith)
                    requires
                        -1_000_000_000 <= vx <= 1_000_000_000,
                        -1_000_000_000 <= vy <= 1_000_000_000,
                        0 <= dt <= 3_600_000,
                ;
            }
            let dx = tdiv_i128((vx as i128) * (dt as i128), UNIT as i128) as i64;
            let dy = tdiv_i128((vy as i128) * (dt as i128), UNIT as i128) as i64;
            let px = self.game_obj.position.x + dx;
            let py = self.game_obj.position.y + dy;
            let sx = self.game_obj.size.x;
            let nx: i64;
            let nvx: i64;
            if px <= 0 {
                nx = 0;
                nvx = -vx;
            } else if px + sx >= window_width {
                nx = window_width - sx;
                nvx = -vx;
            } else {
                nx = px;
                nvx = vx;
            }
            let ny: i64;
            let nvy: i64;
            if py <= 0 {
                ny = 0;
                nvy = -vy;
            } else {
                ny = py;
                nvy = vy;
            }
            self.game_obj.position = Vec2 { x: nx, y: ny };
            self.game_obj.velocity = Vec2 { x: nvx, y: nvy };
            proof {
                assert(nvx * nvx + nvy * nvy == vx * vx + vy * vy) by (nonlinear_arith)
                    requires
                        nvx == vx || nvx == -vx,
                        nvy == vy || nvy == -vy,
                ;
            }
        }
    }

    /// The draw command for the ball: its underlying object's.
    pub fn draw(&self) -> (c: DrawCommand)
        ensures
            c == self.game_obj.draw_of(),
    {
        self.game_obj.draw()
    }

    /// Put the ball back onto the paddle: new position and launch velocity,
    /// `stuck` set.
    pub fn reset(&mut self, position: Vec2, velocity: Vec2)
        requires
            -POS_LIMIT <= position.x <= POS_LIMIT,
            -POS_LIMIT <= position.y <= POS_LIMIT,
            velocity.norm2() <= VEL_LIMIT * VEL_LIMIT,
        ensures
            *final(self) == (BallObject {
                game_obj: GameObject { position, velocity, ..old(self).game_obj },
                stuck: true,
                ..*old(self)
            }),
            old(self).wf() ==> final(self).wf(),
    {
        self.game_obj.position = position;
        self.game_obj.velocity = velocity;
        self.stuck = true;
        proof {
            assert(-1_000_000_000 <= velocity.x <= 1_000_000_000 && -1_000_000_000 <= velocity.y
                <= 1_000_000_000) by (nonlinear_arith)
                requires
                    velocity.x * velocity.x + velocity.y * velocity.y
                        <= 1_000_000_000_000_000_000,
            ;
        }
    }
}

} // verus!

