//! Circle-versus-box collision detection with directional resolution.
//!
//! The resolver is a pure function: it reports whether the ball overlaps an
//! axis-aligned box, the offset from the circle's center to the closest
//! point of the box (the penetration delta), and which face of the box the
//! circle struck, classified into four compass directions.

use vstd::prelude::*;

use crate::arith::{clamp_spec, half_of, clamp_i64, DIM_LIMIT, POS_LIMIT};
use crate::ball_object::BallObject;
use crate::game_object::{GameObject, Vec2};

verus! {

/// Which face of a box the ball struck.
#[derive(Clone, Copy, PartialEq, Eq, Structural, Debug)]
pub enum Direction {
    Up,
    Right,
    Down,
    Left,
}

/// The position of a direction in the tie-break order (Up before Right
/// before Down before Left).
pub open spec fn dir_index(d: Direction) -> int {
    match d {
        Direction::Up => 0,
        Direction::Right => 1,
        Direction::Down => 2,
        Direction::Left => 3,
    }
}

/// Dot product of a compass direction's unit vector with the vector
/// `(dx, dy)`.  Up is `(0, 1)`, Right `(1, 0)`, Down `(0, -1)`,
/// Left `(-1, 0)`.
pub open spec fn compass_dot(d: Direction, dx: int, dy: int) -> int {
    match d {
        Direction::Up => dy,
        Direction::Right => dx,
        Direction::Down => -dy,
        Direction::Left => -dx,
    }
}

/// The compass direction whose unit vector maximizes the dot product with
/// `(dx, dy)`, ties resolved by the enumeration order.  Mirrors a running
/// maximum that starts at zero, so for the zero vector (which the resolver
/// never classifies) the result falls back to Up.
pub open spec fn vector_direction_spec(dx: int, dy: int) -> Direction {
    let s1: (int, Direction) = if dy > 0 {
        (dy, Direction::Up)
    } else {
        (0, Direction::Up)
    };
    let s2: (int, Direction) = if dx > s1.0 {
        (dx, Direction::Right)
    } else {
        s1
    };
    let s3: (int, Direction) = if -dy > s2.0 {
        (-dy, Direction::Down)
    } else {
        s2
    };
    let s4: (int, Direction) = if -dx > s3.0 {
        (-dx, Direction::Left)
    } else {
        s3
    };
    s4.1
}

/// The chosen direction attains the maximum dot product with the delta
/// vector among the four compass directions, and strictly beats every
/// direction before it in the enumeration order.  (Stated over the raw
/// delta: dividing all four dot products by the delta's positive norm
/// preserves their order, so the claim over the normalized delta is the
/// same claim.)
pub proof fn lemma_direction_maximizes(dx: int, dy: int, e: Direction)
    requires
        dx != 0 || dy != 0,
    ensures
        compass_dot(e, dx, dy) <= compass_dot(vector_direction_spec(dx, dy), dx, dy),
        dir_index(e) < dir_index(vector_direction_spec(dx, dy)) ==> compass_dot(e, dx, dy)
            < compass_dot(vector_direction_spec(dx, dy), dx, dy),
        compass_dot(vector_direction_spec(dx, dy), dx, dy) > 0,
{
}

/// Classify a non-zero vector into the compass direction of largest dot
/// product, ties broken in enumeration order.
pub fn vector_direction(target: Vec2) -> (r: Direction)
    requires
        target.x != 0 || target.y != 0,
        -DIM_LIMIT <= target.x <= DIM_LIMIT,
        -DIM_LIMIT <= target.y <= DIM_LIMIT,
    ensures
        r == vector_direction_spec(target.x as int, target.y as int),
{
    let mut max: i64 = 0;
    let mut best: Direction = Direction::Up;
    if target.y > max {
        max = target.y;
        best = Direction::Up;
    }
    if target.x > max {
        max = target.x;
        best = Direction::Right;
    }
    if -target.y > max {
        max = -target.y;
        best = Direction::Down;
    }
    if -target.x > max {
        best = Direction::Left;
    }
    best
}

/// What the collision resolver reports: whether the circle overlaps the
/// box, which face it struck, and the penetration delta (the vector from
/// the circle's center to the closest point of the box).
#[derive(Clone, Copy, PartialEq, Eq, Structural, Debug)]
pub struct Collision {
    pub hit: bool,
    pub direction: Direction,
    pub diff: Vec2,
}

/// The x component of the penetration delta: the box point closest to the
/// circle's center, minus the center.
pub open spec fn delta_x(ball: BallObject, bx: GameObject) -> int {
    let center = ball.game_obj.position.x + ball.radius;
    let half = bx.size.x as int / 2;
    let diff = center - (bx.position.x + half);
    clamp_spec(diff, -half, half) - diff
}

/// The y component of the penetration delta.
pub open spec fn delta_y(ball: BallObject, bx: GameObject) -> int {
    let center = ball.game_obj.position.y + ball.radius;
    let half = bx.size.y as int / 2;
    let diff = center - (bx.position.y + half);
    clamp_spec(diff, -half, half) - diff
}

/// The ball overlaps the box: the closest point of the box lies strictly
/// inside the circle.  A delta of exactly zero (the circle's center on the
/// closest point) is reported as a miss, so an exact touch never counts.
pub open spec fn collides(ball: BallObject, bx: GameObject) -> bool {
    let dx = delta_x(ball, bx);
    let dy = delta_y(ball, bx);
    &&& !(dx == 0 && dy == 0)
    &&& dx * dx + dy * dy < ball.radius * ball.radius
}

/// Positions a resolver argument may hold: looser than the well-formedness
/// bound, since collisions are also tested mid-frame, after motion and
/// after penetration pushes.
pub open spec fn resolver_pos_ok(p: Vec2) -> bool {
    &&& -2 * POS_LIMIT <= p.x <= 2 * POS_LIMIT
    &&& -2 * POS_LIMIT <= p.y <= 2 * POS_LIMIT
}

/// Circle-versus-box collision resolution.  On a miss every field is
/// zeroed (direction defaults to Up); on a hit the delta and the struck
/// face are reported.
pub fn check_collision(ball: &BallObject, bx: &GameObject) -> (r: Collision)
    requires
        ball.wf(),
        resolver_pos_ok(ball.game_obj.position),
        1 <= bx.size.x <= DIM_LIMIT,
        1 <= bx.size.y <= DIM_LIMIT,
        resolver_pos_ok(bx.position),
    ensures
        r.hit == collides(*ball, *bx),
        r.hit ==> r.diff.x == delta_x(*ball, *bx) && r.diff.y == delta_y(*ball, *bx),
        r.hit ==> r.direction == vector_direction_spec(delta_x(*ball, *bx), delta_y(*ball, *bx)),
        !r.hit ==> r == (Collision {
            hit: false,
            direction: Direction::Up,
            diff: Vec2 { x: 0, y: 0 },
        }),
{
    let center_x = ball.game_obj.position.x + ball.radius;
    let center_y = ball.game_obj.position.y + ball.radius;
    let half_x = half_of(bx.size.x);
    let half_y = half_of(bx.size.y);
    let diff_x = center_x - (bx.position.x + half_x);
    let diff_y = center_y - (bx.position.y + half_y);
    let dx = clamp_i64(diff_x, -half_x, half_x) - diff_x;
    let dy = clamp_i64(diff_y, -half_y, half_y) - diff_y;
    let miss = Collision { hit: false, direction: Direction::Up, diff: Vec2 { x: 0, y: 0 } };
    if dx == 0 && dy == 0 {
        return miss;
    }
    // The delta components may be large when the ball is far away; compare
    // each against the radius first so that squaring cannot overflow.
    if dx >= ball.radius || -dx >= ball.radius || dy >= ball.radius || -dy >= ball.radius {
        proof {
            lemma_separated_component(dx as int, dy as int, ball.radius as int);
        }
        return miss;
    }
    proof {
        assert(0 <= dx * dx <= 250_000_000_000_000_000 && 0 <= dy * dy
            <= 250_000_000_000_000_000 && 0 <= (ball.radius as int) * (ball.radius as int)
            <= 250_000_000_000_000_000) by (nonlinear_arith)
            requires
                -500_000_000 <= dx <= 500_000_000,
                -500_000_000 <= dy <= 500_000_000,
                0 <= ball.radius <= 500_000_000,
        ;
    }
    if dx * dx + dy * dy < ball.radius * ball.radius {
        Collision { hit: true, direction: vector_direction(Vec2 { x: dx, y: dy }), diff: Vec2 {
            x: dx,
            y: dy,
        } }
    } else {
        miss
    }
}

/// If one component of the delta already reaches the radius, the squared
/// norm reaches the squared radius, so the circle cannot overlap the box.
proof fn lemma_separated_component(dx: int, dy: int, r: int)
    requires
        r >= 0,
        dx >= r || -dx >= r || dy >= r || -dy >= r,
    ensures
        dx * dx + dy * dy >= r * r,
{
    assert(dx * dx >= 0 && dy * dy >= 0) by (nonlinear_arith);
    if dx >= r || -dx >= r {
        assert(dx * dx >= r * r) by (nonlinear_arith)
            requires
                r >= 0,
                dx >= r || -dx >= r,
        ;
    } else {
        assert(dy * dy >= r * r) by (nonlinear_arith)
            requires
                r >= 0,
                dy >= r || -dy >= r,
        ;
    }
}

/// Separated bounding boxes never collide: if the circle's bounding square
/// does not meet the box expanded by the radius on some axis, the resolver
/// reports a miss.
pub proof fn lemma_separated_no_hit(ball: BallObject, bx: GameObject)
    requires
        ball.wf(),
        1 <= bx.size.x,
        1 <= bx.size.y,
        ball.game_obj.position.x + 2 * ball.radius <= bx.position.x - ball.radius || bx.position.x
            + bx.size.x + ball.radius <= ball.game_obj.position.x || ball.game_obj.position.y + 2
            * ball.radius <= bx.position.y - ball.radius || bx.position.y + bx.size.y + ball.radius
            <= ball.game_obj.position.y,
    ensures
        !collides(ball, bx),
{
    let r = ball.radius as int;
    let dx = delta_x(ball, bx);
    let dy = delta_y(ball, bx);
    if ball.game_obj.position.x + 2 * r <= bx.position.x - r || bx.position.x + bx.size.x + r
        <= ball.game_obj.position.x {
        assert(dx >= r || -dx >= r);
        lemma_separated_component(dx, dy, r);
    } else {
        assert(dy >= r || -dy >= r);
        lemma_separated_component(dx, dy, r);
    }
}

} // verus!
