//! The velocity response to a paddle hit.
//!
//! Where the ball strikes the paddle decides the new horizontal direction:
//! the farther from the paddle's center, the steeper the deflection.  The
//! new velocity keeps the ball's old speed (its euclidean norm) and always
//! points upward, so the ball cannot skim along the paddle.
//!
//! On the milli-pixel grid the renormalization is exact up to rounding: the
//! horizontal component is the deflection direction scaled back to the old
//! speed, and the vertical component is what remains of the speed, rounded
//! down and pointed upward, so the squared speed is preserved to within a
//! few rounding units (see [`lemma_paddle_bounce_preserves_speed`]).

use vstd::prelude::*;

use crate::arith::{
    isqrt_u128, lemma_abs_le_sqrt_bracket, lemma_sqrt_floor, lemma_tdiv_magnitude,
    sqrt_floor, tdiv, tdiv_i128, DIM_LIMIT, VEL_LIMIT,
};
use crate::game::INITIAL_BALL_VELOCITY_X;
use crate::game_object::{vec2, Vec2};

verus! {

/// Multiplier on the deflection ratio: a hit at the paddle's edge deflects
/// at twice the launch velocity's horizontal share.
pub const BOUNCE_STRENGTH: i64 = 2;

/// The velocity after a paddle bounce.  `distance` is the signed offset of
/// the ball's center from the paddle's center, `half` the paddle's half
/// width; their quotient is the deflection ratio.  The unnormalized new
/// direction is `(raw, v.y)` with
/// `raw == INITIAL_BALL_VELOCITY_X * BOUNCE_STRENGTH * distance / half`;
/// the result points that way in x, scaled back to the old speed `s`, and
/// its y component is what remains of the speed, pointed upward.  For a
/// zero direction vector (a horizontally drifting ball hitting the exact
/// center) the ball is sent straight up at its old speed.
pub open spec fn paddle_bounce_spec(v: Vec2, distance: int, half: int) -> Vec2 {
    let raw = tdiv(INITIAL_BALL_VELOCITY_X * BOUNCE_STRENGTH * distance, half);
    let s = sqrt_floor(v.norm2() as nat) as int;
    let t = sqrt_floor((raw * raw + v.y * v.y) as nat) as int;
    if t == 0 {
        vec2(0, -s)
    } else {
        let nx = tdiv(raw * s, t);
        vec2(nx, -(sqrt_floor((s * s - nx * nx) as nat) as int))
    }
}

/// Speed preservation: a paddle bounce never increases the squared speed,
/// and decreases it by at most four rounding units (four times the speed,
/// against a squared speed that grows quadratically), and the resulting
/// velocity points upward.  Holds for every deflection offset, including
/// ones past the paddle's edge.
pub proof fn lemma_paddle_bounce_preserves_speed(v: Vec2, distance: int, half: int)
    requires
        half >= 1,
        v.norm2() <= VEL_LIMIT * VEL_LIMIT,
    ensures
        paddle_bounce_spec(v, distance, half).norm2() <= v.norm2(),
        v.norm2() - paddle_bounce_spec(v, distance, half).norm2() <= 4 * (sqrt_floor(
            v.norm2() as nat,
        ) as int),
        paddle_bounce_spec(v, distance, half).y <= 0,
{
    let n2 = v.norm2();
    assert(v.x * v.x >= 0 && v.y * v.y >= 0) by (nonlinear_arith);
    lemma_sqrt_floor(n2 as nat);
    let s = sqrt_floor(n2 as nat) as int;
    assert((1_000_000_000 + 1) * (1_000_000_000 + 1) > 1_000_000_000_000_000_000) by (
    nonlinear_arith);
    lemma_abs_le_sqrt_bracket(s, 1_000_000_000);
    assert(n2 - s * s <= 2 * s) by (nonlinear_arith)
        requires
            s * s <= n2,
            n2 < (s + 1) * (s + 1),
    ;
    let raw = tdiv(INITIAL_BALL_VELOCITY_X * BOUNCE_STRENGTH * distance, half);
    let t2 = raw * raw + v.y * v.y;
    assert(raw * raw >= 0) by (nonlinear_arith);
    lemma_sqrt_floor(t2 as nat);
    let t = sqrt_floor(t2 as nat) as int;
    let r = paddle_bounce_spec(v, distance, half);
    if t == 0 {
        assert(r.x == 0 && r.y == -s);
        assert(r.norm2() == s * s) by (nonlinear_arith)
            requires
                r.x == 0,
                r.y == -s,
        ;
    } else {
        lemma_abs_le_sqrt_bracket(raw, t);
        let nx = tdiv(raw * s, t);
        assert(-(s * t) <= raw * s <= s * t) by (nonlinear_arith)
            requires
                -t <= raw <= t,
                s >= 0,
        ;
        lemma_tdiv_magnitude(raw * s, t, s);
        assert(nx * nx <= s * s) by (nonlinear_arith)
            requires
                -s <= nx <= s,
        ;
        assert(nx * nx >= 0) by (nonlinear_arith);
        let m = s * s - nx * nx;
        lemma_sqrt_floor(m as nat);
        let q = sqrt_floor(m as nat) as int;
        assert(q * q < (s + 1) * (s + 1)) by (nonlinear_arith)
            requires
                q * q <= m,
                m <= s * s,
                s >= 0,
        ;
        lemma_abs_le_sqrt_bracket(q, s);
        assert(r.x == nx && r.y == -q);
        assert(r.norm2() == nx * nx + q * q) by (nonlinear_arith)
            requires
                r.x == nx,
                r.y == -q,
        ;
        assert(m - q * q <= 2 * q) by (nonlinear_arith)
            requires
                q * q <= m,
                m < (q + 1) * (q + 1),
        ;
    }
}

/// Compute the bounce velocity (see [`paddle_bounce_spec`]).
pub fn paddle_bounce(velocity: Vec2, distance: i64, half: i64) -> (r: Vec2)
    requires
        1 <= half <= DIM_LIMIT,
        -2 * DIM_LIMIT <= distance <= 2 * DIM_LIMIT,
        velocity.norm2() <= VEL_LIMIT * VEL_LIMIT,
    ensures
        r == paddle_bounce_spec(velocity, distance as int, half as int),
        r.norm2() <= velocity.norm2(),
        velocity.norm2() - r.norm2() <= 4 * (sqrt_floor(velocity.norm2() as nat) as int),
        r.y <= 0,
        -VEL_LIMIT <= r.x <= VEL_LIMIT,
        -VEL_LIMIT <= r.y <= VEL_LIMIT,
{
    proof {
        lemma_paddle_bounce_preserves_speed(velocity, distance as int, half as int);
    }
    let num: i128 = (INITIAL_BALL_VELOCITY_X as i128) * (BOUNCE_STRENGTH as i128) * (
    distance as i128);
    let raw: i128 = tdiv_i128(num, half as i128);
    let vx = velocity.x;
    let vy = velocity.y;
    proof {
        assert(vx * vx >= 0 && vy * vy >= 0) by (nonlinear_arith);
        assert((1_000_000_000 + 1) * (1_000_000_000 + 1) > 1_000_000_000_000_000_000) by (
        nonlinear_arith);
        lemma_abs_le_sqrt_bracket(vx as int, 1_000_000_000);
        lemma_abs_le_sqrt_bracket(vy as int, 1_000_000_000);
    }
    let n2: i128 = (vx as i128) * (vx as i128) + (vy as i128) * (vy as i128);
    let s: u64 = isqrt_u128(n2 as u128);
    proof {
        lemma_sqrt_floor(n2 as nat);
        lemma_abs_le_sqrt_bracket(s as int, 1_000_000_000);
    }
    proof {
        assert(-400_000_000_000_000 <= num <= 400_000_000_000_000) by (nonlinear_arith)
            requires
                num == 200_000 * (distance as int),
                -2_000_000_000 <= distance <= 2_000_000_000,
        ;
        assert(raw * raw >= 0) by (nonlinear_arith);
        assert(raw * raw <= 400_000_000_000_000 * 400_000_000_000_000) by (nonlinear_arith)
            requires
                -400_000_000_000_000 <= raw <= 400_000_000_000_000,
        ;
    }
    let t2: i128 = raw * raw + (vy as i128) * (vy as i128);
    let t: u64 = isqrt_u128(t2 as u128);
    if t == 0 {
        Vec2 { x: 0, y: -(s as i64) }
    } else {
        proof {
            lemma_sqrt_floor(t2 as nat);
            lemma_abs_le_sqrt_bracket(raw as int, t as int);
            assert(-((s as int) * (t as int)) <= (raw as int) * (s as int) <= (s as int) * (
            t as int)) by (nonlinear_arith)
                requires
                    -(t as int) <= raw as int <= t as int,
                    s as int >= 0,
            ;
        }
        proof {
            assert(-400_000_000_000_000_000_000_000 <= (raw as int) * (s as int)
                <= 400_000_000_000_000_000_000_000) by (nonlinear_arith)
                requires
                    -400_000_000_000_000 <= raw <= 400_000_000_000_000,
                    0 <= s as int <= 1_000_000_000,
            ;
        }
        let prod: i128 = raw * (s as i128);
        let nx128: i128 = tdiv_i128(prod, t as i128);
        proof {
            lemma_tdiv_magnitude(prod as int, t as int, s as int);
            assert(0 <= nx128 * nx128 <= (s as int) * (s as int)) by (nonlinear_arith)
                requires
                    -(s as int) <= nx128 as int <= s as int,
            ;
        }
        let m: i128 = (s as i128) * (s as i128) - nx128 * nx128;
        let q: u64 = isqrt_u128(m as u128);
        proof {
            lemma_sqrt_floor(m as nat);
            assert((q as int) * (q as int) < ((s as int) + 1) * ((s as int) + 1)) by (
            nonlinear_arith)
                requires
                    (q as int) * (q as int) <= m as int,
                    m as int <= (s as int) * (s as int),
                    s as int >= 0,
            ;
            lemma_abs_le_sqrt_bracket(q as int, s as int);
        }
        Vec2 { x: nx128 as i64, y: -(q as i64) }
    }
}

} // verus!
