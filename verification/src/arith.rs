//! Fixed-point arithmetic for the simulation.
//!
//! Every quantity in the engine is an integer on a fixed grid: positions and
//! sizes in milli-pixels (thousandths of a pixel), velocities in milli-pixels
//! per second, elapsed time in milliseconds, colors in thousandths of full
//! intensity.  This module holds the grid constants, truncating division
//! (what machine division does on signed values) and the floor square root
//! used to renormalize velocities.

use vstd::prelude::*;

verus! {

/// Subdivisions of one pixel and of one second: milli-pixels per pixel,
/// milliseconds per second.
pub const UNIT: i64 = 1000;

/// Upper bound on level dimensions, entity sizes and the ball radius,
/// in milli-pixels (one million pixels).
pub const DIM_LIMIT: i64 = 1_000_000_000;

/// Upper bound on the magnitude of an entity position coordinate, in
/// milli-pixels.  Positions can leave the level region (a lost ball falls
/// below it) but stay far inside this bound.
pub const POS_LIMIT: i64 = 10_000_000_000_000_000;

/// Upper bound on the euclidean norm of a velocity, in milli-pixels per
/// second (one million pixels per second).
pub const VEL_LIMIT: i64 = 1_000_000_000;

/// Upper bound on one frame's elapsed time, in milliseconds (one hour).
pub const DT_LIMIT: i64 = 3_600_000;

/// Upper bound on the distance an entity can travel in one frame:
/// `VEL_LIMIT * DT_LIMIT / UNIT` milli-pixels.
pub const MOVE_LIMIT: i64 = 3_600_000_000_000;

/// Division rounding toward zero, the rounding of machine division.
/// (In specifications `/` on `int` is euclidean division, which rounds
/// toward negative infinity; the two agree on non-negative dividends.)
pub open spec fn tdiv(a: int, b: int) -> int {
    if a >= 0 {
        a / b
    } else {
        -((-a) / b)
    }
}

/// The absolute value, as an `int`.
pub open spec fn iabs(x: int) -> int {
    if x < 0 {
        -x
    } else {
        x
    }
}

/// Clamping a value into a closed interval.
pub open spec fn clamp_spec(v: int, lo: int, hi: int) -> int {
    if v < lo {
        lo
    } else if v > hi {
        hi
    } else {
        v
    }
}

/// Clamp `v` into `[lo, hi]`.
pub fn clamp_i64(v: i64, lo: i64, hi: i64) -> (r: i64)
    requires
        lo <= hi,
    ensures
        r == clamp_spec(v as int, lo as int, hi as int),
{
    if v < lo {
        lo
    } else if v > hi {
        hi
    } else {
        v
    }
}

/// Truncating division on machine-width integers.
pub fn tdiv_i128(a: i128, b: i128) -> (r: i128)
    requires
        b >= 1,
        a > i128::MIN,
    ensures
        r == tdiv(a as int, b as int),
        a >= 0 ==> 0 <= r <= a,
        a < 0 ==> a <= r <= 0,
{
    if a >= 0 {
        let q: u128 = (a as u128) / (b as u128);
        proof {
            vstd::arithmetic::div_mod::lemma_div_is_ordered_by_denominator(a as int, 1, b as int);
        }
        q as i128
    } else {
        let neg: i128 = -a;
        let q: u128 = (neg as u128) / (b as u128);
        proof {
            vstd::arithmetic::div_mod::lemma_div_is_ordered_by_denominator(neg as int, 1, b as int);
        }
        -(q as i128)
    }
}

/// Half of a non-negative value, rounded down.
pub fn half_of(a: i64) -> (r: i64)
    requires
        a >= 0,
    ensures
        r == a as int / 2,
{
    ((a as u64) / 2) as i64
}

/// The floor of the square root of a natural number.
pub open spec fn sqrt_floor(n: nat) -> nat
    decreases n,
{
    if n == 0 {
        0
    } else {
        let r = sqrt_floor((n - 1) as nat);
        if (r + 1) * (r + 1) <= n {
            r + 1
        } else {
            r
        }
    }
}

/// `sqrt_floor(n)` is the unique `r` with `r * r <= n < (r + 1) * (r + 1)`.
pub proof fn lemma_sqrt_floor(n: nat)
    ensures
        sqrt_floor(n) * sqrt_floor(n) <= n,
        n < (sqrt_floor(n) + 1) * (sqrt_floor(n) + 1),
    decreases n,
{
    broadcast use vstd::arithmetic::mul::group_mul_properties;

    if n == 0 {
        assert(sqrt_floor(0) == 0);
    } else {
        lemma_sqrt_floor((n - 1) as nat);
        let r = sqrt_floor((n - 1) as nat);
        if (r + 1) * (r + 1) <= n {
            assert(sqrt_floor(n) == r + 1);
            assert(n == (r + 1) * (r + 1)) by {
                assert(n - 1 < (r + 1) * (r + 1));
            }
            assert((r + 1) * (r + 1) < (r + 2) * (r + 2)) by (nonlinear_arith);
            assert(sqrt_floor(n) * sqrt_floor(n) <= n);
            assert(n < (sqrt_floor(n) + 1) * (sqrt_floor(n) + 1));
        } else {
            assert(sqrt_floor(n) == r);
            assert(r * r <= n - 1 <= n);
            assert(sqrt_floor(n) * sqrt_floor(n) <= n);
            assert(n < (sqrt_floor(n) + 1) * (sqrt_floor(n) + 1));
        }
    }
}

/// A value bracketed by consecutive squares is the floor square root.
pub proof fn lemma_sqrt_floor_unique(n: nat, r: nat)
    requires
        r * r <= n,
        n < (r + 1) * (r + 1),
    ensures
        r == sqrt_floor(n),
{
    lemma_sqrt_floor(n);
    let s = sqrt_floor(n);
    if r < s {
        assert((r + 1) * (r + 1) <= s * s) by (nonlinear_arith)
            requires
                r + 1 <= s,
        ;
    }
    if s < r {
        assert((s + 1) * (s + 1) <= r * r) by (nonlinear_arith)
            requires
                s + 1 <= r,
        ;
    }
}

/// A value whose square is below the next square after `b * b` lies in
/// `[-b, b]`.
pub proof fn lemma_abs_le_sqrt_bracket(a: int, b: int)
    requires
        b >= 0,
        a * a < (b + 1) * (b + 1),
    ensures
        -b <= a <= b,
{
    if a > b {
        assert((b + 1) * (b + 1) <= a * a) by (nonlinear_arith)
            requires
                0 <= b + 1 <= a,
        ;
    }
    if a < -b {
        assert((b + 1) * (b + 1) <= a * a) by (nonlinear_arith)
            requires
                0 <= b + 1 <= -a,
        ;
    }
}

/// Truncating division keeps a quotient bound: if `|a| <= c * b` then
/// `|tdiv(a, b)| <= c`.
pub proof fn lemma_tdiv_magnitude(a: int, b: int, c: int)
    requires
        b >= 1,
        c >= 0,
        -(c * b) <= a <= c * b,
    ensures
        -c <= tdiv(a, b) <= c,
{
    vstd::arithmetic::div_mod::lemma_div_by_multiple(c, b);
    if a >= 0 {
        vstd::arithmetic::div_mod::lemma_div_is_ordered(a, c * b, b);
        vstd::arithmetic::div_mod::lemma_div_pos_is_pos(a, b);
    } else {
        vstd::arithmetic::div_mod::lemma_div_is_ordered(-a, c * b, b);
        vstd::arithmetic::div_mod::lemma_div_pos_is_pos(-a, b);
    }
}

/// Floor square root of a 128-bit value, by bisection.
pub fn isqrt_u128(n: u128) -> (r: u64)
    ensures
        r == sqrt_floor(n as nat),
        r * r <= n,
{
    let mut lo: u128 = 0;
    let mut hi: u128 = 0x1_0000_0000_0000_0000;
    proof {
        assert((n as int) < (hi as int) * (hi as int)) by (nonlinear_arith)
            requires
                n <= u128::MAX,
                hi == 0x1_0000_0000_0000_0000u128,
        ;
    }
    while lo + 1 < hi
        invariant
            lo < hi <= 0x1_0000_0000_0000_0000u128,
            (lo as int) * (lo as int) <= n as int,
            (n as int) < (hi as int) * (hi as int),
        decreases hi - lo,
    {
        let mid: u128 = lo + (hi - lo) / 2;
        proof {
            assert((mid as int) * (mid as int) <= (0xffff_ffff_ffff_ffffu128 as int) * (
            0xffff_ffff_ffff_ffffu128 as int)) by (nonlinear_arith)
                requires
                    mid <= 0xffff_ffff_ffff_ffffu128,
            ;
        }
        let sq: u128 = mid * mid;
        if sq <= n {
            lo = mid;
        } else {
            hi = mid;
        }
    }
    proof {
        lemma_sqrt_floor_unique(n as nat, lo as nat);
    }
    lo as u64
}

} // verus!
