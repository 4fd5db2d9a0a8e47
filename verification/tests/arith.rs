//! The fixed-point helpers.

use breakout::arith::{clamp_i64, half_of, isqrt_u128, tdiv_i128};

#[test]
fn integer_square_roots_round_down() {
    assert_eq!(isqrt_u128(0), 0);
    assert_eq!(isqrt_u128(1), 1);
    assert_eq!(isqrt_u128(3), 1);
    assert_eq!(isqrt_u128(4), 2);
    assert_eq!(isqrt_u128(132_500_000_000), 364_005);
    assert_eq!(isqrt_u128(u128::MAX), u64::MAX);
}

#[test]
fn division_truncates_toward_zero() {
    assert_eq!(tdiv_i128(7, 2), 3);
    assert_eq!(tdiv_i128(-7, 2), -3);
    assert_eq!(tdiv_i128(0, 5), 0);
    assert_eq!(tdiv_i128(-1, 1_000), 0);
}

#[test]
fn clamping_and_halving() {
    assert_eq!(clamp_i64(5, 0, 10), 5);
    assert_eq!(clamp_i64(-5, 0, 10), 0);
    assert_eq!(clamp_i64(15, 0, 10), 10);
    assert_eq!(half_of(5), 2);
    assert_eq!(half_of(100_000), 50_000);
}
