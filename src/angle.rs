//! Fixed-point reals and angle normalisation.
//!
//! Every real quantity of the library (phase, frequency, time step, coupling
//! gain, sine value) is an integer counting billionths: the value `ONE`
//! stands for 1.0. Angles are radians in that scale, and a full turn is
//! `TWO_PI`, 2π rounded to the nearest billionth.
use vstd::arithmetic::div_mod::{lemma_div_is_ordered, lemma_div_multiples_vanish};
use vstd::prelude::*;

verus! {

/// The fixed-point representation of 1.0.
pub const ONE: i64 = 1_000_000_000;

/// A full turn, 2π, in fixed point.
pub const TWO_PI: i64 = 6_283_185_307;

/// The canonical representative of an angle: its remainder modulo a full
/// turn, in `[0, TWO_PI)` also for negative angles.
pub open spec fn wrap_angle(a: int) -> int {
    a % (TWO_PI as int)
}

/// The fixed-point product of two fixed-point values, rounded toward
/// negative infinity.
pub open spec fn scaled(a: int, b: int) -> int {
    (a * b) / (ONE as int)
}

/// Whether a value is a canonical angle.
pub open spec fn in_turn(a: int) -> bool {
    0 <= a < TWO_PI
}

/// Normalises an angle into `[0, TWO_PI)` with a Euclidean remainder, so
/// that angles below zero land in range too.
pub fn wrap(a: i128) -> (r: i64)
    ensures
        r as int == wrap_angle(a as int),
        in_turn(r as int),
{
    match a.checked_rem_euclid(TWO_PI as i128) {
        Some(x) => x as i64,
        None => unreached(),
    }
}

/// A quotient lies between the bounds that its dividend lies between once
/// multiplied by the divisor.
pub proof fn lemma_quotient_between(a: int, d: int, lo: int, hi: int)
    requires
        0 < d,
        lo * d <= a <= hi * d,
    ensures
        lo <= a / d <= hi,
{
    lemma_div_is_ordered(lo * d, a, d);
    lemma_div_is_ordered(a, hi * d, d);
    lemma_div_multiples_vanish(lo, d);
    lemma_div_multiples_vanish(hi, d);
    assert(lo * d == d * lo && hi * d == d * hi) by (nonlinear_arith);
}

/// Division rounded toward negative infinity, by a positive divisor.
pub fn div_floor(a: i128, d: i128) -> (r: i128)
    requires
        0 < d,
    ensures
        r as int == (a as int) / (d as int),
{
    proof {
        assert(i128::MIN * d <= i128::MIN) by (nonlinear_arith)
            requires
                1 <= d,
        ;
        assert(i128::MAX <= i128::MAX * d) by (nonlinear_arith)
            requires
                1 <= d,
        ;
        lemma_quotient_between(a as int, d as int, i128::MIN as int, i128::MAX as int);
    }
    match a.checked_div_euclid(d) {
        Some(q) => q,
        None => unreached(),
    }
}

} // verus!
