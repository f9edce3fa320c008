//! Fixed-point scalar arithmetic.
//!
//! Every physical quantity in this crate is a signed integer holding
//! [`FX_SCALE`] raw steps per unit.  All rounding is toward zero, and each
//! executable operation's contract states the exact rounded value through
//! [`div_trunc`], so callers reason about the arithmetic with no slack.

use vstd::arithmetic::div_mod::{
    lemma_div_is_ordered, lemma_div_is_ordered_by_denominator, lemma_div_nonincreasing,
    lemma_div_pos_is_pos, lemma_fundamental_div_mod, lemma_multiply_divide_le,
    lemma_multiply_divide_lt, lemma_remainder_lower, lemma_remainder_upper,
};
use vstd::prelude::*;

verus! {

/// Raw steps per one unit of a fixed-point quantity.
pub const FX_SCALE: i64 = 1_000_000;

/// Largest raw magnitude the fixed-point multiplier accepts: the product of
/// two such values, scaled back down, still fits in an `i64`.
pub const FX_MAX: i64 = 3_000_000_000_000;

/// Raw magnitude bound for world positions and aim points.
pub const FX_POS_MAX: i64 = 10_000_000_000;

/// Raw magnitude bound for axis and direction vectors (a few units long).
pub const FX_AXIS_MAX: i64 = 10_000_000;

/// Smallest vertical component an up axis may have before the horizontal
/// plane projection is treated as degenerate: below this the truncating
/// quotient no longer fits the fixed-point range.
pub const FX_UP_MIN: i64 = 250_000;

/// Absolute value over the mathematical integers.
pub open spec fn iabs(a: int) -> int {
    if a < 0 {
        -a
    } else {
        a
    }
}

/// Division rounded toward zero: the rounding of every fixed-point operation
/// in this crate.
pub open spec fn div_trunc(a: int, b: int) -> int
    recommends
        b != 0,
{
    let q = iabs(a) / iabs(b);
    if (a < 0) == (b < 0) {
        q
    } else {
        -q
    }
}

/// Product of two fixed-point values, brought back to the fixed-point scale.
pub open spec fn mul_fx_s(a: int, b: int) -> int {
    div_trunc(a * b, FX_SCALE as int)
}

/// The magnitude of a truncating quotient: it never exceeds the magnitude of
/// the dividend, and multiplied back by the divisor it stays below the
/// dividend.
pub proof fn lemma_div_trunc_magnitude(a: int, b: int)
    requires
        b != 0,
    ensures
        iabs(div_trunc(a, b)) == iabs(a) / iabs(b),
        iabs(div_trunc(a, b)) * iabs(b) <= iabs(a),
        iabs(a) - iabs(b) < iabs(div_trunc(a, b)) * iabs(b),
        iabs(div_trunc(a, b)) <= iabs(a),
{
    let ua = iabs(a);
    let ub = iabs(b);
    lemma_div_pos_is_pos(ua, ub);
    lemma_fundamental_div_mod(ua, ub);
    lemma_remainder_upper(ua, ub);
    lemma_remainder_lower(ua, ub);
    lemma_div_nonincreasing(ua, ub);
}

/// A truncating quotient, multiplied back by the divisor, lands within one
/// divisor step of the dividend.
pub proof fn lemma_div_trunc_residual(a: int, b: int)
    requires
        b != 0,
    ensures
        iabs(div_trunc(a, b) * b - a) < iabs(b),
{
    let ua = iabs(a);
    let ub = iabs(b);
    lemma_fundamental_div_mod(ua, ub);
    lemma_remainder_upper(ua, ub);
    lemma_remainder_lower(ua, ub);
    let q = ua / ub;
    let r = ua - ub * q;
    assert(0 <= r < ub);
    let d = div_trunc(a, b);
    if a >= 0 && b > 0 {
        assert(d * b - a == -r) by (nonlinear_arith)
            requires
                d == q,
                a == ub * q + r,
                b == ub,
        ;
    } else if a >= 0 && b < 0 {
        assert(d * b - a == -r) by (nonlinear_arith)
            requires
                d == -q,
                a == ub * q + r,
                b == -ub,
        ;
    } else if a < 0 && b > 0 {
        assert(d * b - a == r) by (nonlinear_arith)
            requires
                d == -q,
                -a == ub * q + r,
                b == ub,
        ;
    } else {
        assert(d * b - a == r) by (nonlinear_arith)
            requires
                d == q,
                -a == ub * q + r,
                b == -ub,
        ;
    }
}

/// A product scaled down by a divisor no smaller than one factor's magnitude
/// stays within the other factor.
pub proof fn lemma_div_trunc_prod_le(x: int, m: int, l: int)
    requires
        0 < l,
        iabs(x) <= l,
        0 <= m,
    ensures
        iabs(div_trunc(x * m, l)) <= m,
{
    lemma_div_trunc_magnitude(x * m, l);
    assert(iabs(x * m) <= l * m) by (nonlinear_arith)
        requires
            iabs(x) <= l,
            0 <= m,
    ;
    lemma_multiply_divide_le(iabs(x * m), l, m);
}

/// From the magnitude inequality `|a|·q <= |b|` the squared form follows.
pub proof fn lemma_sq_prod_le(a: int, b: int, q: int)
    requires
        iabs(a) * q <= iabs(b),
        0 <= q,
    ensures
        (a * a) * (q * q) <= b * b,
{
    let ua = iabs(a);
    let ub = iabs(b);
    assert(ua == a || ua == -a);
    assert(ub == b || ub == -b);
    assert((a * a) * (q * q) <= b * b) by (nonlinear_arith)
        requires
            ua == a || ua == -a,
            ub == b || ub == -b,
            0 <= ua,
            0 <= ub,
            0 <= q,
            ua * q <= ub,
    ;
}

/// A fixed-point product of non-negative factors is non-negative.
pub proof fn lemma_mul_fx_nonneg(a: int, b: int)
    requires
        0 <= a,
        0 <= b,
    ensures
        0 <= mul_fx_s(a, b),
{
    assert(0 <= a * b) by (nonlinear_arith)
        requires
            0 <= a,
            0 <= b,
    ;
    lemma_div_pos_is_pos(a * b, FX_SCALE as int);
}

/// Scaling by a fixed-point factor strictly below one shrinks any non-zero
/// value and annihilates zero.
pub proof fn lemma_mul_fx_shrinks(v: int, k: int)
    requires
        0 <= k <= FX_SCALE as int,
    ensures
        iabs(mul_fx_s(v, k)) <= iabs(v),
        (v != 0 && k < FX_SCALE as int) ==> iabs(mul_fx_s(v, k)) < iabs(v),
        v == 0 ==> mul_fx_s(v, k) == 0,
{
    lemma_div_trunc_magnitude(v * k, FX_SCALE as int);
    if v == 0 {
        assert(v * k == 0) by (nonlinear_arith)
            requires
                v == 0,
        ;
    } else {
        assert(iabs(v * k) == iabs(v) * k) by (nonlinear_arith)
            requires
                0 <= k,
        ;
        assert(iabs(v) * k <= (FX_SCALE as int) * iabs(v)) by (nonlinear_arith)
            requires
                0 <= k <= FX_SCALE as int,
                1 <= iabs(v),
        ;
        lemma_multiply_divide_le(iabs(v * k), FX_SCALE as int, iabs(v));
        if k < FX_SCALE as int {
            assert(iabs(v) * k < (FX_SCALE as int) * iabs(v)) by (nonlinear_arith)
                requires
                    k < FX_SCALE as int,
                    1 <= iabs(v),
            ;
            lemma_multiply_divide_lt(iabs(v * k), FX_SCALE as int, iabs(v));
        }
    }
}

/// Propagates magnitude bounds through a truncating division.
pub proof fn lemma_div_trunc_le(a: int, b: int, bound_a: int, bound_b: int)
    requires
        b != 0,
        iabs(a) <= bound_a,
        0 < bound_b <= iabs(b),
    ensures
        iabs(div_trunc(a, b)) <= bound_a / bound_b,
{
    lemma_div_trunc_magnitude(a, b);
    lemma_div_is_ordered(iabs(a), bound_a, iabs(b));
    lemma_div_is_ordered_by_denominator(bound_a, bound_b, iabs(b));
}

/// Propagates magnitude bounds through a fixed-point multiplication.
pub proof fn lemma_mul_fx_bound(a: int, b: int, bound_a: int, bound_b: int)
    requires
        iabs(a) <= bound_a,
        iabs(b) <= bound_b,
    ensures
        iabs(mul_fx_s(a, b)) <= (bound_a * bound_b) / (FX_SCALE as int),
{
    assert(iabs(a * b) <= bound_a * bound_b) by (nonlinear_arith)
        requires
            iabs(a) <= bound_a,
            iabs(b) <= bound_b,
    ;
    lemma_div_trunc_le(a * b, FX_SCALE as int, bound_a * bound_b, FX_SCALE as int);
}

/// Negating either factor negates the scaled product.
pub proof fn lemma_mul_fx_neg(a: int, b: int)
    ensures
        mul_fx_s(-a, b) == -mul_fx_s(a, b),
        mul_fx_s(a, -b) == -mul_fx_s(a, b),
{
    assert(iabs(-a * b) == iabs(a * b) && iabs(a * -b) == iabs(a * b)) by (nonlinear_arith);
    assert((-a) * b == -(a * b) && a * (-b) == -(a * b)) by (nonlinear_arith);
}

/// Magnitude of a signed value as an unsigned 128-bit integer.
fn abs_u128_of_i128(a: i128) -> (r: u128)
    requires
        a != i128::MIN,
    ensures
        r == iabs(a as int),
{
    if a >= 0 {
        a as u128
    } else {
        (-a) as u128
    }
}

/// Truncating division of signed 128-bit values, computed on magnitudes.
pub fn div_trunc_i128(a: i128, b: i128) -> (r: i128)
    requires
        b != 0,
        a != i128::MIN,
        b != i128::MIN,
    ensures
        r == div_trunc(a as int, b as int),
{
    let ua = abs_u128_of_i128(a);
    let ub = abs_u128_of_i128(b);
    let q = ua / ub;
    proof {
        lemma_div_nonincreasing(ua as int, ub as int);
        lemma_div_pos_is_pos(ua as int, ub as int);
    }
    if (a < 0) != (b < 0) {
        -(q as i128)
    } else {
        q as i128
    }
}

/// Fixed-point multiply: the exact product scaled back down, rounded toward
/// zero.
pub fn mul_fx(a: i64, b: i64) -> (r: i64)
    requires
        -FX_MAX <= a <= FX_MAX,
        -FX_MAX <= b <= FX_MAX,
    ensures
        r == mul_fx_s(a as int, b as int),
{
    proof {
        assert(iabs((a as int) * (b as int)) <= (FX_MAX as int) * (FX_MAX as int))
            by (nonlinear_arith)
            requires
                -FX_MAX <= a <= FX_MAX,
                -FX_MAX <= b <= FX_MAX,
        ;
        lemma_div_trunc_le(
            (a as int) * (b as int),
            FX_SCALE as int,
            (FX_MAX as int) * (FX_MAX as int),
            FX_SCALE as int,
        );
    }
    let p: i128 = (a as i128) * (b as i128);
    let q: i128 = div_trunc_i128(p, FX_SCALE as i128);
    q as i64
}

/// Floor square root, as the unique non-negative integer whose square
/// brackets the input.
pub open spec fn sqrt_floor(n: int) -> int
    recommends
        n >= 0,
{
    choose|r: int| 0 <= r && #[trigger] (r * r) <= n && n < (r + 1) * (r + 1)
}

/// Ceiling square root: the floor root, bumped by one unless it is exact.
pub open spec fn sqrt_ceil(n: int) -> int
    recommends
        n >= 0,
{
    let r = sqrt_floor(n);
    if r * r == n {
        r
    } else {
        r + 1
    }
}

/// A value whose square brackets `n` is the floor square root of `n`.
pub proof fn lemma_sqrt_floor_is(n: int, r: int)
    requires
        0 <= r,
        r * r <= n,
        n < (r + 1) * (r + 1),
    ensures
        sqrt_floor(n) == r,
{
    assert(exists|x: int| 0 <= x && #[trigger] (x * x) <= n && n < (x + 1) * (x + 1)) by {
        assert(0 <= r && r * r <= n && n < (r + 1) * (r + 1));
    }
    let c = sqrt_floor(n);
    assert(0 <= c && c * c <= n && n < (c + 1) * (c + 1));
    assert(c == r) by (nonlinear_arith)
        requires
            0 <= r,
            0 <= c,
            r * r <= n,
            n < (r + 1) * (r + 1),
            c * c <= n,
            n < (c + 1) * (c + 1),
    ;
}

/// Every non-negative integer has a floor square root with the bracketing
/// property.
pub proof fn lemma_sqrt_floor_props(n: int)
    requires
        0 <= n,
    ensures
        ({
            let r = sqrt_floor(n);
            0 <= r && r * r <= n && n < (r + 1) * (r + 1)
        }),
    decreases n,
{
    if n == 0 {
        lemma_sqrt_floor_is(0, 0);
    } else {
        lemma_sqrt_floor_props(n - 1);
        let r = sqrt_floor(n - 1);
        if (r + 1) * (r + 1) <= n {
            assert(n == (r + 1) * (r + 1));
            assert(n < (r + 2) * (r + 2)) by (nonlinear_arith)
                requires
                    0 <= r,
                    n == (r + 1) * (r + 1),
            ;
            lemma_sqrt_floor_is(n, r + 1);
        } else {
            lemma_sqrt_floor_is(n, r);
        }
    }
}

/// The ceiling square root brackets its input from above and is positive for
/// positive input.
pub proof fn lemma_sqrt_ceil_props(n: int)
    requires
        0 <= n,
    ensures
        ({
            let c = sqrt_ceil(n);
            0 <= c && n <= c * c && (1 <= n ==> 1 <= c)
        }),
{
    lemma_sqrt_floor_props(n);
    let r = sqrt_floor(n);
    if r * r != n {
        assert(n <= (r + 1) * (r + 1));
    }
    if 1 <= n && sqrt_ceil(n) == 0 {
        assert(r == 0);
        assert(n < 1);
    }
}

/// Floor square root of an unsigned 128-bit value, by bisection.
pub fn isqrt_u128(n: u128) -> (r: u128)
    ensures
        r == sqrt_floor(n as int),
        r < 18446744073709551616,
        (r as int) * (r as int) <= n as int,
        (n as int) < ((r as int) + 1) * ((r as int) + 1),
{
    let mut lo: u128 = 0;
    let mut hi: u128 = 18446744073709551616;
    proof {
        assert((n as int) < 18446744073709551616 * 18446744073709551616) by (nonlinear_arith)
            requires
                n <= u128::MAX,
        ;
    }
    while hi - lo > 1
        invariant
            0 <= lo < hi <= 18446744073709551616,
            (lo as int) * (lo as int) <= n as int,
            (n as int) < (hi as int) * (hi as int),
        decreases hi - lo,
    {
        let mid: u128 = lo + (hi - lo) / 2;
        proof {
            assert((mid as int) * (mid as int) < 18446744073709551616 * 18446744073709551616)
                by (nonlinear_arith)
                requires
                    0 <= mid < 18446744073709551616,
            ;
        }
        if mid * mid <= n {
            lo = mid;
        } else {
            hi = mid;
        }
    }
    proof {
        lemma_sqrt_floor_is(n as int, lo as int);
    }
    lo
}

/// Ceiling square root of an unsigned 128-bit value.
pub fn isqrt_ceil_u128(n: u128) -> (r: u128)
    ensures
        r == sqrt_ceil(n as int),
        r <= 18446744073709551616,
        (n as int) <= (r as int) * (r as int),
{
    let f = isqrt_u128(n);
    if f * f == n {
        f
    } else {
        proof {
            assert((f as int) * (f as int) <= u128::MAX) by (nonlinear_arith)
                requires
                    (f as int) * (f as int) <= n as int,
                    n <= u128::MAX,
            ;
        }
        f + 1
    }
}

} // verus!
