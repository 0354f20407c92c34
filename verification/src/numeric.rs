//! Shared integer arithmetic: scales, bounds, clamping, exact division
//! helpers and an integer square root.

use vstd::prelude::*;

verus! {

/// Power scale: one kilowatt in milli-kilowatts.
pub const KW: i64 = 1000;

/// Ratio scale: the whole, in parts per million.
pub const PPM: i64 = 1_000_000;

/// One day in milli-hours.
pub const DAY_MILLI_HOURS: i64 = 24_000;

/// Largest power magnitude (milli-kW) the simulator accepts; keeps every
/// energy product within `i64`.
pub const POWER_LIMIT: i64 = 100_000_000;

/// Largest energy magnitude (micro-kWh) the simulator accepts for
/// capacities and demands.
pub const ENERGY_LIMIT: i64 = 1_000_000_000_000;

/// Largest power magnitude (milli-kW) a single aggregated flow may reach:
/// device outputs stay within it, so sums of a handful of them fit easily.
pub const FLOW_LIMIT: i64 = 1_000_000_000;

/// The sum of a sequence of values.
pub open spec fn sum_seq(s: Seq<i64>) -> int
    decreases s.len(),
{
    if s.len() == 0 {
        0
    } else {
        sum_seq(s.drop_last()) + s.last()
    }
}

/// Clamp `x` into `[lo, hi]`.
pub open spec fn clamp_spec(x: int, lo: int, hi: int) -> int {
    if x < lo {
        lo
    } else if x > hi {
        hi
    } else {
        x
    }
}

/// Clamp `x` into `[lo, hi]` (callers must order the bounds).
pub fn clamp_i64(x: i64, lo: i64, hi: i64) -> (r: i64)
    requires
        lo <= hi,
    ensures
        r == clamp_spec(x as int, lo as int, hi as int),
{
    if x < lo {
        lo
    } else if x > hi {
        hi
    } else {
        x
    }
}

/// Larger of two values.
pub fn max_i64(a: i64, b: i64) -> (r: i64)
    ensures
        r == vstd::math::max(a as int, b as int),
{
    if a >= b {
        a
    } else {
        b
    }
}

/// Smaller of two values.
pub fn min_i64(a: i64, b: i64) -> (r: i64)
    ensures
        r == vstd::math::min(a as int, b as int),
{
    if a <= b {
        a
    } else {
        b
    }
}

/// Scaling a non-negative value by a ratio at most one never enlarges it.
pub proof fn lemma_scaled_le(v: int, s: int, d: int)
    requires
        0 <= v,
        0 <= s <= d,
        0 < d,
    ensures
        0 <= v * s / d <= v,
{
    assert(0 <= v * s / d <= v) by (nonlinear_arith)
        requires
            0 <= v,
            0 <= s <= d,
            0 < d,
    ;
}

/// Scaling is monotone in the value being scaled.
pub proof fn lemma_mul_div_le(x: int, c: int, s: int, d: int)
    requires
        0 <= x <= c,
        0 <= s,
        0 < d,
    ensures
        0 <= x * s / d <= c * s / d,
{
    vstd::arithmetic::mul::lemma_mul_nonnegative(x, s);
    vstd::arithmetic::mul::lemma_mul_inequality(x, c, s);
    vstd::arithmetic::div_mod::lemma_div_is_ordered(0, x * s, d);
    vstd::arithmetic::div_mod::lemma_div_is_ordered(x * s, c * s, d);
}

/// Division of a possibly negative value by a positive one, rounding
/// toward zero.
pub open spec fn div_trunc_spec(x: int, d: int) -> int
    recommends
        d > 0,
{
    if x >= 0 {
        x / d
    } else {
        -((-x) / d)
    }
}

/// Division rounding toward zero; the result magnitude never exceeds the
/// operand magnitude.
pub fn div_trunc(x: i64, d: i64) -> (r: i64)
    requires
        d > 0,
        i64::MIN < x,
    ensures
        r == div_trunc_spec(x as int, d as int),
        x >= 0 ==> 0 <= r <= x,
        x < 0 ==> x <= r <= 0,
{
    if x >= 0 {
        x / d
    } else {
        -((-x) / d)
    }
}

/// Floor division of non-negative operands.
pub fn div_floor(a: i64, b: i64) -> (r: i64)
    requires
        a >= 0,
        b > 0,
    ensures
        r == a as int / b as int,
        0 <= r <= a,
{
    a / b
}

/// Ceiling division of non-negative operands.
pub open spec fn div_ceil_spec(a: int, b: int) -> int
    recommends
        a >= 0,
        b > 0,
{
    (a + b - 1) / b
}

/// Ceiling division of non-negative operands.
pub fn div_ceil(a: i64, b: i64) -> (r: i64)
    requires
        0 <= a,
        0 < b,
        a + b <= i64::MAX,
    ensures
        r == div_ceil_spec(a as int, b as int),
        0 <= r,
        r * b >= a,
        (r - 1) * b < a,
{
    let r = (a + (b - 1)) / b;
    proof {
        let ai = a as int;
        let bi = b as int;
        vstd::arithmetic::div_mod::lemma_fundamental_div_mod(ai + bi - 1, bi);
        vstd::arithmetic::div_mod::lemma_mod_bound(ai + bi - 1, bi);
        let q = (ai + bi - 1) / bi;
        let m = (ai + bi - 1) % bi;
        assert(q * bi >= ai && (q - 1) * bi < ai) by (nonlinear_arith)
            requires
                ai + bi - 1 == bi * q + m,
                0 <= m < bi,
        ;
    }
    r
}

/// The floor of the square root of `x`.
pub open spec fn isqrt_spec(x: nat) -> nat
    decreases x,
{
    if x == 0 {
        0
    } else {
        let r = isqrt_spec((x - 1) as nat);
        if (r + 1) * (r + 1) <= x {
            r + 1
        } else {
            r
        }
    }
}

/// The square-root floor is the unique value whose square brackets `x`.
pub proof fn lemma_isqrt_spec_bounds(x: nat)
    ensures
        isqrt_spec(x) * isqrt_spec(x) <= x,
        x < (isqrt_spec(x) + 1) * (isqrt_spec(x) + 1),
    decreases x,
{
    if x == 0 {
        assert(isqrt_spec(0) == 0);
        assert(isqrt_spec(x) == 0);
        assert((0 + 1) * (0 + 1) == 1) by (nonlinear_arith);
    } else {
        lemma_isqrt_spec_bounds((x - 1) as nat);
        let r = isqrt_spec((x - 1) as nat);
        let rx = isqrt_spec(x);
        if (r + 1) * (r + 1) <= x {
            assert(rx == r + 1);
            assert(x < (r + 2) * (r + 2)) by (nonlinear_arith)
                requires
                    x <= (r + 1) * (r + 1),
            ;
            assert((rx + 1) * (rx + 1) == (r + 2) * (r + 2)) by (nonlinear_arith)
                requires
                    rx == r + 1,
            ;
        } else {
            assert(rx == r);
            assert(rx * rx <= x);
            assert(x < (rx + 1) * (rx + 1));
        }
    }
}

/// Two square-root floors of the same value agree.
pub proof fn lemma_isqrt_unique(x: nat, a: nat, b: nat)
    requires
        a * a <= x < (a + 1) * (a + 1),
        b * b <= x < (b + 1) * (b + 1),
    ensures
        a == b,
{
    assert(a == b) by (nonlinear_arith)
        requires
            a * a <= x < (a + 1) * (a + 1),
            b * b <= x < (b + 1) * (b + 1),
    ;
}

/// The floor of the square root, by bisection.
pub fn isqrt_u64(x: u64) -> (r: u64)
    ensures
        r as nat == isqrt_spec(x as nat),
        (r as int) * (r as int) <= x as int,
        (x as int) < (r as int + 1) * (r as int + 1),
        r <= 4_294_967_296,
{
    let mut lo: u64 = 0;
    let mut hi: u64 = 4_294_967_296;
    proof {
        assert(x < 4_294_967_296int * 4_294_967_296int) by (nonlinear_arith)
            requires
                x <= u64::MAX,
        ;
    }
    while lo + 1 < hi
        invariant
            0 <= lo < hi <= 4_294_967_296,
            (lo as int) * (lo as int) <= x as int,
            (x as int) < (hi as int) * (hi as int),
        decreases hi - lo,
    {
        let mid = lo + (hi - lo) / 2;
        proof {
            assert(lo < mid < hi);
            assert((mid as int) * (mid as int) < 4_294_967_296int * 4_294_967_296int)
                by (nonlinear_arith)
                requires
                    0 <= mid as int,
                    (mid as int) < 4_294_967_296int,
            ;
        }
        if mid * mid <= x {
            lo = mid;
        } else {
            hi = mid;
        }
    }
    proof {
        lemma_isqrt_spec_bounds(x as nat);
        lemma_isqrt_unique(x as nat, lo as nat, isqrt_spec(x as nat));
    }
    lo
}

} // verus!
