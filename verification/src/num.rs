//! Fixed-point scalar arithmetic.
//!
//! World quantities are integers counted in units of `1/SCALE` (pixels,
//! seconds, or speed units per tick).  Division truncates toward zero, as
//! the underlying hardware division does, and `tdiv` is its exact
//! mathematical counterpart used throughout the contracts.

use vstd::prelude::*;

verus! {

/// One whole unit (pixel, second, ...) in fixed-point representation.
pub const SCALE: i64 = 65536;

/// Ceiling for every accumulated timer (about 2^30 seconds); timers
/// saturate here instead of overflowing.
pub const TIME_CAP: i64 = 0x4000_0000_0000;

/// Largest elapsed time a single tick may report: one hour.  A frame
/// time is wall-clock seconds in fixed point, so this is a machine
/// limit, not a rule of the race.
pub const ELAPSED_MAX: i64 = 3600 * 65536;

/// Truncating (toward zero) division, the mathematical model of the
/// executable `/` on signed integers.  `d` must be positive.
pub open spec fn tdiv(a: int, d: int) -> int {
    if a >= 0 {
        a / d
    } else {
        -((-a) / d)
    }
}

/// Clamp `v` into `[lo, hi]`.
pub open spec fn clamp_spec(v: int, lo: int, hi: int) -> int {
    if v < lo {
        lo
    } else if v > hi {
        hi
    } else {
        v
    }
}

/// Truncating division of `a` by a positive divisor `d`.
pub fn div_trunc(a: i64, d: i64) -> (r: i64)
    requires
        d > 0,
        a > i64::MIN,
    ensures
        r == tdiv(a as int, d as int),
{
    if a >= 0 {
        let q: u64 = (a as u64) / (d as u64);
        proof {
            vstd::arithmetic::div_mod::lemma_div_nonincreasing(a as int, d as int);
            vstd::arithmetic::div_mod::lemma_div_pos_is_pos(a as int, d as int);
        }
        q as i64
    } else {
        let neg: i64 = -a;
        let q: u64 = (neg as u64) / (d as u64);
        proof {
            vstd::arithmetic::div_mod::lemma_div_nonincreasing(neg as int, d as int);
            vstd::arithmetic::div_mod::lemma_div_pos_is_pos(neg as int, d as int);
        }
        -(q as i64)
    }
}

/// Truncating division never grows a value's magnitude, and keeps its
/// sign (or reaches zero).
pub proof fn lemma_tdiv_range(a: int, d: int)
    requires
        d >= 1,
    ensures
        a >= 0 ==> 0 <= tdiv(a, d) <= a,
        a < 0 ==> a <= tdiv(a, d) <= 0,
{
    if a >= 0 {
        vstd::arithmetic::div_mod::lemma_div_nonincreasing(a, d);
        vstd::arithmetic::div_mod::lemma_div_pos_is_pos(a, d);
    } else {
        vstd::arithmetic::div_mod::lemma_div_nonincreasing(-a, d);
        vstd::arithmetic::div_mod::lemma_div_pos_is_pos(-a, d);
    }
}

/// Clamp `v` into `[lo, hi]`.
pub fn clamp_i64(v: i64, lo: i64, hi: i64) -> (r: i64)
    requires
        lo <= hi,
    ensures
        r == clamp_spec(v as int, lo as int, hi as int),
{
    if v < lo {
        lo
    } else if v > hi {
        hi
    } else {
        v
    }
}

/// The integer square root as a mathematical function: the unique
/// non-negative `r` with `r * r <= n < (r + 1) * (r + 1)`.
pub open spec fn sqrt_floor(n: int) -> int {
    choose|r: int| 0 <= r && #[trigger] (r * r) <= n < (r + 1) * (r + 1)
}

/// A root in the sense of `sqrt_floor` exists for every non-negative `n`.
pub proof fn lemma_sqrt_exists(n: int)
    requires
        n >= 0,
    ensures
        exists|r: int| 0 <= r && #[trigger] (r * r) <= n < (r + 1) * (r + 1),
    decreases n,
{
    if n == 0 {
        let z: int = 0;
        assert(z * z == 0 && (z + 1) * (z + 1) == 1) by (nonlinear_arith)
            requires
                z == 0,
        ;
        assert(0 <= z && z * z <= n < (z + 1) * (z + 1));
    } else {
        lemma_sqrt_exists(n - 1);
        let r = choose|r: int| 0 <= r && #[trigger] (r * r) <= n - 1 < (r + 1) * (r + 1);
        if n < (r + 1) * (r + 1) {
            assert(0 <= r && r * r <= n < (r + 1) * (r + 1));
        } else {
            assert(n == (r + 1) * (r + 1));
            assert((r + 1) * (r + 1) < (r + 2) * (r + 2)) by (nonlinear_arith)
                requires
                    r >= 0,
            ;
            assert(0 <= r + 1 && (r + 1) * (r + 1) <= n < (r + 2) * (r + 2));
        }
    }
}

/// The root in the sense of `sqrt_floor` is unique.
pub proof fn lemma_sqrt_unique(n: int, a: int, b: int)
    requires
        0 <= a && a * a <= n < (a + 1) * (a + 1),
        0 <= b && b * b <= n < (b + 1) * (b + 1),
    ensures
        a == b,
{
    if a < b {
        assert((a + 1) * (a + 1) <= b * b) by (nonlinear_arith)
            requires
                0 <= a < b,
        ;
    }
    if b < a {
        assert((b + 1) * (b + 1) <= a * a) by (nonlinear_arith)
            requires
                0 <= b < a,
        ;
    }
}

/// `sqrt_floor` satisfies its defining inequalities.
pub proof fn lemma_sqrt_bounds(n: int)
    requires
        n >= 0,
    ensures
        0 <= sqrt_floor(n),
        sqrt_floor(n) * sqrt_floor(n) <= n,
        n < (sqrt_floor(n) + 1) * (sqrt_floor(n) + 1),
{
    lemma_sqrt_exists(n);
}

/// Integer square root: the largest `r` with `r * r <= n`.
pub fn isqrt(n: u128) -> (r: u64)
    ensures
        r * r <= n,
        n < (r + 1) * (r + 1),
        r == sqrt_floor(n as int),
{
    let mut lo: u128 = 0;
    let mut hi: u128 = 0x1_0000_0000_0000_0000;
    while lo + 1 < hi
        invariant
            lo < hi,
            hi <= 0x1_0000_0000_0000_0000,
            lo * lo <= n,
            n < hi * hi,
        decreases hi - lo,
    {
        let mid: u128 = lo + (hi - lo) / 2;
        proof {
            vstd::arithmetic::mul::lemma_mul_upper_bound(
                mid as int,
                0xFFFF_FFFF_FFFF_FFFF,
                mid as int,
                0xFFFF_FFFF_FFFF_FFFF,
            );
        }
        let sq: u128 = mid * mid;
        if sq <= n {
            lo = mid;
        } else {
            hi = mid;
        }
    }
    proof {
        lemma_sqrt_bounds(n as int);
        lemma_sqrt_unique(n as int, lo as int, sqrt_floor(n as int));
    }
    lo as u64
}

/// A component of a normalized vector is at most one fixed-point unit:
/// when `x * x <= n` and `l` is the integer square root of `n`, the
/// scaled quotient `x * 65536 / l` lies in `[-65536, 65536]`.
pub proof fn lemma_norm_component(x: int, n: int, l: int)
    requires
        x * x <= n,
        n < (l + 1) * (l + 1),
        l >= 1,
    ensures
        -65536 <= tdiv(x * 65536, l) <= 65536,
{
    assert(-(l + 1) < x < l + 1) by (nonlinear_arith)
        requires
            x * x <= n,
            n < (l + 1) * (l + 1),
            l >= 1,
    ;
    if x >= 0 {
        vstd::arithmetic::mul::lemma_mul_inequality(x, l, 65536);
        vstd::arithmetic::mul::lemma_mul_is_commutative(l, 65536);
        vstd::arithmetic::div_mod::lemma_div_is_ordered(x * 65536, l * 65536, l);
        vstd::arithmetic::div_mod::lemma_div_multiples_vanish(65536, l);
        vstd::arithmetic::div_mod::lemma_div_pos_is_pos(x * 65536, l);
        vstd::arithmetic::mul::lemma_mul_nonnegative(x, 65536);
    } else {
        vstd::arithmetic::mul::lemma_mul_inequality(-x, l, 65536);
        vstd::arithmetic::mul::lemma_mul_is_commutative(l, 65536);
        vstd::arithmetic::div_mod::lemma_div_is_ordered((-x) * 65536, l * 65536, l);
        vstd::arithmetic::div_mod::lemma_div_multiples_vanish(65536, l);
        vstd::arithmetic::div_mod::lemma_div_pos_is_pos((-x) * 65536, l);
        vstd::arithmetic::mul::lemma_mul_nonnegative(-x, 65536);
        assert(x * 65536 == -((-x) * 65536)) by (nonlinear_arith);
    }
}

/// Squared bounds for one normalized component: with `q` the truncated
/// quotient `x * 65536 / l`, the product `l * q` squares to at most
/// `(x * 65536)^2`, and falls short of it by at most `2 * |x| * 65536 * l`.
pub proof fn lemma_norm_component_sq(x: int, l: int)
    requires
        l >= 1,
    ensures
        ({
            let q = tdiv(x * 65536, l);
            let ax = if x >= 0 {
                x
            } else {
                -x
            };
            &&& (l * l) * (q * q) <= (x * x) * 0x1_0000_0000
            &&& (l * l) * (q * q) >= (x * x) * 0x1_0000_0000 - (131072 * ax) * l
        }),
    decreases (if x < 0 {
        1int
    } else {
        0int
    }),
{
    if x >= 0 {
        let a = x * 65536;
        let q = tdiv(a, l);
        vstd::arithmetic::mul::lemma_mul_nonnegative(x, 65536);
        assert(q == a / l);
        vstd::arithmetic::div_mod::lemma_fundamental_div_mod(a, l);
        vstd::arithmetic::div_mod::lemma_mod_bound(a, l);
        vstd::arithmetic::div_mod::lemma_div_pos_is_pos(a, l);
        let r = a % l;
        assert(l * q == a - r);
        assert(l * q >= 0) by (nonlinear_arith)
            requires
                l >= 1,
                q >= 0,
        ;
        assert((l * q) * (l * q) <= a * a) by (nonlinear_arith)
            requires
                0 <= l * q <= a,
        ;
        assert((l * q) * (l * q) >= a * a - (131072 * x) * l) by (nonlinear_arith)
            requires
                l * q == a - r,
                0 <= r < l,
                a == x * 65536,
                x >= 0,
                l >= 1,
        ;
        assert((l * q) * (l * q) == (l * l) * (q * q)) by (nonlinear_arith);
        assert(a * a == (x * x) * 0x1_0000_0000) by (nonlinear_arith)
            requires
                a == x * 65536,
        ;
    } else {
        lemma_norm_component_sq(-x, l);
        let q = tdiv(x * 65536, l);
        let q2 = tdiv((-x) * 65536, l);
        assert(-(x * 65536) == (-x) * 65536) by (nonlinear_arith);
        assert(q == -q2);
        assert((l * l) * (q * q) == (l * l) * (q2 * q2)) by (nonlinear_arith)
            requires
                q == -q2,
        ;
        assert(x * x == (-x) * (-x)) by (nonlinear_arith);
    }
}

/// Fixed-point scaling by `1/sqrt(2)`: `floor(num * 46340 / 65536)`.
/// This is the length of each leg of a diagonal probe offset of radius
/// `num` (see the probe table).
pub open spec fn normal_spec(num: int) -> int {
    (num * 46340) / 65536
}

/// Executable `1/sqrt(2)` scaling of a non-negative fixed-point value.
pub fn normal(num: i64) -> (r: i64)
    requires
        0 <= num <= 0x4000_0000_0000,
    ensures
        r == normal_spec(num as int),
        0 <= r <= num,
{
    let prod: u64 = (num as u64) * 46340;
    let q: u64 = prod / 65536;
    proof {
        vstd::arithmetic::mul::lemma_mul_inequality(46340, 65536, num as int);
        vstd::arithmetic::div_mod::lemma_div_is_ordered(
            num as int * 46340,
            num as int * 65536,
            65536,
        );
        vstd::arithmetic::div_mod::lemma_div_multiples_vanish(num as int, 65536);
        vstd::arithmetic::div_mod::lemma_div_pos_is_pos(num as int * 46340, 65536);
        vstd::arithmetic::mul::lemma_mul_nonnegative(num as int, 46340);
    }
    q as i64
}

} // verus!
