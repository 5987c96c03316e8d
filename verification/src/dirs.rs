//! The directional probe table.
//!
//! Every collision query samples eight fixed offsets around an agent's
//! centre: four diagonal offsets of radius `r` (legs of length
//! `normal_spec(r)`, the fixed-point `r / sqrt(2)`) and four axis offsets
//! of length `r`.  The table is a pure function of the probe radius, so
//! index `i` maps to the same geometric direction on every call.

use crate::num::normal;
use crate::num::normal_spec;
use crate::vec2::Vec2;
use vstd::prelude::*;

verus! {

/// The probe radius of the race, in fixed-point pixels: 36 pixels.
/// Also the collision radius for peer- and target-proximity tests.
pub const DIR_WIDTH: i64 = 36 * 65536;

/// Horizontal component of probe offset `i` for radius `r`.
pub open spec fn probe_dx(r: int, i: int) -> int {
    let n = normal_spec(r);
    if i == 0 {
        n
    } else if i == 1 {
        -n
    } else if i == 2 {
        n
    } else if i == 3 {
        -n
    } else if i == 4 {
        0
    } else if i == 5 {
        0
    } else if i == 6 {
        -r
    } else {
        r
    }
}

/// Vertical component of probe offset `i` for radius `r`.
pub open spec fn probe_dy(r: int, i: int) -> int {
    let n = normal_spec(r);
    if i == 0 {
        -n
    } else if i == 1 {
        n
    } else if i == 2 {
        n
    } else if i == 3 {
        -n
    } else if i == 4 {
        -r
    } else if i == 5 {
        r
    } else if i == 6 {
        0
    } else {
        0
    }
}

/// The eight probe offsets for radius `r`.  The result is a pure
/// function of `r`: repeated calls yield the same table.
pub fn dirs(r: i64) -> (ds: [Vec2; 8])
    requires
        0 < r <= crate::vec2::COORD_LIMIT,
    ensures
        forall|i: int|
            0 <= i < 8 ==> #[trigger] ds[i] == (Vec2 {
                x: probe_dx(r as int, i) as i64,
                y: probe_dy(r as int, i) as i64,
            }),
        forall|i: int|
            0 <= i < 8 ==> ds[i].x == probe_dx(r as int, i) && ds[i].y == probe_dy(
                r as int,
                i,
            ),
{
    let n: i64 = normal(r);
    let ds: [Vec2; 8] = [
        Vec2 { x: n, y: -n },
        Vec2 { x: -n, y: n },
        Vec2 { x: n, y: n },
        Vec2 { x: -n, y: -n },
        Vec2 { x: 0, y: -r },
        Vec2 { x: 0, y: r },
        Vec2 { x: -r, y: 0 },
        Vec2 { x: r, y: 0 },
    ];
    ds
}

/// Magnitudes of the probe offsets, for every radius `r > 0`:
/// each axis offset has squared magnitude exactly `r * r`; the four
/// diagonal offsets share the squared magnitude
/// `2 * normal_spec(r) * normal_spec(r)`, which matches `r * r` up to
/// the fixed-point quantum: never above it, and below it by at most a
/// `176096 / 65536^2` fraction (about four hundred-thousandths) plus a
/// linear sliver.
pub proof fn lemma_probe_magnitudes(r: int)
    requires
        0 < r <= crate::vec2::COORD_LIMIT,
    ensures
        forall|i: int|
            4 <= i < 8 ==> #[trigger] (probe_dx(r, i) * probe_dx(r, i) + probe_dy(r, i)
                * probe_dy(r, i)) == r * r,
        forall|i: int|
            0 <= i < 4 ==> #[trigger] (probe_dx(r, i) * probe_dx(r, i) + probe_dy(r, i)
                * probe_dy(r, i)) == 2 * (normal_spec(r) * normal_spec(r)),
        2 * (normal_spec(r) * normal_spec(r)) <= r * r,
        (65536 * 65536) * (2 * (normal_spec(r) * normal_spec(r))) >= (65536 * 65536) * (r * r)
            - 176096 * (r * r) - 12147752960 * r,
{
    let m = normal_spec(r);
    let a = r * 46340;
    vstd::arithmetic::div_mod::lemma_fundamental_div_mod(a, 65536);
    vstd::arithmetic::mul::lemma_mul_nonnegative(r, 46340);
    let rem = a % 65536;
    vstd::arithmetic::div_mod::lemma_mod_bound(a, 65536);
    let sm = 65536 * m;
    assert(sm == a - rem);
    assert(m >= 0) by {
        vstd::arithmetic::div_mod::lemma_div_pos_is_pos(a, 65536);
    }
    assert(a >= 46340) by (nonlinear_arith)
        requires
            a == r * 46340,
            r >= 1,
    ;
    assert(2 * (sm * sm) == 2 * (a * a) - 4 * (a * rem) + 2 * (rem * rem)) by (nonlinear_arith)
        requires
            sm == a - rem,
    ;
    vstd::arithmetic::mul::lemma_mul_is_associative(a, r, 46340);
    vstd::arithmetic::mul::lemma_mul_is_commutative(a, r);
    vstd::arithmetic::mul::lemma_mul_is_associative(r, r, 46340);
    assert(a * r == (r * r) * 46340);
    assert(a * a == ((r * r) * 46340) * 46340);
    vstd::arithmetic::mul::lemma_mul_is_associative(r * r, 46340, 46340);
    assert(a * a == (r * r) * (46340 * 46340));
    assert(2 * (a * a) == (65536 * 65536 - 176096) * (r * r)) by (nonlinear_arith)
        requires
            a * a == (r * r) * (46340 * 46340),
    ;
    assert(2 * (rem * rem) <= 4 * (a * rem)) by (nonlinear_arith)
        requires
            0 <= rem < 65536,
            a >= 46340,
    ;
    assert(2 * (sm * sm) == (65536 * 65536) * (2 * (m * m))) by (nonlinear_arith)
        requires
            sm == 65536 * m,
    ;
    assert((65536 * 65536) * (2 * (m * m)) <= (65536 * 65536 - 176096) * (r * r));
    assert((65536 * 65536 - 176096) * (r * r) <= (65536 * 65536) * (r * r)) by (nonlinear_arith)
        requires
            r >= 1,
    ;
    assert(2 * (m * m) <= r * r) by (nonlinear_arith)
        requires
            (65536 * 65536) * (2 * (m * m)) <= (65536 * 65536) * (r * r),
    ;
    assert(4 * (a * rem) <= 4 * (a * 65536)) by (nonlinear_arith)
        requires
            0 <= rem < 65536,
            a >= 0,
    ;
    assert(rem * rem >= 0) by (nonlinear_arith);
    assert(4 * (a * 65536) == 12147752960 * r) by (nonlinear_arith)
        requires
            a == r * 46340,
    ;
    assert((65536 * 65536) * (2 * (m * m)) >= (65536 * 65536) * (r * r) - 176096 * (r * r)
        - 12147752960 * r);
    assert forall|i: int|
        4 <= i < 8 implies #[trigger] (probe_dx(r, i) * probe_dx(r, i) + probe_dy(r, i)
        * probe_dy(r, i)) == r * r by {
        assert((-r) * (-r) == r * r) by (nonlinear_arith);
        assert(0 * 0 == 0) by (nonlinear_arith);
    }
    assert forall|i: int|
        0 <= i < 4 implies #[trigger] (probe_dx(r, i) * probe_dx(r, i) + probe_dy(r, i)
        * probe_dy(r, i)) == 2 * (normal_spec(r) * normal_spec(r)) by {
        assert((-m) * (-m) == m * m) by (nonlinear_arith);
    }
}

} // verus!
