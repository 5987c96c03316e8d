//! Two-dimensional fixed-point vectors.

use vstd::prelude::*;

verus! {

/// Coordinate bound that every world position and offset respects.
/// It keeps squared distances inside `i128` and leaves generous head
/// room for per-tick motion (about sixteen million arena pixels).
pub const COORD_LIMIT: i64 = 0x100_0000_0000;

/// An ordered pair of fixed-point coordinates: a position, a heading or
/// a size, in units of `1/num::SCALE` of a pixel.
#[derive(Clone, Copy, PartialEq, Eq, Structural, Debug)]
pub struct Vec2 {
    pub x: i64,
    pub y: i64,
}

/// The square of `v`.
pub open spec fn sq(v: int) -> int {
    v * v
}

/// Squared Euclidean distance between `a` and `b`.
pub open spec fn dist2(a: Vec2, b: Vec2) -> int {
    sq(a.x - b.x) + sq(a.y - b.y)
}

/// Squared length of `v`.
pub open spec fn norm2(v: Vec2) -> int {
    sq(v.x as int) + sq(v.y as int)
}

/// Both coordinates of `v` lie within `bound`.
pub open spec fn coords_within(v: Vec2, bound: int) -> bool {
    -bound <= v.x <= bound && -bound <= v.y <= bound
}

/// Whether `a` and `b` lie within distance `radius` of each other,
/// compared on squared distances so that no root is taken.
pub fn within_distance(a: Vec2, b: Vec2, radius: i64) -> (hit: bool)
    requires
        coords_within(a, 0x200_0000_0000),
        coords_within(b, 0x200_0000_0000),
        0 <= radius <= COORD_LIMIT,
    ensures
        hit == (dist2(a, b) <= sq(radius as int)),
{
    let dx: i128 = (a.x as i128) - (b.x as i128);
    let dy: i128 = (a.y as i128) - (b.y as i128);
    proof {
        assert(dx * dx <= 0x10_0000_0000_0000_0000_0000 && dx * dx >= 0)
            by (nonlinear_arith)
            requires
                -0x400_0000_0000 <= dx <= 0x400_0000_0000,
        ;
        assert(dy * dy <= 0x10_0000_0000_0000_0000_0000 && dy * dy >= 0)
            by (nonlinear_arith)
            requires
                -0x400_0000_0000 <= dy <= 0x400_0000_0000,
        ;
        assert((radius as i128) * (radius as i128) <= 0x10000_0000_0000_0000_0000)
            by (nonlinear_arith)
            requires
                0 <= radius <= 0x100_0000_0000,
        ;
    }
    let d2: i128 = dx * dx + dy * dy;
    let r2: i128 = (radius as i128) * (radius as i128);
    d2 <= r2
}

} // verus!
