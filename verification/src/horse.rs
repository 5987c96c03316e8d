//! The horse agent: motion, collision queries and the bounce response.
//!
//! An agent carries a position, a unit-scaled heading, a speed and a win
//! payload.  Each tick it moves along its heading, scaled by the elapsed
//! time; collisions against walls and peers are probed through the eight
//! offsets of the probe table; a non-empty fused mask triggers a bounce,
//! which steers the agent away from the sum of the blocked directions
//! plus a random jitter and resets its speed.

use crate::arena::Arena;
use crate::data::WinData;
use crate::dirs::DIR_WIDTH;
use crate::dirs::dirs;
use crate::dirs::probe_dx;
use crate::dirs::probe_dy;
use crate::mask::Collisions;
use crate::mask::NO_COLLISION;
use crate::mask::nth_bit;
use crate::mask::or_bit;
use crate::mask::test_bit;
use crate::num::SCALE;
use crate::num::clamp_spec;
use crate::num::tdiv;
use crate::vec2::COORD_LIMIT;
use crate::vec2::Vec2;
use crate::vec2::coords_within;
use crate::vec2::dist2;
use crate::vec2::sq;
use crate::victory::Carrots;
use vstd::prelude::*;

verus! {

/// Top speed of an agent, in fixed-point units (3.5).
pub const SPEED_CAP: i64 = 229376;

/// Ceiling of the normalized elapsed-time factor, in fixed-point
/// units (4): stutters longer than four reference ticks move an agent no
/// further than four ticks would.
pub const NE_CAP: i64 = 262144;

/// One race participant.
pub struct Horse {
    pub pos: Vec2,
    pub dir: Vec2,
    pub speed: i64,
    pub win_data: WinData,
}

/// The normalized elapsed-time factor: `elapsed` (fixed-point seconds)
/// times the reference tick rate of 60 per second, clamped to
/// `[0, NE_CAP]`.
pub open spec fn ne_spec(elapsed: int) -> int {
    clamp_spec(elapsed * 60, 0, NE_CAP as int)
}

/// Speed after one motion update: grown by a hundredth of the normalized
/// elapsed factor, capped at `SPEED_CAP`.
pub open spec fn speed_after(speed: int, ne: int) -> int {
    if speed + ne / 100 > SPEED_CAP {
        SPEED_CAP as int
    } else {
        speed + ne / 100
    }
}

/// One position component after a motion update: the heading component
/// times speed times the normalized elapsed factor times two, rescaled,
/// added to the old component and kept inside the coordinate range.
pub open spec fn moved_coord(p: int, dir_c: int, speed: int, ne: int) -> int {
    clamp_spec(
        p + tdiv(dir_c * speed * ne * 2, 0x1_0000_0000),
        -COORD_LIMIT as int,
        COORD_LIMIT as int,
    )
}

/// Two agents are the same participant for collision purposes when
/// position, heading and speed all agree (the win payload is excluded).
pub open spec fn motion_eq(a: Horse, b: Horse) -> bool {
    a.pos == b.pos && a.dir == b.dir && a.speed == b.speed
}

impl Clone for Horse {
    /// An exact copy of the agent.
    fn clone(&self) -> (r: Self)
        ensures
            r == *self,
    {
        Horse {
            pos: self.pos,
            dir: self.dir,
            speed: self.speed,
            win_data: self.win_data.clone(),
        }
    }
}

impl PartialEq for Horse {
    /// Equality used to exclude an agent from its own peer queries.
    fn eq(&self, other: &Self) -> (r: bool) {
        self.pos == other.pos && self.dir == other.dir && self.speed == other.speed
    }
}

impl vstd::std_specs::cmp::PartialEqSpecImpl for Horse {
    open spec fn obeys_eq_spec() -> bool {
        true
    }

    open spec fn eq_spec(&self, other: &Horse) -> bool {
        motion_eq(*self, *other)
    }
}

impl Horse {
    /// Well-formedness: the position is in the coordinate range, the
    /// heading's components are at most one unit, and the speed lies
    /// between zero and the cap.
    pub open spec fn wf(self) -> bool {
        &&& coords_within(self.pos, COORD_LIMIT as int)
        &&& coords_within(self.dir, SCALE as int)
        &&& 0 <= self.speed <= SPEED_CAP
    }

    /// Integrate one tick of motion: the position advances along the
    /// heading by `speed * ne * 2` (in fixed point), and the speed grows
    /// by `ne / 100` toward its cap; the speed never decreases here.
    pub fn update(&mut self, elapsed: i64)
        requires
            old(self).wf(),
            0 <= elapsed,
        ensures
            final(self).wf(),
            final(self).pos.x == moved_coord(
                old(self).pos.x as int,
                old(self).dir.x as int,
                old(self).speed as int,
                ne_spec(elapsed as int),
            ),
            final(self).pos.y == moved_coord(
                old(self).pos.y as int,
                old(self).dir.y as int,
                old(self).speed as int,
                ne_spec(elapsed as int),
            ),
            final(self).speed == speed_after(old(self).speed as int, ne_spec(elapsed as int)),
            old(self).speed <= final(self).speed <= SPEED_CAP,
            final(self).dir == old(self).dir,
            final(self).win_data == old(self).win_data,
    {
        let ne: i64 = if elapsed >= 4370 {
            NE_CAP
        } else {
            elapsed * 60
        };
        proof {
            if elapsed >= 4370 {
                assert(elapsed * 60 >= 4370 * 60);
            }
            assert(ne == ne_spec(elapsed as int));
        }
        let dx: i64 = motion_step(self.dir.x, self.speed, ne);
        let dy: i64 = motion_step(self.dir.y, self.speed, ne);
        self.pos.x = crate::num::clamp_i64(self.pos.x + dx, -COORD_LIMIT, COORD_LIMIT);
        self.pos.y = crate::num::clamp_i64(self.pos.y + dy, -COORD_LIMIT, COORD_LIMIT);
        let grown: i64 = self.speed + ne / 100;
        self.speed = if grown > SPEED_CAP {
            SPEED_CAP
        } else {
            grown
        };
    }
}

/// Magnitude bound on bounce jitter: 24 fixed-point pixels per axis.
pub const JITTER_MAX: i64 = 24 * 65536;

/// The world point of probe `i` around agent `h`.
pub open spec fn probe_point(h: Horse, i: int) -> Vec2 {
    Vec2 {
        x: (h.pos.x + probe_dx(DIR_WIDTH as int, i)) as i64,
        y: (h.pos.y + probe_dy(DIR_WIDTH as int, i)) as i64,
    }
}

/// Probe `i` of agent `h` samples an opaque arena pixel.  World
/// coordinates are truncated to pixel indices; points left of or above
/// the arena, like points beyond it, count as free space.
pub open spec fn wall_hit(h: Horse, image: Arena, i: int) -> bool {
    let sx = h.pos.x + probe_dx(DIR_WIDTH as int, i);
    let sy = h.pos.y + probe_dy(DIR_WIDTH as int, i);
    sx >= 0 && sy >= 0 && image.opaque_at(sx / 65536, sy / 65536)
}

/// Some agent of `hs` other than `h` itself lies within the probe radius
/// of `h`'s probe point `i`.
pub open spec fn peer_hit(h: Horse, hs: Seq<Horse>, i: int) -> bool {
    exists|k: int|
        0 <= k < hs.len() && !motion_eq(hs[k], h) && dist2(hs[k].pos, probe_point(h, i)) <= sq(
            DIR_WIDTH as int,
        )
}

/// Some probe point of `h` lies within the probe radius of the target.
pub open spec fn carrot_hit(h: Horse, c: Carrots) -> bool {
    exists|i: int| 0 <= i < 8 && dist2(c.pos, probe_point(h, i)) <= sq(DIR_WIDTH as int)
}

/// Sum of the horizontal probe components over the set bits of `m`
/// among the first `k` probes.
pub open spec fn bounce_sum_x(m: u8, k: int) -> int
    decreases k,
{
    if k <= 0 {
        0
    } else {
        bounce_sum_x(m, k - 1) + if nth_bit(m, (k - 1) as u8) {
            probe_dx(DIR_WIDTH as int, k - 1)
        } else {
            0
        }
    }
}

/// Sum of the vertical probe components over the set bits of `m`
/// among the first `k` probes.
pub open spec fn bounce_sum_y(m: u8, k: int) -> int
    decreases k,
{
    if k <= 0 {
        0
    } else {
        bounce_sum_y(m, k - 1) + if nth_bit(m, (k - 1) as u8) {
            probe_dy(DIR_WIDTH as int, k - 1)
        } else {
            0
        }
    }
}

/// A unit-scaled heading pointing along the non-zero vector `(x, y)`:
/// the vector is first scaled up by 65536, so the integer square root
/// `l` of its squared length carries sixteen fractional bits and the
/// truncated quotients `x * 65536 * 65536 / l` lose almost nothing —
/// the result is unit length within a fixed quantum even for sub-unit
/// inputs (see `lemma_unit_heading_norm`).
pub open spec fn unit_heading(x: int, y: int) -> Vec2 {
    let sx = x * 65536;
    let sy = y * 65536;
    let l = crate::num::sqrt_floor(sx * sx + sy * sy);
    Vec2 { x: tdiv(sx * 65536, l) as i64, y: tdiv(sy * 65536, l) as i64 }
}

/// The initial heading drawn from the unit box: the draw `(rx, ry)`
/// normalized, or a fixed unit heading when the draw is the zero
/// vector (which cannot be normalized).
pub open spec fn boxed_heading(rx: int, ry: int) -> Vec2 {
    if rx == 0 && ry == 0 {
        Vec2 { x: SCALE as i64, y: 0i64 }
    } else {
        unit_heading(rx, ry)
    }
}

/// The post-bounce heading: the probe offsets of every set bit of `m`
/// are summed (ties are additive), the jitter `(jx, jy)` is added, and
/// the result is normalized and negated, steering the agent away from
/// the combined obstacle direction.  A zero jittered sum cannot be
/// normalized: the agent then keeps its previous heading `prev`.
pub open spec fn bounce_heading(m: u8, jx: int, jy: int, prev: Vec2) -> Vec2 {
    let vx = bounce_sum_x(m, 8) + jx;
    let vy = bounce_sum_y(m, 8) + jy;
    if vx == 0 && vy == 0 {
        prev
    } else {
        let u = unit_heading(vx, vy);
        Vec2 { x: (-u.x) as i64, y: (-u.y) as i64 }
    }
}

impl Horse {
    /// Create an agent at `pos` with speed 1 and a random heading: a
    /// vector drawn from the unit box, normalized.  The degenerate zero
    /// draw falls back to a fixed unit heading.
    pub fn new(pos: Vec2, win_data: WinData) -> (h: Horse)
        requires
            coords_within(pos, COORD_LIMIT as int),
        ensures
            h.wf(),
            h.pos == pos,
            h.speed == SCALE,
            h.win_data == win_data,
            exists|rx: int, ry: int|
                -SCALE <= rx <= SCALE && -SCALE <= ry <= SCALE && h.dir == #[trigger] boxed_heading(
                    rx,
                    ry,
                ),
            0x1_0000_0000 - 4 * 65536 <= crate::vec2::norm2(h.dir) <= 0x1_0000_0000 + 2
                * 65536,
    {
        let rx: i64 = crate::rng::gen_range_i64(-SCALE, SCALE);
        let ry: i64 = crate::rng::gen_range_i64(-SCALE, SCALE);
        let dir: Vec2 = if rx == 0 && ry == 0 {
            Vec2 { x: SCALE, y: 0 }
        } else {
            normalize_box(rx, ry)
        };
        proof {
            assert(dir == boxed_heading(rx as int, ry as int));
            if rx == 0 && ry == 0 {
                assert(crate::vec2::norm2(dir) == 65536 * 65536) by (nonlinear_arith)
                    requires
                        dir == (Vec2 { x: 65536i64, y: 0i64 }),
                ;
            } else {
                lemma_unit_heading_norm(rx as int, ry as int);
            }
        }
        Horse { pos, dir, speed: SCALE, win_data }
    }

    /// The wall-collision mask: bit `i` answers whether probe `i`
    /// samples an opaque pixel of the foreground.
    pub fn collision_wall(&self, image: &Arena) -> (c: Collisions)
        requires
            self.wf(),
            image.wf(),
        ensures
            forall|i: u8| i < 8 ==> nth_bit(c, i) == wall_hit(*self, *image, i as int),
    {
        let ds: [Vec2; 8] = dirs(DIR_WIDTH);
        let mut c: u8 = NO_COLLISION;
        proof {
            crate::mask::lemma_empty_mask(c);
        }
        let mut i: u8 = 0;
        while i < 8
            invariant
                i <= 8,
                self.wf(),
                image.wf(),
                forall|j: int|
                    0 <= j < 8 ==> ds[j].x == probe_dx(DIR_WIDTH as int, j) && ds[j].y
                        == probe_dy(DIR_WIDTH as int, j),
                forall|j: u8| j < i ==> nth_bit(c, j) == wall_hit(*self, *image, j as int),
                forall|j: u8| i <= j < 8 ==> !nth_bit(c, j),
            decreases 8 - i,
        {
            proof {
                lemma_probe_component_bound(i as int);
            }
            let sx: i64 = self.pos.x + ds[i as usize].x;
            let sy: i64 = self.pos.y + ds[i as usize].y;
            let hit: bool = if sx >= 0 && sy >= 0 {
                let px: i64 = ((sx as u64) / 65536) as i64;
                let py: i64 = ((sy as u64) / 65536) as i64;
                image.is_opaque(px, py)
            } else {
                false
            };
            if hit {
                c = or_bit(c, i);
            }
            i = i + 1;
        }
        c
    }

    /// The peer-collision mask: bit `i` answers whether any *other*
    /// agent of the roster (the agent itself is excluded by motion
    /// equality) lies within the probe radius of probe point `i`.
    pub fn collision_honses(&self, honses: &[Horse]) -> (c: Collisions)
        requires
            self.wf(),
            forall|k: int| 0 <= k < honses@.len() ==> honses@[k].wf(),
        ensures
            forall|i: u8| i < 8 ==> nth_bit(c, i) == peer_hit(*self, honses@, i as int),
    {
        let ds: [Vec2; 8] = dirs(DIR_WIDTH);
        let mut c: u8 = NO_COLLISION;
        proof {
            crate::mask::lemma_empty_mask(c);
        }
        let mut i: u8 = 0;
        while i < 8
            invariant
                i <= 8,
                self.wf(),
                forall|k: int| 0 <= k < honses@.len() ==> honses@[k].wf(),
                forall|j: int|
                    0 <= j < 8 ==> ds[j].x == probe_dx(DIR_WIDTH as int, j) && ds[j].y
                        == probe_dy(DIR_WIDTH as int, j),
                forall|j: u8| j < i ==> nth_bit(c, j) == peer_hit(*self, honses@, j as int),
                forall|j: u8| i <= j < 8 ==> !nth_bit(c, j),
            decreases 8 - i,
        {
            proof {
                lemma_probe_component_bound(i as int);
            }
            let probe: Vec2 = Vec2 { x: self.pos.x + ds[i as usize].x, y: self.pos.y + ds[
                i as usize].y };
            proof {
                assert(probe == probe_point(*self, i as int));
            }
            let mut found: bool = false;
            let mut k: usize = 0;
            while k < honses.len()
                invariant
                    k <= honses@.len(),
                    self.wf(),
                    forall|k2: int| 0 <= k2 < honses@.len() ==> honses@[k2].wf(),
                    probe == probe_point(*self, i as int),
                    i < 8,
                    found == exists|k2: int|
                        0 <= k2 < k && !motion_eq(honses@[k2], *self) && dist2(
                            honses@[k2].pos,
                            probe_point(*self, i as int),
                        ) <= sq(DIR_WIDTH as int),
                decreases honses@.len() - k,
            {
                let other: &Horse = &honses[k];
                if !(*other == *self) {
                    if crate::vec2::within_distance(other.pos, probe, DIR_WIDTH) {
                        found = true;
                    }
                }
                k = k + 1;
            }
            if found {
                c = or_bit(c, i);
            }
            i = i + 1;
        }
        c
    }

    /// Whether any probe point lies within the probe radius of the
    /// target; used only to decide victory.
    pub fn collision_carrots(&self, carrots: &Carrots) -> (b: bool)
        requires
            self.wf(),
            coords_within(carrots.pos, COORD_LIMIT as int),
        ensures
            b == carrot_hit(*self, *carrots),
    {
        let ds: [Vec2; 8] = dirs(DIR_WIDTH);
        let mut found: bool = false;
        let mut i: u8 = 0;
        while i < 8
            invariant
                i <= 8,
                self.wf(),
                coords_within(carrots.pos, COORD_LIMIT as int),
                forall|j: int|
                    0 <= j < 8 ==> ds[j].x == probe_dx(DIR_WIDTH as int, j) && ds[j].y
                        == probe_dy(DIR_WIDTH as int, j),
                found == exists|j: int|
                    0 <= j < i && dist2(carrots.pos, probe_point(*self, j)) <= sq(
                        DIR_WIDTH as int,
                    ),
            decreases 8 - i,
        {
            proof {
                lemma_probe_component_bound(i as int);
            }
            let probe: Vec2 = Vec2 { x: self.pos.x + ds[i as usize].x, y: self.pos.y + ds[
                i as usize].y };
            proof {
                assert(probe == probe_point(*self, i as int));
            }
            if crate::vec2::within_distance(carrots.pos, probe, DIR_WIDTH) {
                found = true;
            }
            i = i + 1;
        }
        found
    }

    /// React to a non-empty collision mask: steer away from the summed
    /// blocked directions plus a uniform random jitter in
    /// `[-JITTER_MAX, JITTER_MAX]` per axis, and reset the speed to a
    /// uniform random value in `[1, 2]` (fixed point).  The position is
    /// untouched.  The new heading is unit length up to the fixed
    /// quantum unless the jittered sum was exactly zero, in which case
    /// the old heading is kept.
    pub fn bounce(&mut self, collisions: Collisions)
        requires
            old(self).wf(),
            collisions != NO_COLLISION,
        ensures
            final(self).wf(),
            final(self).pos == old(self).pos,
            final(self).win_data == old(self).win_data,
            SCALE <= final(self).speed <= 2 * SCALE,
            exists|jx: int, jy: int|
                -JITTER_MAX <= jx <= JITTER_MAX && -JITTER_MAX <= jy <= JITTER_MAX
                    && final(self).dir == bounce_heading(collisions, jx, jy, old(self).dir),
            (0x1_0000_0000 - 4 * 65536 <= crate::vec2::norm2(final(self).dir) <= 0x1_0000_0000
                + 2 * 65536) || final(self).dir == old(self).dir,
    {
        let jx: i64 = crate::rng::gen_range_i64(-JITTER_MAX, JITTER_MAX);
        let jy: i64 = crate::rng::gen_range_i64(-JITTER_MAX, JITTER_MAX);
        let d: Vec2 = bounce_dir(self.dir, collisions, jx, jy);
        proof {
            if bounce_sum_x(collisions, 8) + jx != 0 || bounce_sum_y(collisions, 8) + jy != 0 {
                lemma_bounce_unit(collisions, jx as int, jy as int, old(self).dir);
            }
        }
        self.dir = d;
        self.speed = crate::rng::gen_range_i64(SCALE, 2 * SCALE);
    }
}

/// The heading that `bounce` adopts, computed from the collision mask,
/// the drawn jitter and the previous heading: exactly
/// `bounce_heading(collisions, jx, jy, prev)`.
pub fn bounce_dir(prev: Vec2, collisions: u8, jx: i64, jy: i64) -> (d: Vec2)
    requires
        coords_within(prev, SCALE as int),
        -JITTER_MAX <= jx <= JITTER_MAX,
        -JITTER_MAX <= jy <= JITTER_MAX,
    ensures
        d == bounce_heading(collisions, jx as int, jy as int, prev),
        coords_within(d, SCALE as int),
{
    let ds: [Vec2; 8] = dirs(DIR_WIDTH);
    let mut sx: i64 = 0;
    let mut sy: i64 = 0;
    let mut i: u8 = 0;
    while i < 8
        invariant
            i <= 8,
            forall|j: int|
                0 <= j < 8 ==> ds[j].x == probe_dx(DIR_WIDTH as int, j) && ds[j].y == probe_dy(
                    DIR_WIDTH as int,
                    j,
                ),
            sx == bounce_sum_x(collisions, i as int),
            sy == bounce_sum_y(collisions, i as int),
            -2359296 * (i as int) <= sx <= 2359296 * (i as int),
            -2359296 * (i as int) <= sy <= 2359296 * (i as int),
        decreases 8 - i,
    {
        proof {
            lemma_probe_component_bound(i as int);
        }
        if test_bit(collisions, i) {
            proof {
                assert(ds[i as int].x == probe_dx(DIR_WIDTH as int, i as int));
                assert(ds[i as int].y == probe_dy(DIR_WIDTH as int, i as int));
            }
            sx = sx + ds[i as usize].x;
            sy = sy + ds[i as usize].y;
        }
        i = i + 1;
    }
    let vx: i64 = sx + jx;
    let vy: i64 = sy + jy;
    if vx == 0 && vy == 0 {
        return prev;
    }
    let wx: i64 = vx * 65536;
    let wy: i64 = vy * 65536;
    proof {
        assert(0 <= wx * wx <= 0x138_0000_0000 * 0x138_0000_0000 && 0 <= wy * wy
            <= 0x138_0000_0000 * 0x138_0000_0000 && wx * wx + wy * wy >= 1) by (nonlinear_arith)
            requires
                -0x138_0000_0000 <= wx <= 0x138_0000_0000,
                -0x138_0000_0000 <= wy <= 0x138_0000_0000,
                !(wx == 0 && wy == 0),
        ;
    }
    let n: u128 = ((wx as i128 * wx as i128) + (wy as i128 * wy as i128)) as u128;
    let l: u64 = crate::num::isqrt(n);
    proof {
        assert(l >= 1) by (nonlinear_arith)
            requires
                n >= 1,
                n < (l + 1) * (l + 1),
                l >= 0,
        ;
        assert(l <= 0x200_0000_0000) by (nonlinear_arith)
            requires
                l * l <= n,
                n <= 2 * (0x138_0000_0000 * 0x138_0000_0000),
                l >= 0,
        ;
        assert(wx * wx <= n && wy * wy <= n) by (nonlinear_arith)
            requires
                n == wx * wx + wy * wy,
        ;
        crate::num::lemma_norm_component(wx as int, n as int, l as int);
        crate::num::lemma_norm_component(wy as int, n as int, l as int);
    }
    let qx: i64 = crate::num::div_trunc(wx * 65536, l as i64);
    let qy: i64 = crate::num::div_trunc(wy * 65536, l as i64);
    Vec2 { x: -qx, y: -qy }
}

/// A heading produced by `unit_heading` is unit length up to a fixed
/// quantum, for every non-zero input: its squared length falls short
/// of one square unit (`65536 * 65536`) by at most `4 * 65536` and
/// exceeds it by at most `2 * 65536`, and each component is at most
/// one unit.
pub proof fn lemma_unit_heading_norm(x: int, y: int)
    requires
        !(x == 0 && y == 0),
    ensures
        ({
            let u = unit_heading(x, y);
            &&& -65536 <= u.x <= 65536
            &&& -65536 <= u.y <= 65536
            &&& 0x1_0000_0000 - 4 * 65536 <= crate::vec2::norm2(u)
            &&& crate::vec2::norm2(u) <= 0x1_0000_0000 + 2 * 65536
        }),
{
    let sx = x * 65536;
    let sy = y * 65536;
    let n = sx * sx + sy * sy;
    assert(n >= 0x1_0000_0000 && 0 <= sx * sx <= n && 0 <= sy * sy <= n) by (nonlinear_arith)
        requires
            !(x == 0 && y == 0),
            sx == x * 65536,
            sy == y * 65536,
            n == sx * sx + sy * sy,
    ;
    crate::num::lemma_sqrt_bounds(n);
    let l = crate::num::sqrt_floor(n);
    assert(l >= 65536) by (nonlinear_arith)
        requires
            l >= 0,
            n < (l + 1) * (l + 1),
            n >= 0x1_0000_0000,
    ;
    let qx = tdiv(sx * 65536, l);
    let qy = tdiv(sy * 65536, l);
    crate::num::lemma_norm_component(sx, n, l);
    crate::num::lemma_norm_component(sy, n, l);
    let u = unit_heading(x, y);
    assert(u.x == qx && u.y == qy);
    assert(crate::vec2::norm2(u) == qx * qx + qy * qy);
    crate::num::lemma_norm_component_sq(sx, l);
    crate::num::lemma_norm_component_sq(sy, l);
    let xx = qx * qx + qy * qy;
    assert((l * l) * xx == (l * l) * (qx * qx) + (l * l) * (qy * qy)) by (nonlinear_arith)
        requires
            xx == qx * qx + qy * qy,
    ;
    assert((l * l) * xx <= ((sx * sx) + (sy * sy)) * 0x1_0000_0000);
    assert((l + 1) * (l + 1) == l * l + 2 * l + 1) by (nonlinear_arith);
    assert(n <= l * l + 2 * l);
    assert((l * l) * xx <= (l * l + 2 * l) * 0x1_0000_0000);
    assert(l * xx <= (l + 2) * 0x1_0000_0000) by (nonlinear_arith)
        requires
            (l * l) * xx <= (l * l + 2 * l) * 0x1_0000_0000,
            l >= 1,
    ;
    assert(xx <= 0x1_0000_0000 + 2 * 65536) by (nonlinear_arith)
        requires
            l * xx <= (l + 2) * 0x1_0000_0000,
            l >= 65536,
    ;
    let ax = if sx >= 0 {
        sx
    } else {
        -sx
    };
    let ay = if sy >= 0 {
        sy
    } else {
        -sy
    };
    assert(-l <= sx <= l && -l <= sy <= l) by (nonlinear_arith)
        requires
            sx * sx <= n,
            sy * sy <= n,
            n < (l + 1) * (l + 1),
            l >= 0,
    ;
    assert((l * l) * xx >= ((sx * sx) + (sy * sy)) * 0x1_0000_0000 - (131072 * ax) * l - (
    131072 * ay) * l);
    assert((131072 * ax) * l + (131072 * ay) * l <= 262144 * (l * l)) by (nonlinear_arith)
        requires
            0 <= ax <= l,
            0 <= ay <= l,
            l >= 1,
    ;
    assert(n * 0x1_0000_0000 >= (l * l) * 0x1_0000_0000);
    assert((l * l) * xx >= (l * l) * 0x1_0000_0000 - 262144 * (l * l));
    assert(xx >= 0x1_0000_0000 - 262144) by (nonlinear_arith)
        requires
            (l * l) * xx >= (l * l) * 0x1_0000_0000 - 262144 * (l * l),
            l >= 1,
    ;
}

/// The bounce response always yields a unit-length heading, up to
/// fixed-point rounding, whenever the jittered obstacle sum is
/// non-zero — however small that sum is: the squared length of the new
/// heading falls short of one square unit (`65536 * 65536`) by at most
/// `4 * 65536` and exceeds it by at most `2 * 65536`.  (A zero
/// jittered sum cannot be normalized; the agent then keeps its
/// previous heading.)
pub proof fn lemma_bounce_unit(m: u8, jx: int, jy: int, prev: Vec2)
    requires
        bounce_sum_x(m, 8) + jx != 0 || bounce_sum_y(m, 8) + jy != 0,
    ensures
        ({
            let d = bounce_heading(m, jx, jy, prev);
            &&& 0x1_0000_0000 - 4 * 65536 <= crate::vec2::norm2(d)
            &&& crate::vec2::norm2(d) <= 0x1_0000_0000 + 2 * 65536
        }),
{
    let vx = bounce_sum_x(m, 8) + jx;
    let vy = bounce_sum_y(m, 8) + jy;
    lemma_unit_heading_norm(vx, vy);
    let u = unit_heading(vx, vy);
    let d = bounce_heading(m, jx, jy, prev);
    assert(d.x == -u.x && d.y == -u.y);
    assert(d.x * d.x == u.x * u.x) by (nonlinear_arith)
        requires
            d.x == -u.x,
    ;
    assert(d.y * d.y == u.y * u.y) by (nonlinear_arith)
        requires
            d.y == -u.y,
    ;
}

/// An agent never collides with itself: when every entry of the roster
/// is the agent itself (two agents are the same when position, heading
/// and speed agree), no probe reports a peer — a lone agent's peer
/// mask is empty whatever its position.
pub proof fn lemma_peers_exclude_self(h: Horse, hs: Seq<Horse>)
    requires
        forall|k: int| 0 <= k < hs.len() ==> motion_eq(#[trigger] hs[k], h),
    ensures
        forall|i: int| 0 <= i < 8 ==> !peer_hit(h, hs, i),
{
    assert forall|i: int| 0 <= i < 8 implies !peer_hit(h, hs, i) by {
        if peer_hit(h, hs, i) {
            let k = choose|k: int|
                0 <= k < hs.len() && !motion_eq(hs[k], h) && dist2(hs[k].pos, probe_point(h, i))
                    <= sq(DIR_WIDTH as int);
            assert(motion_eq(hs[k], h));
        }
    }
}

/// Componentwise bound on a probe offset: each coordinate of probe `i`
/// has magnitude at most the probe radius.
proof fn lemma_probe_component_bound(i: int)
    ensures
        -DIR_WIDTH <= probe_dx(DIR_WIDTH as int, i) <= DIR_WIDTH,
        -DIR_WIDTH <= probe_dy(DIR_WIDTH as int, i) <= DIR_WIDTH,
{
    vstd::arithmetic::div_mod::lemma_div_pos_is_pos(DIR_WIDTH * 46340, 65536);
    vstd::arithmetic::mul::lemma_mul_nonnegative(DIR_WIDTH as int, 46340);
    vstd::arithmetic::mul::lemma_mul_inequality(46340, 65536, DIR_WIDTH as int);
    vstd::arithmetic::mul::lemma_mul_is_commutative(DIR_WIDTH as int, 46340);
    vstd::arithmetic::mul::lemma_mul_is_commutative(DIR_WIDTH as int, 65536);
    vstd::arithmetic::div_mod::lemma_div_is_ordered(
        DIR_WIDTH * 46340,
        DIR_WIDTH * 65536,
        65536,
    );
    vstd::arithmetic::div_mod::lemma_div_multiples_vanish(DIR_WIDTH as int, 65536);
}

/// Normalize a non-zero vector drawn from the unit box: the initial
/// random heading of a new agent.
fn normalize_box(rx: i64, ry: i64) -> (d: Vec2)
    requires
        -SCALE <= rx <= SCALE,
        -SCALE <= ry <= SCALE,
        !(rx == 0 && ry == 0),
    ensures
        d == unit_heading(rx as int, ry as int),
        coords_within(d, SCALE as int),
{
    let wx: i64 = rx * 65536;
    let wy: i64 = ry * 65536;
    proof {
        assert(0 <= wx * wx <= 0x1_0000_0000 * 0x1_0000_0000 && 0 <= wy * wy <= 0x1_0000_0000
            * 0x1_0000_0000 && wx * wx + wy * wy >= 1) by (nonlinear_arith)
            requires
                -0x1_0000_0000 <= wx <= 0x1_0000_0000,
                -0x1_0000_0000 <= wy <= 0x1_0000_0000,
                !(wx == 0 && wy == 0),
        ;
    }
    let n: u128 = ((wx as i128 * wx as i128) + (wy as i128 * wy as i128)) as u128;
    let l: u64 = crate::num::isqrt(n);
    proof {
        assert(l >= 1) by (nonlinear_arith)
            requires
                n >= 1,
                n < (l + 1) * (l + 1),
                l >= 0,
        ;
        assert(l <= 0x2_0000_0000) by (nonlinear_arith)
            requires
                l * l <= n,
                n <= 2 * (0x1_0000_0000 * 0x1_0000_0000),
                l >= 0,
        ;
        assert(wx * wx <= n && wy * wy <= n) by (nonlinear_arith)
            requires
                n == wx * wx + wy * wy,
        ;
        crate::num::lemma_norm_component(wx as int, n as int, l as int);
        crate::num::lemma_norm_component(wy as int, n as int, l as int);
    }
    let qx: i64 = crate::num::div_trunc(wx * 65536, l as i64);
    let qy: i64 = crate::num::div_trunc(wy * 65536, l as i64);
    Vec2 { x: qx, y: qy }
}

/// The scaled motion increment for one coordinate.
fn motion_step(dir_c: i64, speed: i64, ne: i64) -> (d: i64)
    requires
        -SCALE <= dir_c <= SCALE,
        0 <= speed <= SPEED_CAP,
        0 <= ne <= NE_CAP,
    ensures
        d == tdiv(dir_c as int * speed as int * ne as int * 2, 0x1_0000_0000),
        -0x1C0_0000 <= d <= 0x1C0_0000,
{
    proof {
        assert(-0x38_0000_0000 <= dir_c * speed <= 0x38_0000_0000) by (nonlinear_arith)
            requires
                -65536 <= dir_c <= 65536,
                0 <= speed <= 229376,
        ;
    }
    let a: i64 = dir_c * speed;
    proof {
        assert(-0xE0_0000_0000_0000 <= a * ne <= 0xE0_0000_0000_0000) by (nonlinear_arith)
            requires
                -0x38_0000_0000 <= a <= 0x38_0000_0000,
                0 <= ne <= 262144,
        ;
    }
    let b: i64 = a * ne;
    let c: i64 = b * 2;
    let d: i64 = crate::num::div_trunc(c, 0x1_0000_0000);
    proof {
        crate::num::lemma_tdiv_range(c as int, 0x1_0000_0000);
        assert(tdiv(c as int, 0x1_0000_0000) == if c >= 0 {
            (c as int) / 0x1_0000_0000int
        } else {
            -((-c as int) / 0x1_0000_0000int)
        });
        if c >= 0 {
            vstd::arithmetic::div_mod::lemma_div_is_ordered(
                c as int,
                0x1C0_0000_0000_0000,
                0x1_0000_0000,
            );
        } else {
            vstd::arithmetic::div_mod::lemma_div_is_ordered(
                -c as int,
                0x1C0_0000_0000_0000,
                0x1_0000_0000,
            );
        }
        assert(0x1C0_0000_0000_0000int / 0x1_0000_0000int == 0x1C0_0000);
    }
    d
}

} // verus!
