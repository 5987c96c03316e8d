//! The Startup sub-phase: the starting gate and the countdown banner.
//!
//! The countdown banner bounces diagonally across the screen, snapping
//! back inside whenever it touches an edge, and shows one of thirteen
//! rows of its sprite strip, driven by elapsed time.  The sub-phase ends
//! once its opening sound (polled by the caller) is done.

use crate::data::GateData;
use crate::num::ELAPSED_MAX;
use crate::num::TIME_CAP;
use crate::num::clamp_spec;
use crate::num::tdiv;
use crate::vec2::COORD_LIMIT;
use crate::vec2::Vec2;
use crate::vec2::coords_within;
use vstd::prelude::*;

verus! {

/// The starting gate: position and size in arena coordinates.
pub struct Gate {
    pub pos: Vec2,
    pub size: Vec2,
}

/// The bouncing countdown banner.
pub struct Countdown {
    pub pos: Vec2,
    pub size: Vec2,
    pub direction: u8,
    pub time: i64,
    pub row: i64,
}

/// The Startup sub-phase.
pub struct Startup {
    pub gate: Gate,
    pub countdown: Countdown,
}

/// Sign of the banner's horizontal motion for each of its four diagonal
/// directions.
pub open spec fn cd_dir_x(d: u8) -> int {
    if d == 0 || d == 3 {
        1
    } else {
        -1
    }
}

/// Sign of the banner's vertical motion for each of its four diagonal
/// directions.
pub open spec fn cd_dir_y(d: u8) -> int {
    if d == 0 || d == 1 {
        1
    } else {
        -1
    }
}

/// How far the banner moves in one tick: 24 pixels per second, scaled
/// by the screen size over 300.
pub open spec fn cd_delta(e: int, sw: int, sh: int) -> int {
    (24 * e * (sw + sh)) / 19660800
}

/// The sprite-strip row for an accumulated time: `time / 13 * 12 - 1.2`
/// rounded down and clamped to `[0, 12]`.
pub open spec fn cd_row(time: int) -> int {
    clamp_spec(tdiv(60 * time - 78 * 65536, 4259840), 0, 12)
}

/// Step a coordinate up by whole pixels until it is positive.
pub open spec fn nudge_up(x: int) -> int
    decreases 65537 - x,
{
    if x <= 0 {
        nudge_up(x + 65536)
    } else {
        x
    }
}

/// Step a coordinate down by whole pixels until it is below `limit`.
pub open spec fn nudge_down(x: int, limit: int) -> int
    decreases x - limit + 65536,
{
    if x >= limit {
        nudge_down(x - 65536, limit)
    } else {
        x
    }
}

/// The banner after its timer and sprite row advance.
pub open spec fn cd_after_source(c: Countdown, e: int) -> Countdown {
    let t = clamp_spec(c.time + e, 0, TIME_CAP as int);
    Countdown { time: t as i64, row: cd_row(t) as i64, ..c }
}

/// The banner after its size is fitted to the screen.
pub open spec fn cd_after_size(c: Countdown, sw: int, sh: int) -> Countdown {
    Countdown { size: Vec2 { x: (sw / 4) as i64, y: (sh / 12) as i64 }, ..c }
}

/// The banner after its bounce step: when it touches a screen edge it is
/// nudged back inside and its direction cycles; then it moves along its
/// diagonal by `cd_delta`, kept inside the coordinate range.
pub open spec fn cd_after_bounce(c: Countdown, e: int, sw: int, sh: int) -> Countdown {
    let hit = c.pos.x <= 0 || c.pos.y <= 0 || c.pos.x + c.size.x >= sw || c.pos.y + c.size.y
        >= sh;
    let d2 = if hit {
        if c.direction >= 3 {
            0u8
        } else {
            (c.direction + 1) as u8
        }
    } else {
        c.direction
    };
    let px = if hit {
        nudge_down(nudge_up(c.pos.x as int), sw - c.size.x)
    } else {
        c.pos.x as int
    };
    let py = if hit {
        nudge_down(nudge_up(c.pos.y as int), sh - c.size.y)
    } else {
        c.pos.y as int
    };
    let q = cd_delta(e, sw, sh);
    Countdown {
        pos: Vec2 {
            x: clamp_spec(px + cd_dir_x(d2) * q, -COORD_LIMIT as int, COORD_LIMIT as int) as i64,
            y: clamp_spec(py + cd_dir_y(d2) * q, -COORD_LIMIT as int, COORD_LIMIT as int) as i64,
        },
        direction: d2,
        ..c
    }
}

impl Countdown {
    /// Well-formedness: coordinates in range, one of four directions, a
    /// bounded timer and a row of the thirteen-row strip.
    pub open spec fn wf(self) -> bool {
        &&& coords_within(self.pos, COORD_LIMIT as int)
        &&& 0 <= self.size.x <= COORD_LIMIT && 0 <= self.size.y <= COORD_LIMIT
        &&& self.direction < 4
        &&& 0 <= self.time <= TIME_CAP
        &&& 0 <= self.row <= 12
    }

    /// A fresh banner: centred on the screen, zero-sized until the first
    /// tick, on a random diagonal, with timer and row at zero.
    pub fn new(screen_w: i64, screen_h: i64) -> (c: Countdown)
        requires
            0 <= screen_w <= COORD_LIMIT,
            0 <= screen_h <= COORD_LIMIT,
        ensures
            c.wf(),
            c.pos.x == screen_w as int / 2 && c.pos.y == screen_h as int / 2,
            c.size == (Vec2 { x: 0i64, y: 0i64 }),
            c.time == 0,
            c.row == 0,
    {
        let d: i64 = crate::rng::gen_range_i64(0, 3);
        Countdown {
            pos: Vec2 { x: screen_w / 2, y: screen_h / 2 },
            size: Vec2 { x: 0, y: 0 },
            direction: d as u8,
            time: 0,
            row: 0,
        }
    }

    /// One banner tick: advance the timer and sprite row, fit the size
    /// to the screen, then bounce and move.
    pub fn update(&mut self, elapsed: i64, screen_w: i64, screen_h: i64)
        requires
            old(self).wf(),
            0 <= elapsed <= ELAPSED_MAX,
            0 <= screen_w <= COORD_LIMIT,
            0 <= screen_h <= COORD_LIMIT,
        ensures
            final(self).wf(),
            *final(self) == cd_after_bounce(
                cd_after_size(
                    cd_after_source(*old(self), elapsed as int),
                    screen_w as int,
                    screen_h as int,
                ),
                elapsed as int,
                screen_w as int,
                screen_h as int,
            ),
    {
        self.source(elapsed);
        self.size(screen_w, screen_h);
        self.bounce(elapsed, screen_w, screen_h);
    }

    /// Advance the timer (saturating) and derive the sprite row.
    fn source(&mut self, elapsed: i64)
        requires
            old(self).wf(),
            0 <= elapsed <= ELAPSED_MAX,
        ensures
            final(self).wf(),
            *final(self) == cd_after_source(*old(self), elapsed as int),
    {
        let t: i64 = self.time + elapsed;
        self.time = if t > TIME_CAP {
            TIME_CAP
        } else {
            t
        };
        let num: i64 = 60 * self.time - 78 * 65536;
        let q: i64 = crate::num::div_trunc(num, 4259840);
        proof {
            crate::num::lemma_tdiv_range(num as int, 4259840);
        }
        self.row = crate::num::clamp_i64(q, 0, 12);
    }

    /// Fit the banner to a quarter of the screen's width and a twelfth
    /// of its height.
    fn size(&mut self, screen_w: i64, screen_h: i64)
        requires
            old(self).wf(),
            0 <= screen_w <= COORD_LIMIT,
            0 <= screen_h <= COORD_LIMIT,
        ensures
            final(self).wf(),
            *final(self) == cd_after_size(*old(self), screen_w as int, screen_h as int),
    {
        let sx: i64 = ((screen_w as u64) / 4) as i64;
        let sy: i64 = ((screen_h as u64) / 12) as i64;
        self.size = Vec2 { x: sx, y: sy };
    }

    /// Bounce off the screen edges and move along the diagonal.
    fn bounce(&mut self, elapsed: i64, screen_w: i64, screen_h: i64)
        requires
            old(self).wf(),
            0 <= elapsed <= ELAPSED_MAX,
            0 <= screen_w <= COORD_LIMIT,
            0 <= screen_h <= COORD_LIMIT,
        ensures
            final(self).wf(),
            *final(self) == cd_after_bounce(
                *old(self),
                elapsed as int,
                screen_w as int,
                screen_h as int,
            ),
    {
        let hit: bool = self.pos.x <= 0 || self.pos.y <= 0 || self.pos.x + self.size.x
            >= screen_w || self.pos.y + self.size.y >= screen_h;
        if hit {
            self.center(screen_w, screen_h);
            self.direction = if self.direction >= 3 {
                0
            } else {
                self.direction + 1
            };
        }
        let q: i64 = cd_step(elapsed, screen_w, screen_h);
        let dx: i64 = if self.direction == 0 || self.direction == 3 {
            q
        } else {
            -q
        };
        let dy: i64 = if self.direction == 0 || self.direction == 1 {
            q
        } else {
            -q
        };
        self.pos.x = crate::num::clamp_i64(self.pos.x + dx, -COORD_LIMIT, COORD_LIMIT);
        self.pos.y = crate::num::clamp_i64(self.pos.y + dy, -COORD_LIMIT, COORD_LIMIT);
    }

    /// Nudge the banner back inside the screen, one pixel at a time:
    /// first right and down until both coordinates are positive, then
    /// left and up until it clears the far edges.
    fn center(&mut self, screen_w: i64, screen_h: i64)
        requires
            old(self).wf(),
            0 <= screen_w <= COORD_LIMIT,
            0 <= screen_h <= COORD_LIMIT,
        ensures
            final(self).pos.x == nudge_down(
                nudge_up(old(self).pos.x as int),
                screen_w - old(self).size.x,
            ),
            final(self).pos.y == nudge_down(
                nudge_up(old(self).pos.y as int),
                screen_h - old(self).size.y,
            ),
            final(self).size == old(self).size,
            final(self).direction == old(self).direction,
            final(self).time == old(self).time,
            final(self).row == old(self).row,
            -COORD_LIMIT - 65536 <= final(self).pos.x <= COORD_LIMIT,
            -COORD_LIMIT - 65536 <= final(self).pos.y <= COORD_LIMIT,
    {
        let ghost x0: int = self.pos.x as int;
        let ghost y0: int = self.pos.y as int;
        while self.pos.x <= 0
            invariant
                -COORD_LIMIT <= self.pos.x <= COORD_LIMIT,
                nudge_up(self.pos.x as int) == nudge_up(x0),
                self.pos.y == old(self).pos.y,
                self.size == old(self).size,
                self.direction == old(self).direction,
                self.time == old(self).time,
                self.row == old(self).row,
            decreases 65537 - self.pos.x,
        {
            self.pos.x = self.pos.x + 65536;
        }
        assert(self.pos.x == nudge_up(x0));
        while self.pos.y <= 0
            invariant
                -COORD_LIMIT <= self.pos.y <= COORD_LIMIT,
                nudge_up(self.pos.y as int) == nudge_up(y0),
                self.pos.x == nudge_up(x0),
                self.size == old(self).size,
                self.direction == old(self).direction,
                self.time == old(self).time,
                self.row == old(self).row,
            decreases 65537 - self.pos.y,
        {
            self.pos.y = self.pos.y + 65536;
        }
        assert(self.pos.y == nudge_up(y0));
        while self.pos.x + self.size.x >= screen_w
            invariant
                old(self).wf(),
                0 <= screen_w <= COORD_LIMIT,
                -COORD_LIMIT - 65536 <= self.pos.x <= COORD_LIMIT,
                nudge_down(self.pos.x as int, screen_w - old(self).size.x) == nudge_down(
                    nudge_up(x0),
                    screen_w - old(self).size.x,
                ),
                self.pos.y == nudge_up(y0),
                self.size == old(self).size,
                self.direction == old(self).direction,
                self.time == old(self).time,
                self.row == old(self).row,
            decreases self.pos.x + old(self).size.x - screen_w + 65536,
        {
            self.pos.x = self.pos.x - 65536;
        }
        assert(self.pos.x == nudge_down(nudge_up(x0), screen_w - old(self).size.x));
        while self.pos.y + self.size.y >= screen_h
            invariant
                old(self).wf(),
                0 <= screen_h <= COORD_LIMIT,
                -COORD_LIMIT - 65536 <= self.pos.y <= COORD_LIMIT,
                nudge_down(self.pos.y as int, screen_h - old(self).size.y) == nudge_down(
                    nudge_up(y0),
                    screen_h - old(self).size.y,
                ),
                self.pos.x == nudge_down(nudge_up(x0), screen_w - old(self).size.x),
                self.size == old(self).size,
                self.direction == old(self).direction,
                self.time == old(self).time,
                self.row == old(self).row,
            decreases self.pos.y + old(self).size.y - screen_h + 65536,
        {
            self.pos.y = self.pos.y - 65536;
        }
        assert(self.pos.y == nudge_down(nudge_up(y0), screen_h - old(self).size.y));
    }
}

/// How far the banner moves this tick, in fixed-point pixels.
fn cd_step(elapsed: i64, screen_w: i64, screen_h: i64) -> (q: i64)
    requires
        0 <= elapsed <= ELAPSED_MAX,
        0 <= screen_w <= COORD_LIMIT,
        0 <= screen_h <= COORD_LIMIT,
    ensures
        q == cd_delta(elapsed as int, screen_w as int, screen_h as int),
        0 <= q <= 0x10_0000_0000_0000,
{
    proof {
        assert(0 <= 24 * (elapsed as int) * ((screen_w + screen_h) as int)
            <= 0x1000_0000_0000_0000_0000) by (nonlinear_arith)
            requires
                0 <= elapsed <= 235929600,
                0 <= screen_w + screen_h <= 0x200_0000_0000,
        ;
    }
    let num: u128 = 24u128 * (elapsed as u128) * ((screen_w + screen_h) as u128);
    let q128: u128 = num / 19660800;
    proof {
        vstd::arithmetic::div_mod::lemma_div_pos_is_pos(num as int, 19660800);
        vstd::arithmetic::div_mod::lemma_div_is_ordered(
            num as int,
            0x1000_0000_0000_0000_0000,
            19660800,
        );
        assert(0x1000_0000_0000_0000_0000int / 19660800int <= 0x10_0000_0000_0000);
    }
    q128 as i64
}

impl Startup {
    /// Open the Startup sub-phase: place the starting gate between its
    /// two corners and start the countdown banner.
    pub fn new(gate: GateData, screen_w: i64, screen_h: i64) -> (s: Startup)
        requires
            coords_within(gate.start, COORD_LIMIT as int),
            coords_within(gate.end, COORD_LIMIT as int),
            0 <= screen_w <= COORD_LIMIT,
            0 <= screen_h <= COORD_LIMIT,
        ensures
            s.wf(),
            s.gate.pos == gate.start,
            s.gate.size.x == gate.end.x - gate.start.x,
            s.gate.size.y == gate.end.y - gate.start.y,
            s.countdown.time == 0,
    {
        let (pos, size) = gate.into_pos_size();
        Startup { gate: Gate { pos, size }, countdown: Countdown::new(screen_w, screen_h) }
    }

    /// The sub-phase is well-formed when its banner is.
    pub open spec fn wf(self) -> bool {
        self.countdown.wf()
    }

    /// One Startup tick: the banner animates; nothing else changes.
    pub fn update(&mut self, elapsed: i64, screen_w: i64, screen_h: i64)
        requires
            old(self).wf(),
            0 <= elapsed <= ELAPSED_MAX,
            0 <= screen_w <= COORD_LIMIT,
            0 <= screen_h <= COORD_LIMIT,
        ensures
            final(self).wf(),
            final(self).gate == old(self).gate,
            final(self).countdown == cd_after_bounce(
                cd_after_size(
                    cd_after_source(old(self).countdown, elapsed as int),
                    screen_w as int,
                    screen_h as int,
                ),
                elapsed as int,
                screen_w as int,
                screen_h as int,
            ),
    {
        self.countdown.update(elapsed, screen_w, screen_h);
    }
}

} // verus!
