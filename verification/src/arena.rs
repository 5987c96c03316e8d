//! The arena's foreground collision mask.
//!
//! A grid of translucency bytes, one per pixel, immutable once built.
//! A pixel counts as an obstacle when its translucency exceeds 0.75 of
//! full opacity, that is when its byte is at least 192 of 255.  Sampling
//! outside the grid reports "no obstacle": an agent near the edge probes
//! into open space.

use vstd::prelude::*;

verus! {

/// Translucency threshold above which a pixel blocks an agent
/// (`191 < a` is `a/255 > 0.75` on bytes).
pub const OPAQUE_MIN: u8 = 192;

/// The foreground mask: `width * height` translucency bytes in row-major
/// order.
pub struct Arena {
    width: usize,
    height: usize,
    alpha: Vec<u8>,
}

impl Arena {
    /// Width in pixels.
    pub closed spec fn spec_width(self) -> int {
        self.width as int
    }

    /// Height in pixels.
    pub closed spec fn spec_height(self) -> int {
        self.height as int
    }

    /// The translucency byte of pixel `(x, y)`.
    pub closed spec fn spec_alpha(self, x: int, y: int) -> u8 {
        self.alpha[y * self.spec_width() + x]
    }

    /// The grid holds exactly one byte per pixel, and its sides are at
    /// most 32768 pixels.
    pub closed spec fn wf(self) -> bool {
        &&& self.alpha.len() == self.spec_width() * self.spec_height()
        &&& self.width <= 32768
        &&& self.height <= 32768
    }

    /// Pixel `(x, y)` lies on the grid and blocks an agent.
    pub open spec fn opaque_at(self, x: int, y: int) -> bool {
        &&& 0 <= x < self.spec_width()
        &&& 0 <= y < self.spec_height()
        &&& self.spec_alpha(x, y) >= OPAQUE_MIN
    }

    /// Build an arena from its dimensions and translucency bytes.
    /// Refused (`None`) when the byte count does not match the
    /// dimensions or a side exceeds 32768 pixels.
    pub fn new(width: usize, height: usize, alpha: Vec<u8>) -> (r: Option<Arena>)
        ensures
            r is Some <==> (alpha.len() == width * height && width <= 32768 && height
                <= 32768),
            r is Some ==> {
                &&& r->Some_0.wf()
                &&& r->Some_0.spec_width() == width
                &&& r->Some_0.spec_height() == height
                &&& forall|x: int, y: int|
                    0 <= x < width && 0 <= y < height ==> r->Some_0.spec_alpha(x, y) == alpha[
                        y * width + x]
            },
    {
        if width > 32768 || height > 32768 {
            return None;
        }
        proof {
            vstd::arithmetic::mul::lemma_mul_upper_bound(width as int, 32768, height as int, 32768);
            vstd::arithmetic::mul::lemma_mul_nonnegative(width as int, height as int);
        }
        let expected: usize = width * height;
        if alpha.len() != expected {
            return None;
        }
        Some(Arena { width, height, alpha })
    }

    /// Whether the world point with pixel coordinates `(x, y)` blocks an
    /// agent; points off the grid never do.
    pub fn is_opaque(&self, x: i64, y: i64) -> (b: bool)
        requires
            self.wf(),
        ensures
            b == self.opaque_at(x as int, y as int),
    {
        if x < 0 || y < 0 {
            return false;
        }
        if x >= self.width as i64 || y >= self.height as i64 {
            return false;
        }
        let ux: usize = x as usize;
        let uy: usize = y as usize;
        proof {
            vstd::arithmetic::mul::lemma_mul_inequality(
                uy as int + 1,
                self.height as int,
                self.width as int,
            );
            vstd::arithmetic::mul::lemma_mul_is_distributive_add_other_way(
                self.width as int,
                uy as int,
                1,
            );
            vstd::arithmetic::mul::lemma_mul_is_commutative(uy as int, self.width as int);
            vstd::arithmetic::mul::lemma_mul_is_commutative(self.height as int, self.width as int);
            vstd::arithmetic::mul::lemma_mul_nonnegative(uy as int, self.width as int);
        }
        let idx: usize = uy * self.width + ux;
        self.alpha[idx] >= OPAQUE_MIN
    }
}

} // verus!
