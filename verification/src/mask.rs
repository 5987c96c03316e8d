//! Collision masks.
//!
//! A collision query answers with an 8-bit mask: bit `i` set means "an
//! obstacle was detected in probe direction `i`".  Masks from different
//! sources (walls, peer agents) are fused with bitwise OR.

use vstd::prelude::*;

verus! {

/// One bit per probe direction.
pub type Collisions = u8;

/// The empty mask: no probe detected anything.
pub const NO_COLLISION: u8 = 0;

/// Whether bit `i` of `m` is set.
pub open spec fn nth_bit(m: u8, i: u8) -> bool {
    (m >> i) & 1 == 1
}

/// Read bit `i` of `m`.
pub fn test_bit(m: u8, i: u8) -> (b: bool)
    requires
        i < 8,
    ensures
        b == nth_bit(m, i),
{
    proof {
        assert((m & (1u8 << i) != 0) == ((m >> i) & 1 == 1)) by (bit_vector)
            requires
                i < 8,
        ;
    }
    m & (1u8 << i) != 0
}

/// Setting bit `i` by OR leaves every other bit as it was.
pub proof fn lemma_or_bit(m: u8, i: u8)
    requires
        i < 8,
    ensures
        forall|j: u8|
            #![trigger nth_bit(m | (1u8 << i), j)]
            j < 8 ==> nth_bit(m | (1u8 << i), j) == (nth_bit(m, j) || j == i),
{
    assert forall|j: u8| #![trigger nth_bit(m | (1u8 << i), j)] j < 8 implies nth_bit(
        m | (1u8 << i),
        j,
    ) == (nth_bit(m, j) || j == i) by {
        assert((((m | (1u8 << i)) >> j) & 1 == 1) == (((m >> j) & 1 == 1) || j == i))
            by (bit_vector)
            requires
                i < 8,
                j < 8,
        ;
    }
}

/// OR with the empty mask changes nothing.
pub proof fn lemma_or_zero(m: u8)
    ensures
        (m | 0) == m,
{
    assert((m | 0) == m) by (bit_vector);
}

/// Two masks that agree on all eight bits are equal.
pub proof fn lemma_mask_ext(a: u8, b: u8)
    requires
        forall|i: u8| i < 8 ==> nth_bit(a, i) == nth_bit(b, i),
    ensures
        a == b,
{
    assert(nth_bit(a, 0) == nth_bit(b, 0) && nth_bit(a, 1) == nth_bit(b, 1) && nth_bit(a, 2)
        == nth_bit(b, 2) && nth_bit(a, 3) == nth_bit(b, 3) && nth_bit(a, 4) == nth_bit(b, 4)
        && nth_bit(a, 5) == nth_bit(b, 5) && nth_bit(a, 6) == nth_bit(b, 6) && nth_bit(a, 7)
        == nth_bit(b, 7));
    assert(a == b) by (bit_vector)
        requires
            (((a >> 0) & 1 == 1) == (((b >> 0) & 1 == 1))),
            (((a >> 1) & 1 == 1) == (((b >> 1) & 1 == 1))),
            (((a >> 2) & 1 == 1) == (((b >> 2) & 1 == 1))),
            (((a >> 3) & 1 == 1) == (((b >> 3) & 1 == 1))),
            (((a >> 4) & 1 == 1) == (((b >> 4) & 1 == 1))),
            (((a >> 5) & 1 == 1) == (((b >> 5) & 1 == 1))),
            (((a >> 6) & 1 == 1) == (((b >> 6) & 1 == 1))),
            (((a >> 7) & 1 == 1) == (((b >> 7) & 1 == 1))),
    ;
}

/// Set bit `i` of `m`, leaving every other bit as it was.
pub fn or_bit(m: u8, i: u8) -> (r: u8)
    requires
        i < 8,
    ensures
        forall|j: u8| j < 8 ==> nth_bit(r, j) == (nth_bit(m, j) || j == i),
{
    proof {
        lemma_or_bit(m, i);
    }
    m | (1u8 << i)
}

/// A mask is empty exactly when none of its eight bits is set.
pub proof fn lemma_empty_mask(m: u8)
    ensures
        (m == 0) <==> (forall|i: u8| i < 8 ==> !nth_bit(m, i)),
{
    if m == 0 {
        assert forall|i: u8| i < 8 implies !nth_bit(m, i) by {
            assert(((m >> i) & 1) != 1) by (bit_vector)
                requires
                    m == 0,
            ;
        }
    } else {
        assert(((m >> 0) & 1 == 1) || ((m >> 1) & 1 == 1) || ((m >> 2) & 1 == 1) || ((m >> 3)
            & 1 == 1) || ((m >> 4) & 1 == 1) || ((m >> 5) & 1 == 1) || ((m >> 6) & 1 == 1) || ((
        m >> 7) & 1 == 1)) by (bit_vector)
            requires
                m != 0,
        ;
        assert(nth_bit(m, 0) || nth_bit(m, 1) || nth_bit(m, 2) || nth_bit(m, 3) || nth_bit(
            m,
            4,
        ) || nth_bit(m, 5) || nth_bit(m, 6) || nth_bit(m, 7));
    }
}

/// Fuse two collision masks: a direction is blocked if either source
/// reports it blocked.
pub fn fuse_collisions(c1: Collisions, c2: Collisions) -> (out: Collisions)
    ensures
        out == (c1 | c2),
        forall|i: u8| i < 8 ==> nth_bit(out, i) == (nth_bit(c1, i) || nth_bit(c2, i)),
{
    proof {
        assert forall|i: u8| i < 8 implies nth_bit(c1 | c2, i) == (nth_bit(c1, i) || nth_bit(
            c2,
            i,
        )) by {
            assert((((c1 | c2) >> i) & 1 == 1) == (((c1 >> i) & 1 == 1) || ((c2 >> i) & 1
                == 1))) by (bit_vector);
        }
    }
    c1 | c2
}

/// Fusing is commutative: the two sources may be combined in either order.
pub proof fn lemma_fuse_commutative(a: u8, b: u8)
    ensures
        (a | b) == (b | a),
{
    assert((a | b) == (b | a)) by (bit_vector);
}

/// Fusing is idempotent: a source fused with itself reports the same mask.
pub proof fn lemma_fuse_idempotent(a: u8)
    ensures
        (a | a) == a,
{
    assert((a | a) == a) by (bit_vector);
}

} // verus!
