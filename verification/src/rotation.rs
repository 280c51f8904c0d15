//! Quarter-turn arithmetic and 2D offset rotation.
//!
//! Orientation around the vertical axis is a quarter-turn count, always kept
//! reduced mod 4. Offsets are rotated into a record's own frame by repeated
//! 90-degree turns; the negation in a turn wraps at the i32 boundary, so the
//! rotation is total.

use vstd::prelude::*;
use vstd::arithmetic::div_mod::{lemma_add_mod_noop, lemma_mod_self_0, lemma_small_mod};

verus! {

/// Composition of a base quarter-turn count with a delta: their sum, mod 4.
pub open spec fn spec_compose_rotation(r: int, o: int) -> int {
    (r + o) % 4
}

/// Compose a base quarter-turn count with a delta, reduced mod 4.
pub fn compose_rotation(r: u8, o: u8) -> (t: u8)
    ensures
        t == spec_compose_rotation(r as int, o as int),
        t < 4,
{
    proof {
        lemma_add_mod_noop(r as int, o as int, 4);
    }
    (r % 4 + o % 4) % 4
}

/// Law: quarter-turn composition is invariant under shifting the base count
/// by a full revolution.
pub proof fn lemma_compose_rotation_period(r: int, o: int)
    ensures
        spec_compose_rotation(r + 4, o) == spec_compose_rotation(r, o),
{
    lemma_add_mod_noop(r + o, 4, 4);
    lemma_mod_self_0(4);
    lemma_add_mod_noop(r, o, 4);
    assert(((r + o) % 4 + 0) % 4 == (r + o) % 4) by {
        if 0 <= (r + o) % 4 < 4 {
            lemma_small_mod(((r + o) % 4) as nat, 4);
        }
    };
}

/// Negation of an i32, wrapping at the type boundary.
pub open spec fn spec_neg_wrap(x: i32) -> i32 {
    vstd::wrapping::i32_specs::wrapping_sub(0, x)
}

/// One counter-clockwise quarter turn of a 2D offset: (x, y) becomes (-y, x).
pub open spec fn spec_rotate_90_2d(p: (i32, i32)) -> (i32, i32) {
    (spec_neg_wrap(p.1), p.0)
}

/// `n` successive quarter turns of a 2D offset.
pub open spec fn spec_rotate_n(p: (i32, i32), n: nat) -> (i32, i32)
    decreases n,
{
    if n == 0 {
        p
    } else {
        spec_rotate_90_2d(spec_rotate_n(p, (n - 1) as nat))
    }
}

/// One counter-clockwise quarter turn of a 2D offset.
pub fn rotate_90_2d(p: (i32, i32)) -> (r: (i32, i32))
    ensures
        r == spec_rotate_90_2d(p),
{
    (0i32.wrapping_sub(p.1), p.0)
}

/// Rotate a 2D offset by `angle` quarter turns.
pub fn rotate_offset(offset: (i32, i32), angle: u8) -> (r: (i32, i32))
    ensures
        r == spec_rotate_n(offset, angle as nat),
{
    let mut cur = offset;
    for i in 0..angle
        invariant
            cur == spec_rotate_n(offset, i as nat),
    {
        cur = rotate_90_2d(cur);
    }
    cur
}

/// Law: four quarter turns return any 2D offset to itself, wrapping included.
pub proof fn lemma_rotate_four_identity(p: (i32, i32))
    ensures
        spec_rotate_n(p, 4) == p,
{
    reveal_with_fuel(spec_rotate_n, 5);
    assert(spec_rotate_n(p, 4) == spec_rotate_90_2d(spec_rotate_90_2d(spec_rotate_90_2d(
        spec_rotate_90_2d(p),
    ))));
}

} // verus!
