//! Alignment arithmetic: the power-of-two predicate shared by readers and
//! builders, and rounding a position up to the next alignment boundary.

use vstd::arithmetic::div_mod::{
    lemma_add_mod_noop, lemma_mod_self_0, lemma_mod_twice, lemma_small_mod, lemma_sub_mod_noop,
};
use vstd::prelude::*;

verus! {

/// True when `a` is a valid alignment: a power of two (1 counts, being
/// two to the zeroth power).
pub open spec fn is_alignment(a: usize) -> bool
    decreases a,
{
    if a <= 1 {
        a == 1
    } else {
        a % 2 == 0 && is_alignment(a / 2)
    }
}

/// The smallest multiple of `a` that is at least `x`.
pub open spec fn round_up(x: int, a: int) -> int
    recommends
        a >= 1,
        x >= 0,
{
    if x % a == 0 {
        x
    } else {
        x + a - x % a
    }
}

/// Law: `round_up(x, a)` is the least multiple of the alignment `a` that is
/// greater than or equal to `x`; it exceeds `x` by less than `a`.
pub proof fn lemma_round_up_is_least_multiple(x: int, a: int)
    requires
        a >= 1,
        x >= 0,
    ensures
        round_up(x, a) % a == 0,
        x <= round_up(x, a) < x + a,
        forall|m: int| #[trigger] (m % a) == 0 && m >= x ==> m >= round_up(x, a),
{
    let r = x % a;
    if r == 0 {
        assert(round_up(x, a) % a == 0);
    } else {
        assert(0 < r < a) by {
            lemma_mod_bounds(x, a);
        }
        assert((x + (a - r)) % a == 0) by {
            lemma_add_mod_noop(x, a - r, a);
            lemma_mod_twice(x, a);
            lemma_small_mod((a - r) as nat, a as nat);
            lemma_mod_self_0(a);
        }
    }
    assert forall|m: int| #[trigger] (m % a) == 0 && m >= x implies m >= round_up(x, a) by {
        if m < round_up(x, a) {
            // m lies strictly between x and the next boundary, so m % a could
            // not be zero: m - round_up(x, a) is a multiple of a in (-a, 0).
            lemma_sub_mod_noop(m, round_up(x, a), a);
            lemma_mod_self_0(a);
            lemma_mod_twice(m, a);
            assert((m - round_up(x, a)) % a == 0);
            lemma_mod_bounds(m - round_up(x, a), a);
            assert(m - round_up(x, a) <= -1);
            assert(m - round_up(x, a) > -a);
            lemma_small_mod((m - round_up(x, a) + a) as nat, a as nat);
            lemma_add_mod_noop(m - round_up(x, a), a, a);
            assert(false);
        }
    }
}

/// Bounds of the Euclidean remainder for a positive divisor.
proof fn lemma_mod_bounds(x: int, a: int)
    requires
        a >= 1,
    ensures
        0 <= x % a < a,
{
}

/// A valid alignment is at least 1.
pub proof fn lemma_alignment_positive(a: usize)
    requires
        is_alignment(a),
    ensures
        a >= 1,
{
}

/// Rounds `x` up to the next multiple of the alignment `a`.
pub fn round_up_to(x: usize, a: usize) -> (r: usize)
    requires
        a >= 1,
        x + a - 1 <= usize::MAX,
    ensures
        r == round_up(x as int, a as int),
{
    let rem = x % a;
    if rem == 0 {
        x
    } else {
        x + (a - rem)
    }
}

} // verus!
