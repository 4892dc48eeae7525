//! Saturating arithmetic used by the stat aggregation pipeline.
//!
//! Derived statistics fold many bonus contributions together; the fold
//! clamps at the type's limit instead of imposing bounds on content data.

use vstd::prelude::*;

verus! {

/// `a + b`, clamped at the limit.
pub open spec fn sat_add_spec(a: int, b: int) -> u32 {
    if a + b > u32::MAX {
        u32::MAX
    } else {
        (a + b) as u32
    }
}

/// `a * b`, clamped at the limit.
pub open spec fn sat_mul_spec(a: int, b: int) -> u32 {
    if a * b > u32::MAX {
        u32::MAX
    } else {
        (a * b) as u32
    }
}

/// `a - b`, floored at zero.
pub open spec fn sat_sub_spec(a: int, b: int) -> u32 {
    if b > a {
        0u32
    } else {
        (a - b) as u32
    }
}

pub fn sat_add(a: u32, b: u32) -> (r: u32)
    ensures
        r == sat_add_spec(a as int, b as int),
{
    let s: u64 = a as u64 + b as u64;
    if s > u32::MAX as u64 {
        u32::MAX
    } else {
        s as u32
    }
}

pub fn sat_mul(a: u32, b: u32) -> (r: u32)
    ensures
        r == sat_mul_spec(a as int, b as int),
{
    proof {
        assert((a as int) * (b as int) <= (u32::MAX as int) * (u32::MAX as int))
            by (nonlinear_arith)
            requires
                a <= u32::MAX,
                b <= u32::MAX,
        ;
    }
    let p: u64 = a as u64 * b as u64;
    if p > u32::MAX as u64 {
        u32::MAX
    } else {
        p as u32
    }
}

pub fn sat_sub(a: u32, b: u32) -> (r: u32)
    ensures
        r == sat_sub_spec(a as int, b as int),
{
    if b > a {
        0
    } else {
        a - b
    }
}

/// How a filtered prefix grows when one more element is taken: by the
/// element when it passes the predicate, not at all otherwise.
pub proof fn lemma_filter_take_step<A>(s: Seq<A>, pred: spec_fn(A) -> bool, i: int)
    requires
        0 <= i < s.len(),
    ensures
        pred(s[i]) ==> s.take(i + 1).filter(pred) == s.take(i).filter(pred).push(s[i]),
        !pred(s[i]) ==> s.take(i + 1).filter(pred) == s.take(i).filter(pred),
{
    reveal(Seq::filter);
    assert(s.take(i + 1).drop_last() =~= s.take(i));
    assert(s.take(i + 1).last() == s[i]);
}

} // verus!
