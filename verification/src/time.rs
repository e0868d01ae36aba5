//! Cycle truncation: rounding a timestamp down to the start of its
//! containing cycle.  Weather truncation operates on virtual seconds and
//! ocean-route truncation on real seconds, but the arithmetic is the same.

use vstd::prelude::*;

verus! {

/// `t` rounded down to the greatest multiple of the cycle length `d` that
/// does not exceed it.
pub open spec fn spec_truncate(t: int, d: int) -> int
    recommends
        d > 0,
{
    t - t % d
}

/// Truncation lands on a cycle boundary, never increases the value, and
/// stays within one cycle length of the input.
pub proof fn lemma_truncate_bounds(t: int, d: int)
    requires
        d > 0,
        t >= 0,
    ensures
        0 <= spec_truncate(t, d) <= t,
        t - spec_truncate(t, d) < d,
        spec_truncate(t, d) % d == 0,
{
    assert(0 <= t % d < d && t % d <= t) by (nonlinear_arith)
        requires
            d > 0,
            t >= 0,
    ;
    assert((t - t % d) % d == 0) by (nonlinear_arith)
        requires
            d > 0,
    ;
}

/// Truncation is idempotent: a timestamp already on a cycle boundary is
/// left unchanged, so truncating twice equals truncating once.
pub proof fn lemma_truncate_idempotent(t: int, d: int)
    requires
        d > 0,
        t >= 0,
    ensures
        spec_truncate(spec_truncate(t, d), d) == spec_truncate(t, d),
{
    lemma_truncate_bounds(t, d);
}

/// Rounds `t` down to the most recent multiple of the cycle length `d`.
pub fn truncate_secs(t: u64, d: u64) -> (r: u64)
    requires
        d > 0,
    ensures
        r == spec_truncate(t as int, d as int),
        r % d == 0,
        r <= t,
        t - r < d,
{
    proof {
        lemma_truncate_bounds(t as int, d as int);
    }
    t - t % d
}

} // verus!
