//! Summation of the integers in an inclusive range, computed with the
//! closed-form formula for triangular numbers.

use vstd::prelude::*;

verus! {

/// The sum of all integers in the closed interval `[lo, hi]`,
/// written out term by term: `lo + (lo+1) + ... + hi` (0 when `lo > hi`).
pub open spec fn range_sum(lo: int, hi: int) -> int
    decreases hi - lo + 1,
{
    if lo > hi {
        0
    } else {
        range_sum(lo, hi - 1) + hi
    }
}

/// What `sum` computes: the range sum from `lower` to `upper`, with a lower
/// bound of 0 treated like 1 (both sum from 1).
pub open spec fn sum_spec(lower: int, upper: int) -> int {
    if lower <= 1 {
        range_sum(1, upper)
    } else {
        range_sum(lower, upper)
    }
}

/// A range of non-negative integers has a non-negative sum.
proof fn lemma_range_sum_nonneg(lo: int, hi: int)
    requires
        0 <= lo,
    ensures
        0 <= range_sum(lo, hi),
    decreases hi - lo + 1,
{
    if lo <= hi {
        lemma_range_sum_nonneg(lo, hi - 1);
    }
}

/// A range sum splits at any point: the terms up to `mid - 1` plus the terms
/// from `mid` on give the whole.
proof fn lemma_range_sum_split(lo: int, mid: int, hi: int)
    requires
        lo <= mid <= hi + 1,
    ensures
        range_sum(lo, hi) == range_sum(lo, mid - 1) + range_sum(mid, hi),
    decreases hi - mid + 1,
{
    if mid <= hi {
        lemma_range_sum_split(lo, mid, hi - 1);
    }
}

/// The closed form: `1 + 2 + ... + n == n * (n + 1) / 2`.
pub proof fn lemma_range_sum_closed_form(n: int)
    requires
        0 <= n,
    ensures
        range_sum(1, n) == n * (n + 1) / 2,
    decreases n,
{
    if n > 0 {
        lemma_range_sum_closed_form(n - 1);
        assert(range_sum(1, n) == range_sum(1, n - 1) + n);
        assert((n - 1) * n / 2 + n == n * (n + 1) / 2) by (nonlinear_arith);
    } else {
        assert(range_sum(1, 0) == 0);
    }
}

/// Triangular numbers grow with their argument.
proof fn lemma_triangle_monotonic(a: int, b: int)
    requires
        0 <= a <= b,
    ensures
        a * (a + 1) <= b * (b + 1),
{
    assert(a * (a + 1) <= b * (b + 1)) by (nonlinear_arith)
        requires
            0 <= a <= b,
    ;
}

/// The sum of all integers from `lower_bound` to `upper_bound` inclusive,
/// where a lower bound of 0 is treated like 1. The preconditions keep the
/// closed-form product within `u32` and the range non-degenerate beyond
/// empty, so no step overflows.
pub fn sum(lower_bound: u32, upper_bound: u32) -> (r: u32)
    requires
        upper_bound * (upper_bound + 1) <= u32::MAX,
        lower_bound <= upper_bound + 1,
    ensures
        r == sum_spec(lower_bound as int, upper_bound as int),
    decreases lower_bound,
{
    match lower_bound {
        0 | 1 => {
            proof {
                lemma_range_sum_closed_form(upper_bound as int);
                assert(upper_bound + 1 <= u32::MAX) by (nonlinear_arith)
                    requires
                        upper_bound * (upper_bound + 1) <= u32::MAX,
                        0 <= upper_bound,
                ;
            }
            (upper_bound * (upper_bound + 1)) / 2
        },
        _ => {
            proof {
                lemma_triangle_monotonic(lower_bound - 1, upper_bound as int);
                lemma_range_sum_split(1, lower_bound as int, upper_bound as int);
                lemma_range_sum_nonneg(lower_bound as int, upper_bound as int);
            }
            sum(1, upper_bound) - sum(1, lower_bound - 1)
        },
    }
}

/// A lower bound of 0 and a lower bound of 1 give the same sum, for every
/// upper bound.
pub proof fn lemma_sum_zero_like_one(n: int)
    ensures
        sum_spec(0, n) == sum_spec(1, n),
{
}

/// For `a <= b`, the sum is exactly `a + (a+1) + ... + b`, term by term.
pub proof fn lemma_sum_counts_terms(a: int, b: int)
    requires
        0 <= a <= b,
    ensures
        sum_spec(a, b) == range_sum(a, b),
{
    if a == 0 {
        lemma_range_sum_split(0, 1, b);
        assert(range_sum(0, -1) == 0);
        assert(range_sum(0, 0) == 0);
    }
}

} // verus!
