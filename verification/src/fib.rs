//! The Fibonacci computation: an integer `a` maps to itself when `a < 2`,
//! and to the sum of the two previous Fibonacci numbers otherwise. The
//! executable function mirrors the naive double recursion exactly.

use vstd::prelude::*;

verus! {

/// The mathematical function the executable `fib` computes: `a` itself
/// below 2 (so every negative input maps to itself), and the Fibonacci
/// recurrence above.
pub open spec fn spec_fib(a: int) -> int
    decreases a,
{
    if a < 2 {
        a
    } else {
        spec_fib(a - 1) + spec_fib(a - 2)
    }
}

/// Fibonacci numbers of nonnegative index are nonnegative.
pub proof fn lemma_fib_nonneg(n: int)
    requires
        n >= 0,
    ensures
        spec_fib(n) >= 0,
    decreases n,
{
    if n >= 2 {
        lemma_fib_nonneg(n - 1);
        lemma_fib_nonneg(n - 2);
    }
}

/// Over nonnegative indices the Fibonacci sequence never decreases.
pub proof fn lemma_fib_monotonic(i: int, j: int)
    requires
        0 <= i <= j,
    ensures
        spec_fib(i) <= spec_fib(j),
    decreases j - i,
{
    if i < j {
        lemma_fib_monotonic(i, j - 1);
        if j >= 2 {
            lemma_fib_nonneg(j - 2);
        }
    }
}

/// The largest Fibonacci number that fits in an `i32`: index 46.
pub proof fn lemma_fib_46()
    ensures
        spec_fib(46) == 1836311903,
{
    reveal_with_fuel(spec_fib, 47);
}

/// The defining recurrence: for every index of at least 2, the Fibonacci
/// number is exactly the sum of the two before it.
pub proof fn lemma_fib_recurrence(n: int)
    requires
        n >= 2,
    ensures
        spec_fib(n) == spec_fib(n - 1) + spec_fib(n - 2),
{
}

/// The n-th Fibonacci number by naive double recursion, with no
/// memoization. Indices above 46 are excluded because their Fibonacci
/// numbers do not fit in an `i32`.
pub fn fib(a: i32) -> (r: i32)
    requires
        a <= 46,
    ensures
        r == spec_fib(a as int),
    decreases a,
{
    if a < 2 {
        a
    } else {
        let r1 = fib(a - 1);
        let r2 = fib(a - 2);
        proof {
            lemma_fib_nonneg(a - 1);
            lemma_fib_nonneg(a - 2);
            lemma_fib_monotonic(a as int, 46);
            lemma_fib_46();
        }
        r1 + r2
    }
}

/// Determinism: the contract of `fib` pins one result per input, so two
/// runs on the same input return the same value.
pub proof fn lemma_fib_deterministic(a: i32, r1: i32, r2: i32)
    requires
        r1 == spec_fib(a as int),
        r2 == spec_fib(a as int),
    ensures
        r1 == r2,
{
}

} // verus!
