use vstd::prelude::*;

verus! {

/// The Fibonacci sequence: `fib(0) == 0`, `fib(1) == 1`, and every later
/// term is the sum of the two before it.
pub open spec fn fib(n: nat) -> nat
    decreases n,
{
    if n <= 1 {
        n
    } else {
        fib((n - 1) as nat) + fib((n - 2) as nat)
    }
}

/// The largest index whose Fibonacci number fits in a `u64`.
pub const MAX_FIB_INDEX: u64 = 93;

/// Walks the sequence forward `k` steps from the pair of consecutive terms
/// `(a, b)` and gives the term reached.
spec fn fib_from(a: nat, b: nat, k: nat) -> nat
    decreases k,
{
    if k == 0 {
        a
    } else {
        fib_from(b, a + b, (k - 1) as nat)
    }
}

proof fn lemma_fib_from(i: nat, k: nat)
    ensures
        fib_from(fib(i), fib(i + 1), k) == fib(i + k),
    decreases k,
{
    if k > 0 {
        assert(fib(i + 2) == fib(i + 1) + fib(i));
        lemma_fib_from(i + 1, (k - 1) as nat);
    }
}

/// `fib(93)` is the last term that fits in a `u64`; `fib(94)` does not.
pub proof fn lemma_fib_u64_limit()
    ensures
        fib(93) == 12200160415121876738,
        fib(94) == 19740274219868223167,
        fib(93) <= u64::MAX < fib(94),
{
    // Unfolding `fib_from` ninety-odd times at once is too much for the
    // solver, so the walk is taken in runs of at most twenty-one steps, each
    // starting from a pair of consecutive terms that the run before reached.
    lemma_fib_from(0, 20);
    assert(fib_from(0, 1, 20) == 6765) by {
        reveal_with_fuel(fib_from, 21);
    }
    lemma_fib_from(0, 21);
    assert(fib_from(0, 1, 21) == 10946) by {
        reveal_with_fuel(fib_from, 22);
    }
    lemma_fib_from(20, 20);
    assert(fib_from(6765, 10946, 20) == 102334155) by {
        reveal_with_fuel(fib_from, 21);
    }
    lemma_fib_from(20, 21);
    assert(fib_from(6765, 10946, 21) == 165580141) by {
        reveal_with_fuel(fib_from, 22);
    }
    lemma_fib_from(40, 20);
    assert(fib_from(102334155, 165580141, 20) == 1548008755920) by {
        reveal_with_fuel(fib_from, 21);
    }
    lemma_fib_from(40, 21);
    assert(fib_from(102334155, 165580141, 21) == 2504730781961) by {
        reveal_with_fuel(fib_from, 22);
    }
    lemma_fib_from(60, 20);
    assert(fib_from(1548008755920, 2504730781961, 20) == 23416728348467685) by {
        reveal_with_fuel(fib_from, 21);
    }
    lemma_fib_from(60, 21);
    assert(fib_from(1548008755920, 2504730781961, 21) == 37889062373143906) by {
        reveal_with_fuel(fib_from, 22);
    }
    lemma_fib_from(80, 13);
    assert(fib_from(23416728348467685, 37889062373143906, 13) == 12200160415121876738) by {
        reveal_with_fuel(fib_from, 14);
    }
    lemma_fib_from(80, 14);
    assert(fib_from(23416728348467685, 37889062373143906, 14) == 19740274219868223167) by {
        reveal_with_fuel(fib_from, 15);
    }
}

/// For every index, its Fibonacci number fits in a `u64` exactly when the
/// index is at most `MAX_FIB_INDEX`.
pub proof fn lemma_fits_u64_iff(n: nat)
    ensures
        fib(n) <= u64::MAX <==> n <= MAX_FIB_INDEX,
{
    lemma_fib_u64_limit();
    if n <= MAX_FIB_INDEX {
        lemma_fib_monotone(n, MAX_FIB_INDEX as nat);
    } else {
        lemma_fib_monotone(94, n);
    }
}

/// Each term is the sum of the two before it.
pub proof fn lemma_fib_recurrence(n: nat)
    requires
        n >= 2,
    ensures
        fib(n) == fib((n - 1) as nat) + fib((n - 2) as nat),
{
}

/// The sequence never decreases from one term to the next.
pub proof fn lemma_fib_step_monotone(n: nat)
    ensures
        fib(n) <= fib(n + 1),
{
    if n >= 1 {
        assert(fib(n + 1) == fib(n) + fib((n - 1) as nat));
    }
}

/// The sequence never decreases: a later index has a term at least as large.
pub proof fn lemma_fib_monotone(i: nat, j: nat)
    requires
        i <= j,
    ensures
        fib(i) <= fib(j),
    decreases j - i,
{
    if i < j {
        lemma_fib_monotone(i, (j - 1) as nat);
        lemma_fib_step_monotone((j - 1) as nat);
    }
}

/// The result of `fibonacci` depends on `n` alone: two results that meet its
/// postcondition for the same `n` are equal.
pub proof fn lemma_fibonacci_deterministic(n: u64, a: u64, b: u64)
    requires
        n <= MAX_FIB_INDEX,
        a == fib(n as nat),
        b == fib(n as nat),
    ensures
        a == b,
{
}

/// Computes the `n`-th Fibonacci number by the naive two-way recursion.
///
/// The running time grows exponentially in `n`. Indices above
/// `MAX_FIB_INDEX` are excluded because their result overflows a `u64`.
pub fn fibonacci(n: u64) -> (r: u64)
    requires
        n <= MAX_FIB_INDEX,
    ensures
        r == fib(n as nat),
    decreases n,
{
    if n <= 1 {
        n
    } else {
        proof {
            lemma_fits_u64_iff(n as nat);
        }
        fibonacci(n - 1) + fibonacci(n - 2)
    }
}

} // verus!
