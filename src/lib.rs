//! The Fibonacci recurrence, computed by naive double recursion.
//!
//! `fib` deliberately makes two recursive calls per step and caches nothing:
//! its running time grows exponentially with its argument, which is what a
//! caller timing it wants to observe.
use vstd::prelude::*;

verus! {

/// The Fibonacci recurrence on integers: `n` itself for `n <= 1`
/// (so also for negative `n`), else the sum of the two previous values.
pub open spec fn fib_spec(n: int) -> int
    decreases n,
{
    if n <= 1 {
        n
    } else {
        fib_spec(n - 1) + fib_spec(n - 2)
    }
}

/// The largest argument whose value fits in an `i32`.
pub const FIB_MAX_ARG: i32 = 46;

/// For `n` equal to 0 or 1, the value is `n` itself.
pub proof fn lemma_fib_base(n: int)
    requires
        n == 0 || n == 1,
    ensures
        fib_spec(n) == n,
{
}

/// For every `n >= 2`, the value is the sum of the two previous values.
pub proof fn lemma_fib_recurrence(n: int)
    requires
        n >= 2,
    ensures
        fib_spec(n) == fib_spec(n - 1) + fib_spec(n - 2),
{
}

/// The values are non-negative on non-negative arguments and never
/// decrease from one argument to the next.
pub proof fn lemma_fib_monotonic(i: int, j: int)
    requires
        0 <= i <= j,
    ensures
        0 <= fib_spec(i) <= fib_spec(j),
    decreases j,
{
    if j >= 2 {
        lemma_fib_monotonic(0, j - 2);
        if i < j {
            lemma_fib_monotonic(i, j - 1);
        } else {
            lemma_fib_monotonic(0, j - 1);
        }
    }
}

/// `fib_spec(46)` is the last value that fits in an `i32`: `fib_spec(47)`
/// exceeds `i32::MAX`.
pub proof fn lemma_fib_i32_limit()
    ensures
        fib_spec(46) == 1836311903,
        fib_spec(46) <= i32::MAX,
        fib_spec(47) > i32::MAX,
{
    // One unfolding per step, each resting on the two values before it.
    assert(fib_spec(0) == 0);
    assert(fib_spec(1) == 1);
    assert(fib_spec(2) == 1);
    assert(fib_spec(3) == 2);
    assert(fib_spec(4) == 3);
    assert(fib_spec(5) == 5);
    assert(fib_spec(6) == 8);
    assert(fib_spec(7) == 13);
    assert(fib_spec(8) == 21);
    assert(fib_spec(9) == 34);
    assert(fib_spec(10) == 55);
    assert(fib_spec(11) == 89);
    assert(fib_spec(12) == 144);
    assert(fib_spec(13) == 233);
    assert(fib_spec(14) == 377);
    assert(fib_spec(15) == 610);
    assert(fib_spec(16) == 987);
    assert(fib_spec(17) == 1597);
    assert(fib_spec(18) == 2584);
    assert(fib_spec(19) == 4181);
    assert(fib_spec(20) == 6765);
    assert(fib_spec(21) == 10946);
    assert(fib_spec(22) == 17711);
    assert(fib_spec(23) == 28657);
    assert(fib_spec(24) == 46368);
    assert(fib_spec(25) == 75025);
    assert(fib_spec(26) == 121393);
    assert(fib_spec(27) == 196418);
    assert(fib_spec(28) == 317811);
    assert(fib_spec(29) == 514229);
    assert(fib_spec(30) == 832040);
    assert(fib_spec(31) == 1346269);
    assert(fib_spec(32) == 2178309);
    assert(fib_spec(33) == 3524578);
    assert(fib_spec(34) == 5702887);
    assert(fib_spec(35) == 9227465);
    assert(fib_spec(36) == 14930352);
    assert(fib_spec(37) == 24157817);
    assert(fib_spec(38) == 39088169);
    assert(fib_spec(39) == 63245986);
    assert(fib_spec(40) == 102334155);
    assert(fib_spec(41) == 165580141);
    assert(fib_spec(42) == 267914296);
    assert(fib_spec(43) == 433494437);
    assert(fib_spec(44) == 701408733);
    assert(fib_spec(45) == 1134903170);
    assert(fib_spec(46) == 1836311903);
    assert(fib_spec(47) == 2971215073);
}

/// Every `i32` argument up to 46 has a value that fits in an `i32`.
pub proof fn lemma_fib_fits_i32(n: int)
    requires
        i32::MIN <= n <= FIB_MAX_ARG,
    ensures
        i32::MIN <= fib_spec(n) <= i32::MAX,
{
    lemma_fib_i32_limit();
    if n >= 0 {
        lemma_fib_monotonic(n, 46);
    }
}

/// Computes the `num`-th Fibonacci number by naive double recursion.
///
/// An argument of at most 1, negative ones included, is returned as it is.
/// Arguments above 46 are excluded: their value overflows an `i32`.
pub fn fib(num: i32) -> (r: i32)
    requires
        num <= FIB_MAX_ARG,
    ensures
        r == fib_spec(num as int),
    decreases num,
{
    if num <= 1 {
        num
    } else {
        let a = fib(num - 1);
        let b = fib(num - 2);
        proof {
            lemma_fib_fits_i32(num as int);
        }
        a + b
    }
}

} // verus!
