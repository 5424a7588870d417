//! The Fibonacci exercise: the n-th Fibonacci number, counted from 1,
//! computed by running a pair of accumulators forward.

use vstd::prelude::*;

verus! {

/// The Fibonacci sequence, indexed from zero.
pub open spec fn fib(n: nat) -> nat
    decreases n,
{
    if n == 0 {
        0
    } else if n == 1 {
        1
    } else {
        fib((n - 1) as nat) + fib((n - 2) as nat)
    }
}

/// The Fibonacci sequence never decreases.
proof fn lemma_fib_monotone(i: nat, j: nat)
    requires
        i <= j,
    ensures
        fib(i) <= fib(j),
    decreases j - i,
{
    if i < j {
        lemma_fib_monotone(i, (j - 1) as nat);
        if j >= 2 {
            assert(fib(j) == fib((j - 1) as nat) + fib((j - 2) as nat));
        } else {
            assert(fib(0) == 0 && fib(1) == 1);
        }
    }
}

/// The largest Fibonacci number that fits in an `i32`.
proof fn lemma_fib_46()
    ensures
        fib(46) == 1836311903,
{
    assert(fib(0) == 0);
    assert(fib(1) == 1);
    assert(fib(2) == 1);
    assert(fib(3) == 2);
    assert(fib(4) == 3);
    assert(fib(5) == 5);
    assert(fib(6) == 8);
    assert(fib(7) == 13);
    assert(fib(8) == 21);
    assert(fib(9) == 34);
    assert(fib(10) == 55);
    assert(fib(11) == 89);
    assert(fib(12) == 144);
    assert(fib(13) == 233);
    assert(fib(14) == 377);
    assert(fib(15) == 610);
    assert(fib(16) == 987);
    assert(fib(17) == 1597);
    assert(fib(18) == 2584);
    assert(fib(19) == 4181);
    assert(fib(20) == 6765);
    assert(fib(21) == 10946);
    assert(fib(22) == 17711);
    assert(fib(23) == 28657);
    assert(fib(24) == 46368);
    assert(fib(25) == 75025);
    assert(fib(26) == 121393);
    assert(fib(27) == 196418);
    assert(fib(28) == 317811);
    assert(fib(29) == 514229);
    assert(fib(30) == 832040);
    assert(fib(31) == 1346269);
    assert(fib(32) == 2178309);
    assert(fib(33) == 3524578);
    assert(fib(34) == 5702887);
    assert(fib(35) == 9227465);
    assert(fib(36) == 14930352);
    assert(fib(37) == 24157817);
    assert(fib(38) == 39088169);
    assert(fib(39) == 63245986);
    assert(fib(40) == 102334155);
    assert(fib(41) == 165580141);
    assert(fib(42) == 267914296);
    assert(fib(43) == 433494437);
    assert(fib(44) == 701408733);
    assert(fib(45) == 1134903170);
    assert(fib(46) == 1836311903);
}

/// The `n`-th Fibonacci number, counted so that the first is 0 and the
/// second is 1; any count below one yields 1, the seed of the run. The
/// count is capped where the result would no longer fit in an `i32`.
pub fn fibonacci(n: i32) -> (r: i32)
    requires
        n <= 47,
    ensures
        n >= 1 ==> r == fib((n - 1) as nat),
        n <= 0 ==> r == 1,
{
    let mut prev: i32 = 0;
    let mut val: i32 = 1;
    if n == 1 {
        return 0;
    } else if n == 2 {
        return 1;
    } else {
        let mut k: i32 = 2;
        while k < n
            invariant
                2 <= k,
                n > 2 ==> k <= n,
                n <= 2 ==> k == 2,
                n <= 47,
                prev == fib((k - 2) as nat),
                val == fib((k - 1) as nat),
            decreases n - k,
        {
            proof {
                lemma_fib_monotone(k as nat, 46);
                lemma_fib_46();
                assert(fib(k as nat) == fib((k - 1) as nat) + fib((k - 2) as nat));
            }
            let temp: i32 = val;
            val = val + prev;
            prev = temp;
            k = k + 1;
        }
    }
    val
}

} // verus!
