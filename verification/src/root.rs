//! Square roots of integers, rounded down.

use vstd::prelude::*;

verus! {

/// `s` is the square root of `n`, rounded down.
pub open spec fn is_root(s: int, n: int) -> bool {
    0 <= s && s * s <= n < (s + 1) * (s + 1)
}

/// The square root of `n`, rounded down.
pub open spec fn root(n: int) -> int {
    choose|s: int| is_root(s, n)
}

/// A number has at most one rounded-down square root.
pub proof fn lemma_root_unique(a: int, b: int, n: int)
    requires
        is_root(a, n),
        is_root(b, n),
    ensures
        a == b,
{
    if a < b {
        assert((a + 1) * (a + 1) <= b * b) by (nonlinear_arith)
            requires
                0 <= a + 1 <= b,
        ;
    }
    if b < a {
        assert((b + 1) * (b + 1) <= a * a) by (nonlinear_arith)
            requires
                0 <= b + 1 <= a,
        ;
    }
}

/// Every number that is not negative has a rounded-down square root.
pub proof fn lemma_root_exists(n: int)
    requires
        0 <= n,
    ensures
        is_root(root(n), n),
    decreases n,
{
    if n == 0 {
        assert(is_root(0, 0));
    } else {
        lemma_root_exists(n - 1);
        let s = root(n - 1);
        if (s + 1) * (s + 1) <= n {
            assert(n < (s + 1 + 1) * (s + 1 + 1)) by (nonlinear_arith)
                requires
                    n - 1 < (s + 1) * (s + 1),
                    0 <= s,
            ;
            assert(is_root(s + 1, n));
        } else {
            assert(is_root(s, n));
        }
    }
}

/// A larger number has no smaller root.
pub proof fn lemma_root_monotone(a: int, b: int)
    requires
        0 <= a <= b,
    ensures
        root(a) <= root(b),
{
    lemma_root_exists(a);
    lemma_root_exists(b);
    let low = root(a);
    let high = root(b);
    if high < low {
        assert((high + 1) * (high + 1) <= low * low) by (nonlinear_arith)
            requires
                0 <= high + 1 <= low,
        ;
    }
}

/// The square root of `n`, rounded down.
pub fn integer_root(n: u128) -> (s: u128)
    requires
        n < 0x4_0000_0000_0000_0000,
    ensures
        is_root(s as int, n as int),
        s == root(n as int),
        s < 0x2_0000_0000,
{
    let mut low: u128 = 0;
    let mut high: u128 = 0x2_0000_0000;
    while high - low > 1
        invariant
            low < high <= 0x2_0000_0000,
            low * low <= n < high * high,
        decreases high - low,
    {
        let mid: u128 = low + (high - low) / 2;
        assert(mid * mid <= 0x2_0000_0000 * 0x2_0000_0000) by (nonlinear_arith)
            requires
                mid <= 0x2_0000_0000,
        ;
        if mid * mid <= n {
            low = mid;
        } else {
            high = mid;
        }
    }
    proof {
        assert(is_root(low as int, n as int));
        lemma_root_unique(low as int, root(n as int), n as int);
    }
    low
}

} // verus!
