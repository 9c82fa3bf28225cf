//! Exact integer division of products, and integer square roots.
use vstd::prelude::*;

verus! {

/// The quotient of `a * b` by `c` rounded down, where it exists and fits in 64 bits.
pub open spec fn mul_div_floor(a: int, b: int, c: int) -> Option<u64> {
    if c == 0 || (a * b) / c > u64::MAX {
        None
    } else {
        Some(((a * b) / c) as u64)
    }
}

/// The quotient of `a * b` by `c` rounded up, where it exists and fits in 64 bits.
pub open spec fn mul_div_ceil(a: int, b: int, c: int) -> Option<u64> {
    if c == 0 || (a * b + c - 1) / c > u64::MAX {
        None
    } else {
        Some(((a * b + c - 1) / c) as u64)
    }
}

/// A product of two 64-bit numbers fits in 128 bits with room for a 64-bit addend.
pub proof fn product_fits(a: u64, b: u64)
    ensures
        0 <= a * b <= u128::MAX - u64::MAX - u64::MAX,
{
    assert(0 <= a * b <= u64::MAX * u64::MAX) by (nonlinear_arith)
        requires
            0 <= a <= u64::MAX,
            0 <= b <= u64::MAX,
    ;
}

/// `a * b / c` rounded down, computed without intermediate overflow. `None` when `c` is zero or
/// the quotient does not fit in 64 bits.
pub fn mul_div_u64(a: u64, b: u64, c: u64) -> (q: Option<u64>)
    ensures
        q == mul_div_floor(a as int, b as int, c as int),
{
    if c == 0 {
        return None;
    }
    proof {
        product_fits(a, b);
    }
    let quotient: u128 = ((a as u128) * (b as u128)) / (c as u128);
    if quotient > u64::MAX as u128 {
        return None;
    }
    Some(quotient as u64)
}

/// `a * b / c` rounded up, computed without intermediate overflow. `None` when `c` is zero or
/// the quotient does not fit in 64 bits.
pub fn mul_div_u64_round_up(a: u64, b: u64, c: u64) -> (q: Option<u64>)
    ensures
        q == mul_div_ceil(a as int, b as int, c as int),
{
    if c == 0 {
        return None;
    }
    proof {
        product_fits(a, b);
    }
    let quotient: u128 = ((a as u128) * (b as u128) + (c as u128 - 1)) / (c as u128);
    if quotient > u64::MAX as u128 {
        return None;
    }
    Some(quotient as u64)
}

/// Whether `root` is the integer square root of `n`.
pub open spec fn is_sqrt(root: int, n: int) -> bool {
    0 <= root && root * root <= n < (root + 1) * (root + 1)
}

/// A number has one integer square root.
pub proof fn sqrt_is_unique(r: int, s: int, n: int)
    requires
        is_sqrt(r, n),
        is_sqrt(s, n),
    ensures
        r == s,
{
    if r < s {
        assert((r + 1) * (r + 1) <= s * s) by (nonlinear_arith)
            requires
                0 <= r,
                r + 1 <= s,
        ;
    }
    if s < r {
        assert((s + 1) * (s + 1) <= r * r) by (nonlinear_arith)
            requires
                0 <= s,
                s + 1 <= r,
        ;
    }
}

/// The integer square root of `n`.
pub open spec fn sqrt_floor(n: int) -> int {
    choose|root: int| is_sqrt(root, n)
}

/// Every natural number has an integer square root, and that is [`sqrt_floor`].
pub proof fn sqrt_exists(n: int)
    requires
        n >= 0,
    ensures
        is_sqrt(sqrt_floor(n), n),
{
    sqrt_up_to(n, n);
}

/// Some integer square root of `n` exists, where the one of `k` does for every smaller `k`.
proof fn sqrt_up_to(n: int, k: int) -> (root: int)
    requires
        0 <= k <= n,
    ensures
        is_sqrt(root, k),
        is_sqrt(sqrt_floor(k), k),
    decreases k,
{
    if k == 0 {
        assert(is_sqrt(0, 0));
        0
    } else {
        let below = sqrt_up_to(n, k - 1);
        if k < (below + 1) * (below + 1) {
            assert(is_sqrt(below, k));
            below
        } else {
            let next = below + 1;
            assert(next * next <= k < (next + 1) * (next + 1)) by (nonlinear_arith)
                requires
                    k - 1 < next * next,
                    next * next <= k,
                    next >= 1,
            ;
            assert(is_sqrt(next, k));
            next
        }
    }
}

/// The integer square root of the product of `a` and `b`.
pub fn sqrt_of_product(a: u64, b: u64) -> (root: u64)
    ensures
        is_sqrt(root as int, a * b),
        root == sqrt_floor(a * b),
{
    proof {
        product_fits(a, b);
    }
    let n: u128 = (a as u128) * (b as u128);
    let mut low: u128 = 0;
    let mut high: u128 = 0x1_0000_0000_0000_0000;
    assert(n < high * high) by {
        assert(a * b < 0x1_0000_0000_0000_0000 * 0x1_0000_0000_0000_0000) by (nonlinear_arith)
            requires
                0 <= a <= u64::MAX,
                0 <= b <= u64::MAX,
        ;
    }
    while low + 1 < high
        invariant
            low < high <= 0x1_0000_0000_0000_0000,
            low * low <= n < high * high,
        decreases high - low,
    {
        let mid: u128 = low + (high - low) / 2;
        assert(0 <= mid * mid <= u64::MAX * u64::MAX) by (nonlinear_arith)
            requires
                0 <= mid <= u64::MAX,
        ;
        if mid * mid <= n {
            low = mid;
        } else {
            high = mid;
        }
    }
    proof {
        assert(high == low + 1);
        assert(is_sqrt(low as int, n as int));
        sqrt_is_unique(low as int, sqrt_floor(n as int), n as int);
    }
    low as u64
}

} // verus!
