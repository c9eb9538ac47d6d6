//! Arithmetic on counts of 1/65536: scaling by a factor, square roots, and
//! holding a number to the range of its type.

use vstd::prelude::*;

verus! {

/// `v`, held to what 64 unsigned bits can count.
pub open spec fn clamp_u64(v: int) -> u64 {
    if v < 0 {
        0
    } else if v > u64::MAX {
        u64::MAX
    } else {
        v as u64
    }
}

/// `v`, held to what 64 signed bits can count.
pub open spec fn clamp_i64(v: int) -> i64 {
    if v < i64::MIN {
        i64::MIN
    } else if v > i64::MAX {
        i64::MAX
    } else {
        v as i64
    }
}

/// The whole part of the square root of `n`.
pub open spec fn root(n: nat) -> nat
    decreases n,
{
    if n == 0 {
        0
    } else {
        let r = root((n - 1) as nat);
        if (r + 1) * (r + 1) <= n {
            r + 1
        } else {
            r
        }
    }
}

/// `root(n)` is the largest number whose square is at most `n`.
pub proof fn lemma_root(n: nat)
    ensures
        root(n) * root(n) <= n < (root(n) + 1) * (root(n) + 1),
    decreases n,
{
    if n > 0 {
        let r = root((n - 1) as nat);
        let q = root(n);
        lemma_root((n - 1) as nat);
        if (r + 1) * (r + 1) <= n {
            assert((q + 1) * (q + 1) > q * q) by (nonlinear_arith)
                requires
                    q >= 0,
            ;
        }
    } else {
        let q = root(n);
        assert(q * q == 0 && (q + 1) * (q + 1) == 1) by (nonlinear_arith)
            requires
                q == 0,
        ;
    }
}

/// Only `root(n)` has its square at most `n` and the next square above.
pub proof fn lemma_root_unique(n: nat, r: nat)
    requires
        r * r <= n < (r + 1) * (r + 1),
    ensures
        root(n) == r,
{
    lemma_root(n);
    let q = root(n);
    if q < r {
        assert((q + 1) * (q + 1) <= r * r) by (nonlinear_arith)
            requires
                q + 1 <= r,
        ;
    } else if r < q {
        assert((r + 1) * (r + 1) <= q * q) by (nonlinear_arith)
            requires
                r + 1 <= q,
        ;
    }
}

/// The whole part of the square root of `n`.
pub fn isqrt(n: u64) -> (r: u64)
    requires
        n <= 65536 * 65536,
    ensures
        r == root(n as nat),
        r <= 65536,
{
    let mut lo: u64 = 0;
    let mut hi: u64 = 65536;
    assert(65537 * 65537 > 65536 * 65536) by (nonlinear_arith);
    while lo < hi
        invariant
            lo <= hi <= 65536,
            lo * lo <= n < (hi + 1) * (hi + 1),
        decreases hi - lo,
    {
        let mid: u64 = lo + (hi - lo + 1) / 2;
        assert(mid * mid <= 65536 * 65536) by (nonlinear_arith)
            requires
                mid <= 65536,
        ;
        if mid * mid <= n {
            lo = mid;
        } else {
            hi = mid - 1;
        }
    }
    proof {
        lemma_root_unique(n as nat, lo as nat);
    }
    lo
}

/// `value` times `factor / 65536`, rounded down.
pub open spec fn scaled(value: int, factor: int) -> int {
    (value * factor) / 65536
}

/// Scaling by a factor of at most 65536 brings a value no further from zero,
/// by the full factor leaves it as it is, and by zero gives zero.
pub proof fn lemma_scaled(value: int, factor: int)
    requires
        0 <= factor <= 65536,
    ensures
        value >= 0 ==> 0 <= scaled(value, factor) <= value,
        value <= 0 ==> value <= scaled(value, factor) <= 0,
        scaled(value, 65536) == value,
        scaled(value, 0) == 0,
        scaled(0, factor) == 0,
{
    if value >= 0 {
        assert(0 <= value * factor <= value * 65536) by (nonlinear_arith)
            requires
                value >= 0,
                0 <= factor <= 65536,
        ;
    } else {
        assert(value * 65536 <= value * factor <= 0) by (nonlinear_arith)
            requires
                value <= 0,
                0 <= factor <= 65536,
        ;
    }
    assert(value * 0 == 0);
    assert(0 * factor == 0);
}

/// `value` times `factor / 65536`, rounded down.
pub fn scale(value: i32, factor: u32) -> (r: i64)
    ensures
        r == scaled(value as int, factor as int),
{
    assert(-0x7fff_ffff_8000_0000 <= value * factor < 0x7fff_ffff_ffff_0000) by (nonlinear_arith)
        requires
            -0x8000_0000 <= value < 0x8000_0000,
            0 <= factor < 0x1_0000_0000,
    ;
    let product: i64 = value as i64 * factor as i64;
    if product >= 0 {
        product / 65536
    } else {
        -((65535 - product) / 65536)
    }
}

} // verus!
