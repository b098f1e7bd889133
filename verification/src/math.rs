//! Integer ratios with explicit rounding.
//!
//! Every amount in the pool is a whole number of lamports or of pool tokens,
//! so every ratio has to say which way it rounds. The functions here are the
//! mathematical statements; the executable code elsewhere is proved against
//! them.

use vstd::prelude::*;

verus! {

/// `n / d` rounded up, for `d > 0`.
pub open spec fn ceil_div(n: int, d: int) -> int
    recommends
        n >= 0,
        d > 0,
{
    (n + d - 1) / d
}

/// `a * b / c` rounded down, for `c > 0`.
pub open spec fn mul_div_floor(a: int, b: int, c: int) -> int
    recommends
        a >= 0,
        b >= 0,
        c > 0,
{
    (a * b) / c
}

/// `ceil_div(n, d)` is the least `q` with `q * d >= n`.
pub proof fn lemma_ceil_div_is_least_cover(n: int, d: int)
    requires
        n >= 0,
        d > 0,
    ensures
        ceil_div(n, d) >= 0,
        ceil_div(n, d) * d >= n,
        forall|q: int| #[trigger] (q * d) >= n ==> q >= ceil_div(n, d),
{
    let c = ceil_div(n, d);
    lemma_div_bounds(n + d - 1, d);
    assert(c * d >= n) by (nonlinear_arith)
        requires
            c * d <= n + d - 1,
            n + d - 1 < c * d + d,
            d > 0,
    ;
    assert forall|q: int| #[trigger] (q * d) >= n implies q >= c by {
        if q < c {
            assert(q * d <= (c - 1) * d) by (nonlinear_arith)
                requires
                    q <= c - 1,
                    d > 0,
            ;
            assert((c - 1) * d == c * d - d) by (nonlinear_arith);
        }
    }
}

/// The quotient of a division by a positive number brackets the dividend.
pub proof fn lemma_div_bounds(x: int, d: int)
    requires
        x >= 0,
        d > 0,
    ensures
        0 <= x / d,
        (x / d) * d <= x,
        x < (x / d) * d + d,
{
    vstd::arithmetic::div_mod::lemma_fundamental_div_mod(x, d);
    vstd::arithmetic::div_mod::lemma_mod_bound(x, d);
    vstd::arithmetic::div_mod::lemma_div_pos_is_pos(x, d);
    assert(d * (x / d) == (x / d) * d) by (nonlinear_arith);
}

/// The product of two 64-bit values leaves room in 128 bits for one more.
pub proof fn lemma_u64_product_bound(a: u64, b: u64)
    ensures
        a * b <= 0xFFFF_FFFF_FFFF_FFFE_0000_0000_0000_0001,
        a * b + 0xFFFF_FFFF_FFFF_FFFF <= u128::MAX,
{
    assert(a * b <= 0xFFFF_FFFF_FFFF_FFFF * 0xFFFF_FFFF_FFFF_FFFF) by (nonlinear_arith)
        requires
            0 <= a <= 0xFFFF_FFFF_FFFF_FFFF,
            0 <= b <= 0xFFFF_FFFF_FFFF_FFFF,
    ;
}

} // verus!
