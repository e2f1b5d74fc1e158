//! Division that rounds up, and scaling of an amount by a decimal factor.

use vstd::prelude::*;
use crate::decimal::MICROS_PER_UNIT;

verus! {

/// `a / b`, rounded up to the next integer. Meant for `b > 0`.
pub open spec fn ceil_div(a: int, b: int) -> int {
    if a % b == 0 {
        a / b
    } else {
        a / b + 1
    }
}

/// `amount * (1 + factor)`, rounded up to the next integer, where `factor` is
/// given in millionths.
pub open spec fn grown_ceil(amount: int, factor: int) -> int {
    ceil_div(amount * (MICROS_PER_UNIT + factor), MICROS_PER_UNIT as int)
}

/// `n` if it fits in a `u64`, else the nearest `u64`.
pub open spec fn saturate_u64(n: int) -> u64 {
    if n < 0 {
        0
    } else if n <= u64::MAX {
        n as u64
    } else {
        u64::MAX
    }
}

/// `ceil_div(a, b)` is the least integer `n` with `a <= n * b`: it is one, and
/// every other is at least as large.
pub proof fn lemma_ceil_div_is_least(a: int, b: int, n: int)
    requires
        b > 0,
    ensures
        a <= ceil_div(a, b) * b,
        a <= n * b ==> ceil_div(a, b) <= n,
{
    let q = a / b;
    let r = a % b;
    assert(a == b * q + r && 0 <= r < b) by {
        vstd::arithmetic::div_mod::lemma_fundamental_div_mod(a, b);
        vstd::arithmetic::div_mod::lemma_mod_bound(a, b);
    }
    assert(a <= ceil_div(a, b) * b) by (nonlinear_arith)
        requires
            a == b * q + r,
            0 <= r < b,
            ceil_div(a, b) == (if r == 0 { q } else { q + 1 }),
    ;
    if a <= n * b && n < ceil_div(a, b) {
        assert(false) by (nonlinear_arith)
            requires
                a == b * q + r,
                0 <= r < b,
                a <= n * b,
                n < (if r == 0 { q } else { q + 1 }),
        ;
    }
}

/// `ceil_div` does not decrease when its dividend grows.
pub proof fn lemma_ceil_div_monotone(a1: int, a2: int, b: int)
    requires
        b > 0,
        a1 <= a2,
    ensures
        ceil_div(a1, b) <= ceil_div(a2, b),
{
    lemma_ceil_div_is_least(a2, b, 0);
    lemma_ceil_div_is_least(a1, b, ceil_div(a2, b));
}

} // verus!
