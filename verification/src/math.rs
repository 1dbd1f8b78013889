use vstd::prelude::*;

use crate::constants::BASIS_POINTS_DIVISOR;

verus! {

/// The product of `a` and `b`, or `u64::MAX` where the product is larger.
pub open spec fn saturating_product(a: u64, b: u64) -> u64 {
    if a * b > u64::MAX {
        u64::MAX
    } else {
        (a * b) as u64
    }
}

/// Multiplication that stops at `u64::MAX` in place of overflowing.
pub fn saturating_mul(a: u64, b: u64) -> (r: u64)
    ensures
        r == saturating_product(a, b),
{
    match a.checked_mul(b) {
        Some(product) => product,
        None => u64::MAX,
    }
}

/// The share of `amount` that `bps` basis points stand for, rounded down.
pub open spec fn bps_share(amount: u64, bps: u16) -> int {
    amount * bps / 10000
}

/// `amount * bps / 10000`, rounded down, for `bps` up to the whole.
pub fn share_of(amount: u64, bps: u16) -> (r: u64)
    requires
        bps <= BASIS_POINTS_DIVISOR,
    ensures
        r == bps_share(amount, bps),
        r <= amount,
{
    proof {
        assert(amount * bps <= u64::MAX * 10000 && amount * bps / 10000 <= amount)
            by (nonlinear_arith)
            requires
                0 <= bps <= 10000,
                0 <= amount <= u64::MAX,
        ;
    }
    let wide: u128 = amount as u128 * bps as u128 / 10000;
    wide as u64
}

/// `a * b / d` with a saturating product is never more than `a` when
/// `b < d`.
pub proof fn lemma_scaled_down(a: u64, b: u64, d: u64)
    requires
        b < d,
    ensures
        saturating_product(a, b) / d <= a,
{
    assert(a * b / (d as int) <= a) by (nonlinear_arith)
        requires
            0 <= b < d,
            0 <= a,
    ;
    if a * b > u64::MAX {
        assert(u64::MAX / d <= a * b / (d as int)) by (nonlinear_arith)
            requires
                0 < d,
                u64::MAX < a * b,
        ;
    }
}

} // verus!
