//! Proportional parts of an amount, rounded down, and the arithmetic of the
//! contract-wide counters, which stop at the ends of their range.

use vstd::prelude::*;

verus! {

/// The part `numerator / denominator` of `amount`, rounded down.
pub open spec fn part_of(amount: u128, numerator: u32, denominator: u32) -> int {
    (amount * numerator) / (denominator as int)
}

/// A part of at most the whole lies between zero and the amount.
pub proof fn lemma_part_bounds(amount: u128, numerator: u32, denominator: u32)
    requires
        0 < denominator,
        numerator <= denominator,
    ensures
        0 <= part_of(amount, numerator, denominator) <= amount,
{
    let a = amount as int;
    let n = numerator as int;
    let d = denominator as int;
    vstd::arithmetic::mul::lemma_mul_nonnegative(a, n);
    vstd::arithmetic::mul::lemma_mul_inequality(n, d, a);
    vstd::arithmetic::mul::lemma_mul_is_commutative(a, n);
    vstd::arithmetic::mul::lemma_mul_is_commutative(a, d);
    vstd::arithmetic::div_mod::lemma_multiply_divide_le(a * n, d, a);
    vstd::arithmetic::div_mod::lemma_div_pos_is_pos(a * n, d);
}

/// Computes the part `numerator / denominator` of `amount`, rounded down,
/// for every amount: the product is never formed in full.
pub fn part(amount: u128, numerator: u32, denominator: u32) -> (share: u128)
    requires
        0 < denominator,
        numerator <= denominator,
    ensures
        share == part_of(amount, numerator, denominator),
        share <= amount,
{
    let n = numerator as u128;
    let d = denominator as u128;
    let whole = amount / d;
    let rest = amount % d;
    proof {
        let a = amount as int;
        let ni = numerator as int;
        let di = denominator as int;
        let q = whole as int;
        let r = rest as int;
        vstd::arithmetic::div_mod::lemma_fundamental_div_mod(a, di);
        assert(a == di * q + r);
        assert(q * ni <= q * di) by (nonlinear_arith)
            requires
                0 <= q,
                0 <= ni <= di,
        ;
        assert(q * di == di * q) by (nonlinear_arith);
        assert(0 <= r * ni < 0x1_0000_0000_0000_0000) by (nonlinear_arith)
            requires
                0 <= r < 0x1_0000_0000,
                0 <= ni < 0x1_0000_0000,
        ;
        assert(0 <= q * ni) by (nonlinear_arith)
            requires
                0 <= q,
                0 <= ni,
        ;
        assert(a * ni == r * ni + (q * ni) * di) by (nonlinear_arith)
            requires
                a == di * q + r,
        ;
        vstd::arithmetic::div_mod::lemma_hoist_over_denominator(r * ni, q * ni, di as nat);
        assert((r * ni) / di + q * ni == (a * ni) / di);
        lemma_part_bounds(amount, numerator, denominator);
    }
    whole * n + (rest * n) / d
}

/// A counter one higher, or at its maximum if it was there already.
pub open spec fn bumped(counter: u64) -> u64 {
    if counter == u64::MAX {
        counter
    } else {
        (counter + 1) as u64
    }
}

/// A total raised by `amount`, held at the type's maximum.
pub open spec fn raised(total: u128, amount: u128) -> u128 {
    if total + amount > u128::MAX {
        u128::MAX
    } else {
        (total + amount) as u128
    }
}

/// A total lowered by `amount`, held at zero.
pub open spec fn lowered(total: u128, amount: u128) -> u128 {
    if total < amount {
        0
    } else {
        (total - amount) as u128
    }
}

} // verus!
