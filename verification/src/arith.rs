use vstd::prelude::*;

verus! {

/// `x` held to the range of a `u64`: what an operation that saturates yields.
pub open spec fn saturate(x: int) -> int {
    if x < 0 {
        0
    } else if x > u64::MAX {
        u64::MAX as int
    } else {
        x
    }
}

/// The share `amount * numerator / denominator`, rounded down.
pub open spec fn proportion(amount: int, numerator: int, denominator: int) -> int {
    amount * numerator / denominator
}

/// A proportion of an amount is never negative, and never more than the amount
/// when the numerator does not exceed the denominator.
pub proof fn lemma_proportion_bounds(amount: int, numerator: int, denominator: int)
    requires
        0 <= amount,
        0 <= numerator,
        0 < denominator,
    ensures
        0 <= proportion(amount, numerator, denominator),
        numerator <= denominator ==> proportion(amount, numerator, denominator) <= amount,
{
    assert(0 <= amount * numerator) by (nonlinear_arith)
        requires
            0 <= amount,
            0 <= numerator,
    ;
    assert(0 <= (amount * numerator) / denominator) by (nonlinear_arith)
        requires
            0 <= amount * numerator,
            0 < denominator,
    ;
    if numerator <= denominator {
        assert((amount * numerator) / denominator <= amount) by (nonlinear_arith)
            requires
                0 <= amount,
                0 <= numerator <= denominator,
                0 < denominator,
        ;
    }
}

/// The product of two numbers, saturating at the top of the range.
pub fn saturating_product(a: u64, b: u64) -> (product: u64)
    ensures
        product == saturate(a * b),
{
    assert(0 <= a * b) by (nonlinear_arith)
        requires
            0 <= a,
            0 <= b,
    ;
    match a.checked_mul(b) {
        Some(product) => product,
        None => u64::MAX,
    }
}

/// `amount * numerator / denominator`, rounded down and saturating at the top
/// of the range. The product is formed without loss, whatever its size.
pub fn scaled(amount: u64, numerator: u64, denominator: u128) -> (share: u64)
    requires
        denominator > 0,
    ensures
        share == saturate(proportion(amount as int, numerator as int, denominator as int)),
{
    assert(0 <= amount * numerator <= u128::MAX) by (nonlinear_arith)
        requires
            0 <= amount <= u64::MAX,
            0 <= numerator <= u64::MAX,
    ;
    let product: u128 = (amount as u128) * (numerator as u128);
    let quotient: u128 = product / denominator;
    proof {
        lemma_proportion_bounds(amount as int, numerator as int, denominator as int);
    }
    if quotient > u64::MAX as u128 {
        u64::MAX
    } else {
        quotient as u64
    }
}

} // verus!
