//! Basis-point fee calculator.

use crate::ledger::ErrorCode;
use vstd::arithmetic::div_mod::{
    lemma_div_is_ordered, lemma_div_multiples_vanish, lemma_div_pos_is_pos,
};
use vstd::arithmetic::mul::{
    lemma_mul_inequality, lemma_mul_is_commutative, lemma_mul_nonnegative,
};
use vstd::prelude::*;

verus! {

/// Platform fee charged on every trade, in basis points.
pub const PLATFORM_FEE_BP: u64 = 50;

/// External-venue fee, in basis points; reserved for the post-transition
/// venue, not charged by this engine.
pub const DEX_FEE_BP: u64 = 50;

/// One whole, expressed in basis points.
pub const FEE_DENOMINATOR: u64 = 10000;

/// Fee owed on `amount` at `rate_bp` basis points, truncated toward zero.
pub open spec fn spec_fee(amount: int, rate_bp: int) -> int {
    amount * rate_bp / 10000
}

/// A fee at a rate of at most one whole never exceeds the amount it is
/// charged on, and is never negative.
pub proof fn lemma_fee_le_amount(amount: int, rate_bp: int)
    requires
        0 <= amount,
        0 <= rate_bp <= 10000,
    ensures
        0 <= spec_fee(amount, rate_bp) <= amount,
{
    lemma_mul_nonnegative(amount, rate_bp);
    lemma_div_pos_is_pos(amount * rate_bp, 10000);
    lemma_mul_inequality(rate_bp, 10000, amount);
    lemma_mul_is_commutative(amount, rate_bp);
    lemma_mul_is_commutative(10000, amount);
    lemma_div_is_ordered(amount * rate_bp, 10000 * amount, 10000);
    lemma_div_multiples_vanish(amount, 10000);
}

/// Basis-point fee extraction with checked multiplication: the only way it
/// faults is the product `amount * rate_bp` overflowing `u128`.
pub fn compute_fee(amount: u128, rate_bp: u64) -> (r: Result<u128, ErrorCode>)
    ensures
        (amount as int) * (rate_bp as int) <= u128::MAX ==> r == Ok::<u128, ErrorCode>(
            spec_fee(amount as int, rate_bp as int) as u128,
        ),
        (amount as int) * (rate_bp as int) > u128::MAX ==> r == Err::<u128, ErrorCode>(
            ErrorCode::ArithmeticFault,
        ),
{
    match amount.checked_mul(rate_bp as u128) {
        Some(product) => Ok(product / 10000),
        None => Err(ErrorCode::ArithmeticFault),
    }
}

} // verus!
