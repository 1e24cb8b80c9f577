//! The bonding curve: the fixed-point relation between cumulative net
//! reserve `x` and cumulative issued supply `y`, and its two evaluations.
//!
//! With `A' = A * 10^18`, `B' = B * 10^30`, `k0 = 3 * 10^19` and `k1 = 3000`
//! the relation is
//!
//! ```text
//! A' - y == B' / (k0 + x / k1)
//! ```
//!
//! solved for `y` by `eval_supply` (used by buys) and for `x` by
//! `eval_reserve` (used by sells).  Every division is floor division; the
//! resulting truncation asymmetry between the two directions is part of the
//! pricing rule and is preserved exactly.

use crate::ledger::ErrorCode;
use crate::math::shl30_div;
use vstd::arithmetic::div_mod::{
    lemma_div_by_multiple, lemma_div_by_self, lemma_div_is_ordered,
    lemma_div_is_ordered_by_denominator, lemma_div_multiples_vanish, lemma_div_nonincreasing,
    lemma_fundamental_div_mod, lemma_mod_bound,
};
use vstd::arithmetic::mul::{lemma_mul_inequality, lemma_mul_is_commutative};
use vstd::prelude::*;

verus! {

/// Curve parameter `A`: the unscaled supply asymptote.
pub const A: u128 = 1073000191;

/// Curve parameter `B`: the unscaled numerator constant.
pub const B: u128 = 32190005730;

/// `A` brought to the curve's 10^18 fixed-point scale.
pub const A_SCALED: u128 = A * 1_000_000_000_000_000_000;

/// Constant term of the curve denominator.
pub const K0: u128 = 30_000_000_000_000_000_000;

/// Divisor applied to the reserve inside the curve denominator.
pub const K1: u128 = 3000;

/// `B * 5^30`.  The curve numerator `B * 10^30` does not fit in 128 bits;
/// it is carried as `B_POW5_30 * 2^30` and divided by `shl30_div`.
pub const B_POW5_30: u128 = B * 931_322_574_615_478_515_625;

/// `A * 10^18` as a mathematical integer.
pub open spec fn spec_a_scaled() -> int {
    A_SCALED as int
}

/// `B * 10^30` as a mathematical integer; wider than `u128`.
pub open spec fn spec_b_scaled() -> int {
    (B as int) * 1_000_000_000_000_000_000_000_000_000_000
}

/// The curve denominator `k0 + x / k1` at cumulative reserve `x`.
pub open spec fn spec_denom(x: int) -> int {
    K0 as int + x / (K1 as int)
}

/// Cumulative supply the curve assigns to cumulative net reserve `x`:
/// `A' - B' / (k0 + x / k1)`.
pub open spec fn spec_supply_at(x: int) -> int {
    spec_a_scaled() - spec_b_scaled() / spec_denom(x)
}

/// Cumulative net reserve the curve assigns to cumulative supply `y`:
/// `(B' / (A' - y) - k0) * k1`.
pub open spec fn spec_reserve_at(y: int) -> int {
    (spec_b_scaled() / (spec_a_scaled() - y) - K0 as int) * (K1 as int)
}

/// Exactly when the inverse evaluation at `y` faults: the divisor `A' - y`
/// is not positive, the quotient does not fit in `u128`, or the reserve
/// comes out negative or wider than `u128`.
pub open spec fn spec_reserve_fault(y: int) -> bool {
    ||| spec_a_scaled() - y <= 0
    ||| spec_b_scaled() / (spec_a_scaled() - y) > u128::MAX
    ||| spec_b_scaled() / (spec_a_scaled() - y) < K0 as int
    ||| spec_reserve_at(y) > u128::MAX
}

/// The curve's supply is monotone in the collected reserve, so a buy (which
/// only grows the reserve) never prices a negative issuance against an
/// entry whose counters lie on the curve.
pub proof fn lemma_supply_monotone(x1: int, x2: int)
    requires
        0 <= x1 <= x2,
    ensures
        spec_supply_at(x1) <= spec_supply_at(x2),
{
    lemma_div_is_ordered(x1, x2, K1 as int);
    lemma_div_is_ordered_by_denominator(spec_b_scaled(), spec_denom(x1), spec_denom(x2));
}

/// Law: one direction of the round-trip truncation bound.  Inverting a
/// supply level to a reserve and pricing that reserve forward again never
/// overshoots: floor division only ever loses value, so
/// `f(f_inv(y)) <= y` wherever the inverse is defined and non-negative.
pub proof fn lemma_roundtrip_supply_le(y: int)
    requires
        0 <= y < spec_a_scaled(),
        K0 as int <= spec_b_scaled() / (spec_a_scaled() - y),
    ensures
        spec_supply_at(spec_reserve_at(y)) <= y,
{
    let bp = spec_b_scaled();
    let dd = spec_a_scaled() - y;
    let q = bp / dd;
    let x = spec_reserve_at(y);
    lemma_div_by_multiple(q - K0 as int, K1 as int);
    assert(x / (K1 as int) == q - K0 as int);
    assert(spec_denom(x) == q);
    lemma_fundamental_div_mod(bp, dd);
    lemma_mod_bound(bp, dd);
    assert(dd * q <= bp);
    lemma_mul_is_commutative(dd, q);
    lemma_div_is_ordered(dd * q, bp, q);
    lemma_div_multiples_vanish(dd, q);
    assert(dd <= bp / q);
}

/// Law: the other direction of the round-trip truncation bound.  Pricing a
/// reserve forward and inverting the resulting supply recovers the reserve
/// to within one `k1` grid unit: `f_inv(f(x)) > x - k1`.
pub proof fn lemma_roundtrip_reserve_lower(x: int)
    requires
        0 <= x <= u128::MAX,
    ensures
        spec_reserve_at(spec_supply_at(x)) > x - K1,
{
    let bp = spec_b_scaled();
    let d = spec_denom(x);
    let dd = bp / d;
    let q = bp / dd;
    lemma_fundamental_div_mod(x, K1 as int);
    lemma_mod_bound(x, K1 as int);
    assert(1 <= d);
    lemma_div_nonincreasing(x, K1 as int);
    assert(d <= K0 as int + u128::MAX);
    assert(K0 as int + u128::MAX < bp);
    lemma_div_is_ordered(d, bp, d);
    lemma_div_by_self(d);
    assert(1 <= dd);
    lemma_fundamental_div_mod(bp, d);
    lemma_mod_bound(bp, d);
    assert(d * dd <= bp);
    lemma_mul_is_commutative(d, dd);
    lemma_div_is_ordered(d * dd, bp, dd);
    lemma_div_multiples_vanish(d, dd);
    assert(d <= q);
    lemma_mul_inequality(d - K0 as int, q - K0 as int, K1 as int);
    assert((d - K0 as int) * (K1 as int) <= (q - K0 as int) * (K1 as int));
    lemma_mul_is_commutative(d - K0 as int, K1 as int);
    assert((K1 as int) * (x / (K1 as int)) > x - K1);
}

/// Forward evaluation: the total supply priced at cumulative net reserve
/// `x`.  Total for every `x`: the denominator is at least `k0`, which caps
/// the quotient far below `u128::MAX` and keeps the subtraction in range.
pub fn eval_supply(x: u128) -> (y: u128)
    ensures
        y == spec_supply_at(x as int),
        y < A_SCALED,
{
    let t: u128 = x / K1;
    proof {
        lemma_div_is_ordered(x as int, u128::MAX as int, K1 as int);
    }
    let denom: u128 = K0 + t;
    proof {
        assert((B_POW5_30 as int) * 1073741824 == spec_b_scaled());
        lemma_div_is_ordered_by_denominator(spec_b_scaled(), K0 as int, denom as int);
        lemma_div_is_ordered_by_denominator(
            spec_b_scaled(),
            denom as int,
            K0 as int + (u128::MAX as int) / (K1 as int),
        );
    }
    match shl30_div(B_POW5_30, denom) {
        Some(q) => A_SCALED - q,
        None => {
            proof {
                assert(false);
            }
            0
        },
    }
}

/// Inverse evaluation: the cumulative net reserve priced at total supply
/// `y`, or `ArithmeticFault` exactly on `spec_reserve_fault(y)`.
pub fn eval_reserve(y: u128) -> (r: Result<u128, ErrorCode>)
    ensures
        !spec_reserve_fault(y as int) ==> r == Ok::<u128, ErrorCode>(
            spec_reserve_at(y as int) as u128,
        ),
        spec_reserve_fault(y as int) ==> r == Err::<u128, ErrorCode>(ErrorCode::ArithmeticFault),
{
    if y >= A_SCALED {
        return Err(ErrorCode::ArithmeticFault);
    }
    let divisor: u128 = A_SCALED - y;
    proof {
        assert((B_POW5_30 as int) * 1073741824 == spec_b_scaled());
    }
    match shl30_div(B_POW5_30, divisor) {
        None => Err(ErrorCode::ArithmeticFault),
        Some(q) => match q.checked_sub(K0) {
            None => Err(ErrorCode::ArithmeticFault),
            Some(diff) => match diff.checked_mul(K1) {
                None => Err(ErrorCode::ArithmeticFault),
                Some(x) => Ok(x),
            },
        },
    }
}

} // verus!
