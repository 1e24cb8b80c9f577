//! Arithmetic kernel for the curve math.
//!
//! The curve formulas multiply a large constant by `10^30`, a product that is
//! wider than 128 bits.  `shl30_div` computes the exact floor quotient of such
//! a product without ever materialising it: the caller factors the scale as
//! `5^30 * 2^30`, folds `5^30` into the 128-bit multiplicand, and this routine
//! performs the remaining 30 doublings by binary long division, carrying the
//! quotient and remainder exactly.

use vstd::arithmetic::div_mod::{
    lemma_div_is_ordered, lemma_div_multiples_vanish, lemma_fundamental_div_mod,
    lemma_fundamental_div_mod_converse,
};
use vstd::arithmetic::mul::{
    lemma_mul_inequality, lemma_mul_is_associative, lemma_mul_is_commutative,
    lemma_mul_is_distributive_add_other_way, lemma_mul_nonnegative,
};
use vstd::arithmetic::power2::{
    lemma2_to64, lemma_pow2_adds, lemma_pow2_strictly_increases, lemma_pow2_unfold, pow2,
};
use vstd::prelude::*;

verus! {

/// If after `i <= 29` doublings the long division has reached quotient `q`
/// (so `m * 2^i == q * d + r`), the final quotient `floor(m * 2^30 / d)` is
/// at least `2 * q`.  Used to show that once `q` no longer fits after one
/// more doubling, the exact quotient exceeds `u128::MAX`.
proof fn lemma_shifted_quotient_lower_bound(m: int, d: int, q: int, r: int, i: nat)
    requires
        0 < d,
        0 <= q,
        0 <= r,
        i <= 29,
        m * pow2(i) == q * d + r,
    ensures
        (m * pow2(30)) / d >= 2 * q,
{
    let e: nat = (30 - i) as nat;
    let p: int = pow2(e) as int;
    lemma_pow2_adds(i, e);
    lemma_mul_is_associative(m, pow2(i) as int, p);
    assert(m * pow2(30) == (q * d + r) * p);
    lemma_pow2_strictly_increases(0, e);
    lemma2_to64();
    assert(p >= 2);
    lemma_mul_nonnegative(q, d);
    lemma_mul_inequality(q * d, q * d + r, p);
    lemma_mul_inequality(2, p, q * d);
    lemma_mul_is_commutative(2, q * d);
    lemma_mul_is_commutative(p, q * d);
    assert(2 * (q * d) <= m * pow2(30));
    lemma_mul_is_associative(2, q, d);
    lemma_div_is_ordered((2 * q) * d, m * pow2(30), d);
    lemma_div_multiples_vanish(2 * q, d);
    lemma_mul_is_commutative(2 * q, d);
    assert(((2 * q) * d) / d == 2 * q);
}

/// Exact `floor((m * 2^30) / d)` where the dividend may exceed 128 bits.
///
/// Returns `None` exactly when the true quotient does not fit in `u128`.
/// Thirty steps of binary long division maintain the division identity
/// `m * 2^i == q * d + r` with `0 <= r < d`.
pub fn shl30_div(m: u128, d: u128) -> (r: Option<u128>)
    requires
        0 < d,
        d <= u128::MAX / 2,
    ensures
        match r {
            Some(q) => q == (m as int) * 1073741824 / (d as int),
            None => (m as int) * 1073741824 / (d as int) > u128::MAX,
        },
{
    proof {
        lemma2_to64();
        lemma_fundamental_div_mod(m as int, d as int);
        lemma_mul_is_commutative(d as int, (m as int) / (d as int));
    }
    let mut q: u128 = m / d;
    let mut rem: u128 = m % d;
    let mut i: u64 = 0;
    while i < 30
        invariant
            0 < d,
            d <= u128::MAX / 2,
            i <= 30,
            rem < d,
            (m as int) * pow2(i as nat) == (q as int) * (d as int) + (rem as int),
        decreases 30 - i,
    {
        if q > u128::MAX / 2 {
            proof {
                lemma_shifted_quotient_lower_bound(
                    m as int,
                    d as int,
                    q as int,
                    rem as int,
                    i as nat,
                );
                lemma2_to64();
            }
            return None;
        }
        let doubled_rem: u128 = rem * 2;
        proof {
            let mi = m as int;
            let qi = q as int;
            let di = d as int;
            let ri = rem as int;
            let p: int = pow2(i as nat) as int;
            lemma_pow2_unfold((i + 1) as nat);
            lemma_mul_is_associative(mi, 2, p);
            lemma_mul_is_commutative(mi, 2);
            lemma_mul_is_associative(2, mi, p);
            assert(mi * pow2((i + 1) as nat) == 2 * (qi * di + ri));
            lemma_mul_is_associative(2, qi, di);
            lemma_mul_is_distributive_add_other_way(di, 2 * qi, 1);
            assert((2 * qi + 1) * di == 2 * (qi * di) + di);
        }
        if doubled_rem >= d {
            q = q * 2 + 1;
            rem = doubled_rem - d;
        } else {
            q = q * 2;
            rem = doubled_rem;
        }
        proof {
            lemma_mul_is_commutative(q as int, 2);
        }
        i = i + 1;
    }
    proof {
        lemma2_to64();
        lemma_fundamental_div_mod_converse(
            (m as int) * 1073741824,
            d as int,
            q as int,
            rem as int,
        );
    }
    Some(q)
}

} // verus!
