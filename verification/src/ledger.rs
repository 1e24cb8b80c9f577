//! Per-asset ledger entries and the error taxonomy.

use vstd::prelude::*;

verus! {

/// Reserve level at which an asset's bonding phase permanently ends.
///
/// The threshold is expressed in the same base unit as the gross reserve
/// amounts handed to `purchase_token`: `currency_collected` accumulates those
/// raw amounts directly, and this constant is compared against it as-is.
pub const PROGRESS_THRESHOLD: u128 = 263300 * 1_000_000_000_000_000_000;

/// Why a trade or registry operation was rejected.
#[derive(Clone, Copy, Debug, PartialEq, Eq, Structural)]
pub enum ErrorCode {
    /// The referenced asset identifier names no entry.
    InvalidTokenId,
    /// The entry has left the bonding phase; curve trading is closed.
    AlreadyInDexPhase,
    /// A required-positive quantity was zero.
    InvalidAmount,
    /// A checked add/sub/mul overflowed or underflowed, a divisor was zero,
    /// or a computed issuance/payout came out negative.
    ArithmeticFault,
}

/// One tracked asset: immutable metadata plus the two cumulative counters
/// that the curve relates, and the phase flag.
///
/// Both counters are carried in one wide integer type (`u128`) so they can
/// meet in the curve formulas without truncation.
pub struct TokenInfo {
    /// Handle of the underlying issuable unit; owned externally, only
    /// referenced here.
    pub mint: [u8; 32],
    /// Display name, fixed at creation.
    pub name: String,
    /// Ticker symbol, fixed at creation.
    pub symbol: String,
    /// Identity that created the entry.
    pub creator: [u8; 32],
    /// Cumulative supply issued through buys, net of sells.
    pub token_sold: u128,
    /// Cumulative net reserve collected (post-fee), net of sell payouts.
    pub currency_collected: u128,
    /// `false` while the entry trades on the curve; `true` forever after the
    /// phase transition.
    pub is_dex_phase: bool,
}

/// Invariant of a single entry: the supply counter stays strictly below the
/// curve's asymptote, and a bonding-phase entry sits strictly below the
/// progress threshold (the transition fires as soon as the threshold is
/// reached).
pub open spec fn entry_inv(e: TokenInfo) -> bool {
    &&& (e.token_sold as int) < crate::curve::spec_a_scaled()
    &&& (e.is_dex_phase || e.currency_collected < PROGRESS_THRESHOLD)
}

/// Fires the one-way `Bonding -> Transitioned` phase change once the
/// collected reserve has reached the progress threshold.
pub fn check_progress(token_info: &mut TokenInfo)
    ensures
        final(token_info).is_dex_phase == (old(token_info).is_dex_phase
            || old(token_info).currency_collected >= PROGRESS_THRESHOLD),
        final(token_info).mint == old(token_info).mint,
        final(token_info).name == old(token_info).name,
        final(token_info).symbol == old(token_info).symbol,
        final(token_info).creator == old(token_info).creator,
        final(token_info).token_sold == old(token_info).token_sold,
        final(token_info).currency_collected == old(token_info).currency_collected,
{
    if !token_info.is_dex_phase && token_info.currency_collected >= PROGRESS_THRESHOLD {
        token_info.is_dex_phase = true;
    }
}

} // verus!
