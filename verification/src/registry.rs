//! The registry: the ordered, append-only collection of asset ledger
//! entries, the global fee accumulator, and the buy/sell state transitions.
//!
//! Every operation is atomic: it either commits its full state change or
//! returns an error leaving the registry exactly as it was.  The outcome of
//! each operation, including the exact condition under which each error is
//! returned, is captured by `buy_outcome` and `sell_outcome`.

use crate::curve::{
    eval_reserve, eval_supply, spec_reserve_at, spec_reserve_fault, spec_supply_at,
};
use crate::fee::{compute_fee, lemma_fee_le_amount, spec_fee, PLATFORM_FEE_BP};
use crate::ledger::{check_progress, entry_inv, ErrorCode, TokenInfo, PROGRESS_THRESHOLD};
use vstd::prelude::*;

verus! {

/// Process-wide ledger: created once, mutated by every trade.
pub struct ProgramState {
    /// Count of registered assets plus one (the count starts at a sentinel
    /// value of 1 before any asset exists).
    pub token_count: u64,
    /// Cumulative fee reserve across all assets; monotonically increasing.
    pub total_fee_collected: u128,
    /// Asset ledger entries, indexed by the identifier assigned at creation;
    /// append-only, never removed or reordered.
    pub tokens: Vec<TokenInfo>,
}

/// Registry invariant: `token_count` runs one ahead of the entry count, and
/// every entry satisfies its own invariant.
pub open spec fn state_inv(s: ProgramState) -> bool {
    &&& s.token_count as int == s.tokens@.len() + 1
    &&& forall|j: int| 0 <= j < s.tokens@.len() ==> entry_inv(#[trigger] s.tokens@[j])
}

/// Whether `token_id` names an existing entry.
pub open spec fn valid_token_id(s: ProgramState, token_id: u64) -> bool {
    (token_id as int) < s.tokens@.len()
}

/// Fee taken from a buy of `gross`.
pub open spec fn spec_buy_fee(gross: int) -> int {
    spec_fee(gross, PLATFORM_FEE_BP as int)
}

/// Net reserve credited to the curve by a buy of `gross`.
pub open spec fn spec_buy_net(gross: int) -> int {
    gross - spec_buy_fee(gross)
}

/// Exactly when a buy of `gross` against bonding-phase entry `e` faults:
/// the reserve counter would overflow, the curve prices a negative
/// issuance, or the fee accumulator would overflow.
pub open spec fn spec_buy_fault(e: TokenInfo, total_fee: int, gross: int) -> bool {
    let x2 = e.currency_collected + spec_buy_net(gross);
    ||| x2 > u128::MAX
    ||| spec_supply_at(x2) < e.token_sold
    ||| total_fee + spec_buy_fee(gross) > u128::MAX
}

/// The entry as a successful buy of `gross` leaves it: both counters are
/// moved onto the curve together, and the phase flag transitions exactly
/// when the new reserve reaches the progress threshold.
pub open spec fn spec_buy_updated(e: TokenInfo, gross: int) -> TokenInfo {
    let x2 = (e.currency_collected + spec_buy_net(gross)) as u128;
    TokenInfo {
        mint: e.mint,
        name: e.name,
        symbol: e.symbol,
        creator: e.creator,
        token_sold: spec_supply_at(x2 as int) as u128,
        currency_collected: x2,
        is_dex_phase: x2 >= PROGRESS_THRESHOLD,
    }
}

/// Full specification of `purchase_token`: which error comes back on which
/// states and inputs, and the exact state change on success.
pub open spec fn buy_outcome(
    pre: ProgramState,
    post: ProgramState,
    token_id: u64,
    gross: u64,
    r: Result<u128, ErrorCode>,
) -> bool {
    if !valid_token_id(pre, token_id) {
        r == Err::<u128, ErrorCode>(ErrorCode::InvalidTokenId) && post == pre
    } else {
        let e = pre.tokens@[token_id as int];
        if e.is_dex_phase {
            r == Err::<u128, ErrorCode>(ErrorCode::AlreadyInDexPhase) && post == pre
        } else if spec_buy_fault(e, pre.total_fee_collected as int, gross as int) {
            r == Err::<u128, ErrorCode>(ErrorCode::ArithmeticFault) && post == pre
        } else {
            let x2 = e.currency_collected + spec_buy_net(gross as int);
            &&& r == Ok::<u128, ErrorCode>((spec_supply_at(x2) - e.token_sold) as u128)
            &&& post.tokens@ == pre.tokens@.update(
                token_id as int,
                spec_buy_updated(e, gross as int),
            )
            &&& post.total_fee_collected == pre.total_fee_collected + spec_buy_fee(gross as int)
            &&& post.token_count == pre.token_count
        }
    }
}

/// Fee taken from the gross payout of a sell of `amount` against `e`.
pub open spec fn spec_sell_fee(e: TokenInfo, amount: int) -> int {
    spec_fee(e.currency_collected - spec_reserve_at(e.token_sold - amount), PLATFORM_FEE_BP as int)
}

/// Net payout handed to the trader by a successful sell of `amount`.
pub open spec fn spec_sell_payout(e: TokenInfo, amount: int) -> int {
    e.currency_collected - spec_reserve_at(e.token_sold - amount) - spec_sell_fee(e, amount)
}

/// Exactly when a sell of `amount > 0` against bonding-phase entry `e`
/// faults: the amount exceeds the sold supply, the inverse curve evaluation
/// faults, the payout comes out negative, or a fee computation overflows.
pub open spec fn spec_sell_fault(e: TokenInfo, total_fee: int, amount: int) -> bool {
    let y2 = e.token_sold - amount;
    let x2 = spec_reserve_at(y2);
    let payout = e.currency_collected - x2;
    ||| amount > e.token_sold
    ||| spec_reserve_fault(y2)
    ||| x2 > e.currency_collected
    ||| payout * (PLATFORM_FEE_BP as int) > u128::MAX
    ||| total_fee + spec_fee(payout, PLATFORM_FEE_BP as int) > u128::MAX
}

/// The entry as a successful sell of `amount` leaves it: the counters move
/// back down the curve together; the phase flag is untouched.
pub open spec fn spec_sell_updated(e: TokenInfo, amount: int) -> TokenInfo {
    TokenInfo {
        mint: e.mint,
        name: e.name,
        symbol: e.symbol,
        creator: e.creator,
        token_sold: (e.token_sold - amount) as u128,
        currency_collected: spec_reserve_at(e.token_sold - amount) as u128,
        is_dex_phase: e.is_dex_phase,
    }
}

/// Full specification of `sell_token`.
pub open spec fn sell_outcome(
    pre: ProgramState,
    post: ProgramState,
    token_id: u64,
    amount: u64,
    r: Result<u128, ErrorCode>,
) -> bool {
    if !valid_token_id(pre, token_id) {
        r == Err::<u128, ErrorCode>(ErrorCode::InvalidTokenId) && post == pre
    } else {
        let e = pre.tokens@[token_id as int];
        if e.is_dex_phase {
            r == Err::<u128, ErrorCode>(ErrorCode::AlreadyInDexPhase) && post == pre
        } else if amount == 0 {
            r == Err::<u128, ErrorCode>(ErrorCode::InvalidAmount) && post == pre
        } else if spec_sell_fault(e, pre.total_fee_collected as int, amount as int) {
            r == Err::<u128, ErrorCode>(ErrorCode::ArithmeticFault) && post == pre
        } else {
            &&& r == Ok::<u128, ErrorCode>(spec_sell_payout(e, amount as int) as u128)
            &&& post.tokens@ == pre.tokens@.update(
                token_id as int,
                spec_sell_updated(e, amount as int),
            )
            &&& post.total_fee_collected == pre.total_fee_collected + spec_sell_fee(
                e,
                amount as int,
            )
            &&& post.token_count == pre.token_count
        }
    }
}

/// One-time setup of the registry: the asset count starts at its sentinel
/// value of 1 and no fees have been collected.
pub fn initialize() -> (s: ProgramState)
    ensures
        s.token_count == 1,
        s.total_fee_collected == 0,
        s.tokens@.len() == 0,
        state_inv(s),
{
    ProgramState { token_count: 1, total_fee_collected: 0, tokens: Vec::new() }
}

/// Appends a fresh bonding-phase entry with zeroed counters and returns its
/// identifier (its index in the entry sequence).
pub fn create_token(
    state: &mut ProgramState,
    name: String,
    symbol: String,
    mint: [u8; 32],
    creator: [u8; 32],
) -> (r: Result<u64, ErrorCode>)
    ensures
        old(state).token_count == u64::MAX ==> r == Err::<u64, ErrorCode>(
            ErrorCode::ArithmeticFault,
        ) && *final(state) == *old(state),
        old(state).token_count < u64::MAX ==> {
            &&& r == Ok::<u64, ErrorCode>(old(state).tokens@.len() as u64)
            &&& final(state).tokens@ == old(state).tokens@.push(
                (TokenInfo {
                    mint,
                    name,
                    symbol,
                    creator,
                    token_sold: 0,
                    currency_collected: 0,
                    is_dex_phase: false,
                }),
            )
            &&& final(state).token_count == old(state).token_count + 1
            &&& final(state).total_fee_collected == old(state).total_fee_collected
        },
        state_inv(*old(state)) ==> state_inv(*final(state)),
{
    if state.token_count == u64::MAX {
        return Err(ErrorCode::ArithmeticFault);
    }
    let id: u64 = state.tokens.len() as u64;
    let info = TokenInfo {
        mint,
        name,
        symbol,
        creator,
        token_sold: 0,
        currency_collected: 0,
        is_dex_phase: false,
    };
    state.tokens.push(info);
    state.token_count = state.token_count + 1;
    Ok(id)
}

/// Buys against the curve: takes the platform fee from the gross amount,
/// credits the net to the reserve, issues the curve-priced supply delta,
/// and fires the phase check.  Commits nothing on any error.
pub fn purchase_token(
    state: &mut ProgramState,
    token_id: u64,
    purchase_currency_amount: u64,
) -> (r: Result<u128, ErrorCode>)
    ensures
        buy_outcome(*old(state), *final(state), token_id, purchase_currency_amount, r),
        state_inv(*old(state)) ==> state_inv(*final(state)),
{
    let n: u64 = state.tokens.len() as u64;
    if token_id >= n {
        return Err(ErrorCode::InvalidTokenId);
    }
    let idx: usize = token_id as usize;
    if state.tokens[idx].is_dex_phase {
        return Err(ErrorCode::AlreadyInDexPhase);
    }
    let gross: u64 = purchase_currency_amount;
    let fee128: u128 = match compute_fee(gross as u128, PLATFORM_FEE_BP) {
        Ok(f) => f,
        Err(e) => {
            proof {
                assert(false);
            }
            return Err(e);
        },
    };
    proof {
        lemma_fee_le_amount(gross as int, PLATFORM_FEE_BP as int);
    }
    let fee: u64 = fee128 as u64;
    let net: u64 = gross - fee;
    let x1: u128 = state.tokens[idx].currency_collected;
    let y1: u128 = state.tokens[idx].token_sold;
    let x2: u128 = match x1.checked_add(net as u128) {
        Some(v) => v,
        None => {
            return Err(ErrorCode::ArithmeticFault);
        },
    };
    let y2: u128 = eval_supply(x2);
    let tokens_issued: u128 = match y2.checked_sub(y1) {
        Some(v) => v,
        None => {
            return Err(ErrorCode::ArithmeticFault);
        },
    };
    let new_total: u128 = match state.total_fee_collected.checked_add(fee as u128) {
        Some(v) => v,
        None => {
            return Err(ErrorCode::ArithmeticFault);
        },
    };
    let info = &mut state.tokens[idx];
    info.currency_collected = x2;
    info.token_sold = y2;
    check_progress(info);
    state.total_fee_collected = new_total;
    proof {
        let e = old(state).tokens@[token_id as int];
        assert(state.tokens@[token_id as int] == spec_buy_updated(e, gross as int));
        assert(state.tokens@ == old(state).tokens@.update(
            token_id as int,
            spec_buy_updated(e, gross as int),
        ));
        if state_inv(*old(state)) {
            assert forall|j: int| 0 <= j < state.tokens@.len() implies entry_inv(
                #[trigger] state.tokens@[j],
            ) by {
                if j != token_id as int {
                    assert(state.tokens@[j] == old(state).tokens@[j]);
                }
            }
        }
    }
    Ok(tokens_issued)
}

/// Sells back to the curve: retires `sell_amount` of the sold supply,
/// prices the reserve released by the inverse evaluation, takes the
/// platform fee from that payout, and reports the net.  Commits nothing on
/// any error.
pub fn sell_token(state: &mut ProgramState, token_id: u64, sell_amount: u64) -> (r: Result<
    u128,
    ErrorCode,
>)
    ensures
        sell_outcome(*old(state), *final(state), token_id, sell_amount, r),
        state_inv(*old(state)) ==> state_inv(*final(state)),
{
    let n: u64 = state.tokens.len() as u64;
    if token_id >= n {
        return Err(ErrorCode::InvalidTokenId);
    }
    let idx: usize = token_id as usize;
    if state.tokens[idx].is_dex_phase {
        return Err(ErrorCode::AlreadyInDexPhase);
    }
    if sell_amount == 0 {
        return Err(ErrorCode::InvalidAmount);
    }
    let x1: u128 = state.tokens[idx].currency_collected;
    let y1: u128 = state.tokens[idx].token_sold;
    let y2: u128 = match y1.checked_sub(sell_amount as u128) {
        Some(v) => v,
        None => {
            return Err(ErrorCode::ArithmeticFault);
        },
    };
    let x2: u128 = match eval_reserve(y2) {
        Ok(v) => v,
        Err(e) => {
            return Err(e);
        },
    };
    let gross_payout: u128 = match x1.checked_sub(x2) {
        Some(v) => v,
        None => {
            return Err(ErrorCode::ArithmeticFault);
        },
    };
    let fee: u128 = match compute_fee(gross_payout, PLATFORM_FEE_BP) {
        Ok(f) => f,
        Err(e) => {
            return Err(e);
        },
    };
    proof {
        lemma_fee_le_amount(gross_payout as int, PLATFORM_FEE_BP as int);
    }
    let net_payout: u128 = gross_payout - fee;
    let new_total: u128 = match state.total_fee_collected.checked_add(fee) {
        Some(v) => v,
        None => {
            return Err(ErrorCode::ArithmeticFault);
        },
    };
    let info = &mut state.tokens[idx];
    info.currency_collected = x2;
    info.token_sold = y2;
    state.total_fee_collected = new_total;
    proof {
        let e = old(state).tokens@[token_id as int];
        assert(state.tokens@[token_id as int] == spec_sell_updated(e, sell_amount as int));
        assert(state.tokens@ == old(state).tokens@.update(
            token_id as int,
            spec_sell_updated(e, sell_amount as int),
        ));
        if state_inv(*old(state)) {
            assert forall|j: int| 0 <= j < state.tokens@.len() implies entry_inv(
                #[trigger] state.tokens@[j],
            ) by {
                if j != token_id as int {
                    assert(state.tokens@[j] == old(state).tokens@[j]);
                }
            }
        }
    }
    Ok(net_payout)
}

/// Law: the phase transition is one-way across buys.  Whatever a buy does,
/// an entry whose phase flag is set keeps it set; and a buy aimed at such
/// an entry is rejected with `AlreadyInDexPhase` and changes nothing.
pub proof fn lemma_buy_phase_permanent(
    pre: ProgramState,
    post: ProgramState,
    token_id: u64,
    gross: u64,
    r: Result<u128, ErrorCode>,
    j: int,
)
    requires
        buy_outcome(pre, post, token_id, gross, r),
        0 <= j < pre.tokens@.len(),
        pre.tokens@[j].is_dex_phase,
    ensures
        post.tokens@.len() == pre.tokens@.len(),
        post.tokens@[j].is_dex_phase,
        j == token_id as int ==> r == Err::<u128, ErrorCode>(ErrorCode::AlreadyInDexPhase) && post
            == pre,
{
}

/// Law: the phase transition is one-way across sells, and a sell aimed at
/// a transitioned entry is rejected with `AlreadyInDexPhase` and changes
/// nothing.
pub proof fn lemma_sell_phase_permanent(
    pre: ProgramState,
    post: ProgramState,
    token_id: u64,
    amount: u64,
    r: Result<u128, ErrorCode>,
    j: int,
)
    requires
        sell_outcome(pre, post, token_id, amount, r),
        0 <= j < pre.tokens@.len(),
        pre.tokens@[j].is_dex_phase,
    ensures
        post.tokens@.len() == pre.tokens@.len(),
        post.tokens@[j].is_dex_phase,
        j == token_id as int ==> r == Err::<u128, ErrorCode>(ErrorCode::AlreadyInDexPhase) && post
            == pre,
{
}

/// Law: two successful buys against the same entry land on the same
/// counters and fee total in either order.  A set of buys applied serially
/// in any order therefore produces the same final reserve, supply and
/// collected fees: there are no lost or order-dependent updates.
pub proof fn lemma_buys_commute(
    s0: ProgramState,
    s1: ProgramState,
    s2: ProgramState,
    s1r: ProgramState,
    s2r: ProgramState,
    token_id: u64,
    gross_a: u64,
    gross_b: u64,
    ra1: Result<u128, ErrorCode>,
    rb2: Result<u128, ErrorCode>,
    rb1: Result<u128, ErrorCode>,
    ra2: Result<u128, ErrorCode>,
)
    requires
        valid_token_id(s0, token_id),
        buy_outcome(s0, s1, token_id, gross_a, ra1),
        buy_outcome(s1, s2, token_id, gross_b, rb2),
        buy_outcome(s0, s1r, token_id, gross_b, rb1),
        buy_outcome(s1r, s2r, token_id, gross_a, ra2),
        ra1 is Ok && rb2 is Ok && rb1 is Ok && ra2 is Ok,
    ensures
        s2.tokens@[token_id as int].currency_collected == s2r.tokens@[token_id as int].currency_collected,
        s2.tokens@[token_id as int].token_sold == s2r.tokens@[token_id as int].token_sold,
        s2.total_fee_collected == s2r.total_fee_collected,
{
    let e0 = s0.tokens@[token_id as int];
    assert(s1.tokens@[token_id as int] == spec_buy_updated(e0, gross_a as int));
    assert(s1r.tokens@[token_id as int] == spec_buy_updated(e0, gross_b as int));
    assert(s2.tokens@[token_id as int] == spec_buy_updated(
        spec_buy_updated(e0, gross_a as int),
        gross_b as int,
    ));
    assert(s2r.tokens@[token_id as int] == spec_buy_updated(
        spec_buy_updated(e0, gross_b as int),
        gross_a as int,
    ));
}

/// Law: a successful buy leaves the target entry transitioned exactly when
/// its new reserve has reached the progress threshold, and leaves its
/// counters on the curve: the supply counter equals the curve's supply at
/// the reserve counter.
pub proof fn lemma_buy_lands_on_curve(
    pre: ProgramState,
    post: ProgramState,
    token_id: u64,
    gross: u64,
    r: Result<u128, ErrorCode>,
)
    requires
        buy_outcome(pre, post, token_id, gross, r),
        valid_token_id(pre, token_id),
        r is Ok,
    ensures
        post.tokens@[token_id as int].is_dex_phase == (post.tokens@[token_id as int].currency_collected
            >= PROGRESS_THRESHOLD),
        post.tokens@[token_id as int].token_sold == spec_supply_at(
            post.tokens@[token_id as int].currency_collected as int,
        ),
{
}

} // verus!
