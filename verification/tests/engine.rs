//! End-to-end tests of the registry: creation, buys, sells, fees, the phase
//! transition, and the exact error taxonomy.

use iao_solana::ledger::{ErrorCode, TokenInfo};
use iao_solana::registry::{create_token, initialize, purchase_token, sell_token, ProgramState};

const MINT: [u8; 32] = [7u8; 32];
const CREATOR: [u8; 32] = [9u8; 32];

fn fresh_with_one_token() -> ProgramState {
    let mut s = initialize();
    let id = create_token(
        &mut s,
        String::from("Alpha"),
        String::from("ALP"),
        MINT,
        CREATOR,
    )
    .unwrap();
    assert_eq!(id, 0);
    s
}

#[test]
fn initialize_sets_sentinel_state() {
    let s = initialize();
    assert_eq!(s.token_count, 1);
    assert_eq!(s.total_fee_collected, 0);
    assert_eq!(s.tokens.len(), 0);
}

#[test]
fn create_token_assigns_sequential_ids() {
    let mut s = initialize();
    let a = create_token(
        &mut s,
        String::from("Alpha"),
        String::from("ALP"),
        MINT,
        CREATOR,
    )
    .unwrap();
    let b = create_token(
        &mut s,
        String::from("Beta"),
        String::from("BET"),
        [1u8; 32],
        CREATOR,
    )
    .unwrap();
    assert_eq!(a, 0);
    assert_eq!(b, 1);
    assert_eq!(s.token_count, 3);
    assert_eq!(s.tokens.len(), 2);
    assert_eq!(s.tokens[0].name, "Alpha");
    assert_eq!(s.tokens[1].symbol, "BET");
    assert_eq!(s.tokens[1].mint, [1u8; 32]);
    assert_eq!(s.tokens[0].creator, CREATOR);
    assert_eq!(s.tokens[0].token_sold, 0);
    assert_eq!(s.tokens[0].currency_collected, 0);
    assert!(!s.tokens[0].is_dex_phase);
}

#[test]
fn first_buy_issues_reference_amount() {
    // Hand-computed from the curve relation: with gross 1_000_000 the fee is
    // 5000, the net reserve 995_000, the denominator 3*10^19 + 331, and the
    // issued supply A*10^18 - floor(B*10^30 / (3*10^19 + 331)).
    let mut s = fresh_with_one_token();
    let issued = purchase_token(&mut s, 0, 1_000_000).unwrap();
    assert_eq!(issued, 1072999117999809000000011839u128);
    assert_eq!(s.tokens[0].currency_collected, 995_000);
    assert_eq!(s.tokens[0].token_sold, 1072999117999809000000011839u128);
    assert_eq!(s.total_fee_collected, 5000);
    assert!(!s.tokens[0].is_dex_phase);
}

#[test]
fn buy_fee_is_exact_floor_of_basis_points() {
    // 19999 * 50 / 10000 truncates from 99.995 to 99.
    let mut s = fresh_with_one_token();
    let issued = purchase_token(&mut s, 0, 19_999).unwrap();
    assert_eq!(s.total_fee_collected, 99);
    assert_eq!(s.tokens[0].currency_collected, 19_900);
    assert_eq!(issued, 1072999117999809000000000215u128);
}

#[test]
fn consecutive_buys_accumulate_exactly() {
    let mut s = fresh_with_one_token();
    let d1 = purchase_token(&mut s, 0, 1_000_000).unwrap();
    let r1 = s.tokens[0].currency_collected;
    let d2 = purchase_token(&mut s, 0, 1_000_000).unwrap();
    let r2 = s.tokens[0].currency_collected;
    let d3 = purchase_token(&mut s, 0, 1_000_000).unwrap();
    let r3 = s.tokens[0].currency_collected;
    // each buy credits exactly gross - fee to the reserve
    assert_eq!(r1, 995_000);
    assert_eq!(r2 - r1, 995_000);
    assert_eq!(r3 - r2, 995_000);
    assert_eq!(d1, 1072999117999809000000011839u128);
    assert_eq!(d2, 11_875);
    assert_eq!(d3, 11_874);
    assert_eq!(s.tokens[0].token_sold, 1072999117999809000000035588u128);
    assert_eq!(s.total_fee_collected, 15_000);
}

#[test]
fn buys_reach_same_state_in_either_order() {
    // Applying the same set of buys in two serial orders ends in the same
    // reserve, supply and fee totals: no order-dependent partial state.
    let mut s1 = fresh_with_one_token();
    purchase_token(&mut s1, 0, 1_000_000).unwrap();
    purchase_token(&mut s1, 0, 777_777).unwrap();
    let mut s2 = fresh_with_one_token();
    purchase_token(&mut s2, 0, 777_777).unwrap();
    purchase_token(&mut s2, 0, 1_000_000).unwrap();
    assert_eq!(s1.tokens[0].currency_collected, 1_768_889);
    assert_eq!(s1.tokens[0].currency_collected, s2.tokens[0].currency_collected);
    assert_eq!(s1.tokens[0].token_sold, 1072999117999809000000021067u128);
    assert_eq!(s1.tokens[0].token_sold, s2.tokens[0].token_sold);
    assert_eq!(s1.total_fee_collected, 8_888);
    assert_eq!(s1.total_fee_collected, s2.total_fee_collected);
}

#[test]
fn sell_margin_returns_net_reserve() {
    // After the first buy the entry holds 995_000 of reserve; the supply
    // margin above the curve's level at zero reserve is 11_839 units.
    // Selling exactly that margin releases the whole reserve, minus the
    // platform fee on the payout: 995_000 - 4975 = 990_025.
    let mut s = fresh_with_one_token();
    let issued = purchase_token(&mut s, 0, 1_000_000).unwrap();
    let before = s.tokens[0].token_sold;
    let payout = sell_token(&mut s, 0, 11_839).unwrap();
    assert_eq!(payout, 990_025);
    assert_eq!(before - s.tokens[0].token_sold, 11_839);
    assert_eq!(s.tokens[0].currency_collected, 0);
    assert_eq!(s.tokens[0].token_sold, 1072999117999809000000000000u128);
    assert_eq!(s.total_fee_collected, 5000 + 4975);
    assert!(payout <= 995_000);
    let _ = issued;
}

#[test]
fn sell_beyond_margin_faults_without_mutation() {
    // Retiring more than the margin above the curve's zero-reserve level
    // prices a negative reserve, which the checked math rejects.
    let mut s = fresh_with_one_token();
    purchase_token(&mut s, 0, 1_000_000).unwrap();
    let supply = s.tokens[0].token_sold;
    let reserve = s.tokens[0].currency_collected;
    let fees = s.total_fee_collected;
    assert_eq!(
        sell_token(&mut s, 0, 11_840),
        Err(ErrorCode::ArithmeticFault)
    );
    assert_eq!(s.tokens[0].token_sold, supply);
    assert_eq!(s.tokens[0].currency_collected, reserve);
    assert_eq!(s.total_fee_collected, fees);
}

#[test]
fn sell_zero_rejected_without_mutation() {
    let mut s = fresh_with_one_token();
    purchase_token(&mut s, 0, 1_000_000).unwrap();
    let supply = s.tokens[0].token_sold;
    let reserve = s.tokens[0].currency_collected;
    let fees = s.total_fee_collected;
    assert_eq!(sell_token(&mut s, 0, 0), Err(ErrorCode::InvalidAmount));
    assert_eq!(s.tokens[0].token_sold, supply);
    assert_eq!(s.tokens[0].currency_collected, reserve);
    assert_eq!(s.total_fee_collected, fees);
}

#[test]
fn sell_more_than_supply_faults_without_mutation() {
    let mut s = fresh_with_one_token();
    assert_eq!(sell_token(&mut s, 0, 1), Err(ErrorCode::ArithmeticFault));
    assert_eq!(s.tokens[0].token_sold, 0);
    assert_eq!(s.tokens[0].currency_collected, 0);
    assert_eq!(s.total_fee_collected, 0);
}

#[test]
fn invalid_token_id_rejected() {
    let mut empty = initialize();
    assert_eq!(
        purchase_token(&mut empty, 0, 1_000),
        Err(ErrorCode::InvalidTokenId)
    );
    assert_eq!(sell_token(&mut empty, 0, 1), Err(ErrorCode::InvalidTokenId));
    let mut s = fresh_with_one_token();
    // one past the last assigned identifier
    assert_eq!(
        purchase_token(&mut s, 1, 1_000),
        Err(ErrorCode::InvalidTokenId)
    );
    assert_eq!(sell_token(&mut s, 5, 1), Err(ErrorCode::InvalidTokenId));
}

#[test]
fn trades_touch_only_their_entry() {
    let mut s = initialize();
    create_token(
        &mut s,
        String::from("Alpha"),
        String::from("ALP"),
        MINT,
        CREATOR,
    )
    .unwrap();
    create_token(
        &mut s,
        String::from("Beta"),
        String::from("BET"),
        [1u8; 32],
        CREATOR,
    )
    .unwrap();
    purchase_token(&mut s, 1, 1_000_000).unwrap();
    assert_eq!(s.tokens[0].currency_collected, 0);
    assert_eq!(s.tokens[0].token_sold, 0);
    assert_eq!(s.tokens[1].currency_collected, 995_000);
    // the fee accumulator is shared across entries
    assert_eq!(s.total_fee_collected, 5_000);
    sell_token(&mut s, 1, 11_839).unwrap();
    assert_eq!(s.tokens[0].currency_collected, 0);
    assert_eq!(s.tokens[0].token_sold, 0);
    assert_eq!(s.total_fee_collected, 9_975);
}

#[test]
fn create_token_fails_when_counter_saturated() {
    let mut s = ProgramState {
        token_count: u64::MAX,
        total_fee_collected: 0,
        tokens: vec![],
    };
    assert_eq!(
        create_token(
            &mut s,
            String::from("Omega"),
            String::from("OMG"),
            MINT,
            CREATOR,
        ),
        Err(ErrorCode::ArithmeticFault)
    );
    assert_eq!(s.token_count, u64::MAX);
    assert_eq!(s.tokens.len(), 0);
}

#[test]
fn phase_transition_freezes_entry() {
    // An entry sitting 1000 reserve units below the progress threshold:
    // its supply counter lies on the curve at that reserve level.
    let near = TokenInfo {
        mint: MINT,
        name: String::from("Near"),
        symbol: String::from("NEA"),
        creator: CREATOR,
        token_sold: 1072999917662844070195301442u128,
        currency_collected: 263299999999999999999000u128,
        is_dex_phase: false,
    };
    let mut s = ProgramState { token_count: 2, total_fee_collected: 0, tokens: vec![near] };
    // A gross of 10_000 nets 9_950 and pushes the reserve over the threshold.
    let issued = purchase_token(&mut s, 0, 10_000).unwrap();
    assert_eq!(issued, 7);
    assert_eq!(s.tokens[0].currency_collected, 263300000000000000008950u128);
    assert!(s.tokens[0].is_dex_phase);
    // From now on every buy and sell on this entry is rejected and the
    // entry is frozen.
    let supply = s.tokens[0].token_sold;
    let reserve = s.tokens[0].currency_collected;
    let fees = s.total_fee_collected;
    assert_eq!(
        purchase_token(&mut s, 0, 1),
        Err(ErrorCode::AlreadyInDexPhase)
    );
    assert_eq!(sell_token(&mut s, 0, 1), Err(ErrorCode::AlreadyInDexPhase));
    assert!(s.tokens[0].is_dex_phase);
    assert_eq!(s.tokens[0].token_sold, supply);
    assert_eq!(s.tokens[0].currency_collected, reserve);
    assert_eq!(s.total_fee_collected, fees);
}
