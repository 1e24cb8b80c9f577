//! A bonding-curve ledger engine.
//!
//! Each tracked asset has an issuance curve that deterministically prices
//! buy and sell operations against a cumulative reserve, transitions to an
//! external venue once a reserve threshold is crossed, and accrues a
//! basis-point fee on every trade.
//!
//! All curve and fee arithmetic is checked: overflow, underflow and zero
//! divisors abort the enclosing trade with `ErrorCode::ArithmeticFault` and
//! leave the ledger untouched.

pub mod curve;
pub mod fee;
pub mod ledger;
pub mod math;
pub mod registry;
