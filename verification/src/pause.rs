//! Pauses that must be honoured.
//!
//! Each scenario starts with a pause in force, drives one instruction, and says
//! whether the exchange answered as a paused exchange must.

pub mod bid_ask_twap;
pub mod revenue_deposit;
pub mod settle_revenue;
pub mod spot_interest;

use vstd::prelude::*;

verus! {

/// The time at which the scenarios play.
pub const CLOCK_TS: i64 = 1_700_000_000;

/// The exchange's refusal of an action that a market has paused.
pub const E_MARKET_ACTION_PAUSED: u32 = 6146;

/// The exchange's refusal of a withdrawal that a market has paused.
pub const E_MARKET_WITHDRAW_PAUSED: u32 = 6149;

/// The pause of funding on the whole exchange.
pub const EXCHANGE_FUNDING_PAUSED: u8 = 32;

} // verus!
