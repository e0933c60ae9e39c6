//! Fixed-point scales of the exchange and the sizes of a standard scenario.

use vstd::prelude::*;

verus! {

/// One unit of the quote token, which has six decimals.
pub const QUOTE_PRECISION: u64 = 1_000_000;

/// One unit of a base asset.
pub const BASE_PRECISION: u64 = 1_000_000_000;

/// A price of one.
pub const PRICE_PRECISION: u64 = 1_000_000;

/// A peg of one.
pub const PEG_PRECISION: u128 = 1_000_000;

/// One unit of the AMM's reserves.
pub const AMM_RESERVE_PRECISION: u128 = 1_000_000_000;

/// One unit of a scaled spot balance.
pub const SPOT_BALANCE_PRECISION: u128 = 1_000_000_000;

/// An interest index of one.
pub const SPOT_CUMULATIVE_INTEREST_PRECISION: u128 = 10_000_000_000;

/// A margin weight of one.
pub const SPOT_WEIGHT_PRECISION: u32 = 10_000;

/// Full utilization.
pub const SPOT_UTILIZATION_PRECISION: u32 = 1_000_000;

/// A yearly rate of one.
pub const SPOT_RATE_PRECISION: u32 = 1_000_000;

/// One hundred percent.
pub const PERCENTAGE_PRECISION: u128 = 1_000_000;

/// The widest concentration of AMM liquidity.
pub const MAX_CONCENTRATION_COEFFICIENT: u128 = 1_414_200;

/// Funded users of a scenario.
pub const NUM_USERS: usize = 2;

/// Funded authorities that have no accounts on the exchange yet.
pub const NUM_FRESH: usize = 2;

/// Quote tokens in each user's wallet at the start.
pub const INITIAL_USDC: u64 = 1_000_000_000_000;

/// Tokens of spot market 1 in each user's wallet at the start.
pub const INITIAL_SOL: u64 = 1_000_000_000_000;

/// Quote tokens seeded into each of spot vault 0 and its mirror in the second
/// pool.
pub const SEED_PER_VAULT_USDC: u64 = 1_000_000_000;

/// Tokens seeded into the mirror of spot vault 1 in the second pool.
pub const SEED_PER_VAULT_SOL: u64 = 1_000_000_000_000;

} // verus!
