//! The accounts that a scenario starts from.
//!
//! Each type lists the fields that some scenario sets; every other field of the
//! account on the exchange keeps its default. A `blank` account sets none.

use vstd::prelude::*;
use crate::constants::{
    MAX_CONCENTRATION_COEFFICIENT, PEG_PRECISION, PRICE_PRECISION,
    SPOT_CUMULATIVE_INTEREST_PRECISION, SPOT_WEIGHT_PRECISION,
};
use crate::keys::{system_program_id, Pubkey};
use crate::model::BalanceType;
use crate::wire::{le, push_bytes, push_len};

verus! {

/// Where a market's price comes from.
#[derive(Clone, Copy, PartialEq, Eq, Structural, Debug)]
pub enum OracleSource {
    /// A price of one, with no oracle account.
    QuoteAsset,
    /// A signed price feed.
    PythLazer,
}

#[derive(Clone, Copy, PartialEq, Eq, Structural, Debug)]
pub enum MarketStatus {
    Initialized,
    Active,
    Settlement,
}

/// How far a spot asset is trusted as collateral.
#[derive(Clone, Copy, PartialEq, Eq, Structural, Debug)]
pub enum AssetTier {
    Collateral,
    Cross,
    Unlisted,
}

/// How speculative a perp contract is.
#[derive(Clone, Copy, PartialEq, Eq, Structural, Debug)]
pub enum ContractTier {
    B,
    HighlySpeculative,
}

/// The price history that a market starts with.
#[derive(Clone, Copy, PartialEq, Eq, Structural, Debug)]
pub enum OracleHistory {
    /// None at all.
    Blank,
    /// That of the quote asset.
    Quote,
    /// A last price and averages of the given price.
    Flat { price: i64 },
}

/// The keys that hold the exchange's hot roles.
#[derive(Clone, Copy, PartialEq, Eq, Debug)]
pub struct HotRoles {
    pub amm_crank: Pubkey,
    pub lp_cache: Pubkey,
    pub lp_swap: Pubkey,
    pub lp_settle: Pubkey,
    pub feature_flag: Pubkey,
    pub fuel: Pubkey,
    pub user_flag: Pubkey,
    pub vault_deposit: Pubkey,
    pub mm_oracle_crank: Pubkey,
    pub amm_spread_adjust: Pubkey,
    pub fee_withdraw: Pubkey,
}

impl HotRoles {
    /// One key for every role.
    #[verifier::allow_in_spec]
    pub fn all(key: Pubkey) -> HotRoles
        returns
            (HotRoles {
                amm_crank: key,
                lp_cache: key,
                lp_swap: key,
                lp_settle: key,
                feature_flag: key,
                fuel: key,
                user_flag: key,
                vault_deposit: key,
                mm_oracle_crank: key,
                amm_spread_adjust: key,
                fee_withdraw: key,
            }),
    {
        HotRoles {
            amm_crank: key,
            lp_cache: key,
            lp_swap: key,
            lp_settle: key,
            feature_flag: key,
            fuel: key,
            user_flag: key,
            vault_deposit: key,
            mm_oracle_crank: key,
            amm_spread_adjust: key,
            fee_withdraw: key,
        }
    }
}

/// The exchange's singleton.
#[derive(Clone, Copy, PartialEq, Eq, Debug)]
pub struct StateAccount {
    pub signer: Pubkey,
    pub signer_nonce: u8,
    /// A pause bit per operation; zero is active.
    pub exchange_status: u8,
    pub number_of_spot_markets: u16,
    pub number_of_markets: u16,
    pub feature_bit_flags: u8,
    pub liquidation_margin_buffer_ratio: u32,
    pub initial_pct_to_liquidate: u16,
    pub liquidation_duration: u8,
    pub hot_roles: HotRoles,
    pub protocol_fee_recipient_perp: Pubkey,
    pub protocol_fee_recipient_spot: Pubkey,
    pub warm_admin: Pubkey,
}

impl StateAccount {
    #[verifier::allow_in_spec]
    pub fn blank() -> StateAccount
        returns
            (StateAccount {
                signer: system_program_id(),
                signer_nonce: 0,
                exchange_status: 0,
                number_of_spot_markets: 0,
                number_of_markets: 0,
                feature_bit_flags: 0,
                liquidation_margin_buffer_ratio: 0,
                initial_pct_to_liquidate: 0,
                liquidation_duration: 0,
                hot_roles: HotRoles::all(system_program_id()),
                protocol_fee_recipient_perp: system_program_id(),
                protocol_fee_recipient_spot: system_program_id(),
                warm_admin: system_program_id(),
            }),
    {
        StateAccount {
            signer: system_program_id(),
            signer_nonce: 0,
            exchange_status: 0,
            number_of_spot_markets: 0,
            number_of_markets: 0,
            feature_bit_flags: 0,
            liquidation_margin_buffer_ratio: 0,
            initial_pct_to_liquidate: 0,
            liquidation_duration: 0,
            hot_roles: HotRoles::all(system_program_id()),
            protocol_fee_recipient_perp: system_program_id(),
            protocol_fee_recipient_spot: system_program_id(),
            warm_admin: system_program_id(),
        }
    }

    /// A state with one market of each kind and the given pause bits.
    #[verifier::allow_in_spec]
    pub fn one_market(signer: Pubkey, signer_nonce: u8, exchange_status: u8) -> StateAccount
        returns
            (StateAccount {
                signer,
                signer_nonce,
                exchange_status,
                number_of_spot_markets: 1,
                number_of_markets: 1,
                ..StateAccount::blank()
            }),
    {
        StateAccount {
            signer,
            signer_nonce,
            exchange_status,
            number_of_spot_markets: 1,
            number_of_markets: 1,
            ..StateAccount::blank()
        }
    }
}

/// A spot market.
#[derive(Clone, Copy, PartialEq, Eq, Debug)]
pub struct SpotMarketAccount {
    pub pubkey: Pubkey,
    pub oracle: Pubkey,
    pub oracle_source: OracleSource,
    pub mint: Pubkey,
    pub vault: Pubkey,
    pub if_vault: Pubkey,
    pub market_index: u16,
    pub pool_id: u8,
    pub decimals: u32,
    pub status: MarketStatus,
    pub asset_tier: AssetTier,
    pub cumulative_deposit_interest: u128,
    pub cumulative_borrow_interest: u128,
    pub deposit_balance: u128,
    pub borrow_balance: u128,
    pub initial_asset_weight: u32,
    pub maintenance_asset_weight: u32,
    pub initial_liability_weight: u32,
    pub maintenance_liability_weight: u32,
    pub withdraw_guard_threshold: u64,
    pub revenue_settle_period: i64,
    pub unstaking_period: i64,
    pub if_fee_factor: u32,
    pub order_step_size: u64,
    pub order_tick_size: u64,
    pub optimal_utilization: u32,
    pub optimal_borrow_rate: u32,
    pub max_borrow_rate: u32,
    pub last_interest_ts: u64,
    /// A pause bit per operation.
    pub paused_operations: u8,
    pub oracle_history: OracleHistory,
}

impl SpotMarketAccount {
    /// An active six-decimal market with unit weights and indices, priced at
    /// one, whose withdraw limiter is off.
    #[verifier::allow_in_spec]
    pub fn quote(pubkey: Pubkey, mint: Pubkey, vault: Pubkey, if_vault: Pubkey) -> SpotMarketAccount
        returns
            (SpotMarketAccount {
                pubkey,
                oracle: system_program_id(),
                oracle_source: OracleSource::QuoteAsset,
                mint,
                vault,
                if_vault,
                market_index: 0,
                pool_id: 0,
                decimals: 6,
                status: MarketStatus::Active,
                asset_tier: AssetTier::Unlisted,
                cumulative_deposit_interest: SPOT_CUMULATIVE_INTEREST_PRECISION,
                cumulative_borrow_interest: SPOT_CUMULATIVE_INTEREST_PRECISION,
                deposit_balance: 0,
                borrow_balance: 0,
                initial_asset_weight: SPOT_WEIGHT_PRECISION,
                maintenance_asset_weight: SPOT_WEIGHT_PRECISION,
                initial_liability_weight: SPOT_WEIGHT_PRECISION,
                maintenance_liability_weight: SPOT_WEIGHT_PRECISION,
                withdraw_guard_threshold: 0xffff_ffff_ffff_ffff,
                revenue_settle_period: 0,
                unstaking_period: 0,
                if_fee_factor: 0,
                order_step_size: 1,
                order_tick_size: 1,
                optimal_utilization: 0,
                optimal_borrow_rate: 0,
                max_borrow_rate: 0,
                last_interest_ts: 0,
                paused_operations: 0,
                oracle_history: OracleHistory::Quote,
            }),
    {
        SpotMarketAccount {
            pubkey,
            oracle: system_program_id(),
            oracle_source: OracleSource::QuoteAsset,
            mint,
            vault,
            if_vault,
            market_index: 0,
            pool_id: 0,
            decimals: 6,
            status: MarketStatus::Active,
            asset_tier: AssetTier::Unlisted,
            cumulative_deposit_interest: SPOT_CUMULATIVE_INTEREST_PRECISION,
            cumulative_borrow_interest: SPOT_CUMULATIVE_INTEREST_PRECISION,
            deposit_balance: 0,
            borrow_balance: 0,
            initial_asset_weight: SPOT_WEIGHT_PRECISION,
            maintenance_asset_weight: SPOT_WEIGHT_PRECISION,
            initial_liability_weight: SPOT_WEIGHT_PRECISION,
            maintenance_liability_weight: SPOT_WEIGHT_PRECISION,
            withdraw_guard_threshold: 0xffff_ffff_ffff_ffff,
            revenue_settle_period: 0,
            unstaking_period: 0,
            if_fee_factor: 0,
            order_step_size: 1,
            order_tick_size: 1,
            optimal_utilization: 0,
            optimal_borrow_rate: 0,
            max_borrow_rate: 0,
            last_interest_ts: 0,
            paused_operations: 0,
            oracle_history: OracleHistory::Quote,
        }
    }
}

/// The curve of a perp market.
#[derive(Clone, Copy, PartialEq, Eq, Debug)]
pub struct AmmAccount {
    pub base_asset_reserve: u128,
    pub quote_asset_reserve: u128,
    pub terminal_quote_asset_reserve: u128,
    pub sqrt_k: u128,
    pub peg_multiplier: u128,
    pub base_asset_amount_with_amm: i128,
    pub curve_update_intensity: u8,
    pub max_fill_reserve_fraction: u16,
    pub max_base_asset_reserve: u128,
    pub min_base_asset_reserve: u128,
    pub concentration_coef: u128,
    pub max_slippage_ratio: u16,
    pub base_spread: u32,
    pub max_spread: u32,
    pub fee_pool_scaled_balance: u128,
}

impl AmmAccount {
    #[verifier::allow_in_spec]
    pub fn blank() -> AmmAccount
        returns
            (AmmAccount {
                base_asset_reserve: 0,
                quote_asset_reserve: 0,
                terminal_quote_asset_reserve: 0,
                sqrt_k: 0,
                peg_multiplier: 0,
                base_asset_amount_with_amm: 0,
                curve_update_intensity: 0,
                max_fill_reserve_fraction: 0,
                max_base_asset_reserve: 0,
                min_base_asset_reserve: 0,
                concentration_coef: 0,
                max_slippage_ratio: 0,
                base_spread: 0,
                max_spread: 0,
                fee_pool_scaled_balance: 0,
            }),
    {
        AmmAccount {
            base_asset_reserve: 0,
            quote_asset_reserve: 0,
            terminal_quote_asset_reserve: 0,
            sqrt_k: 0,
            peg_multiplier: 0,
            base_asset_amount_with_amm: 0,
            curve_update_intensity: 0,
            max_fill_reserve_fraction: 0,
            max_base_asset_reserve: 0,
            min_base_asset_reserve: 0,
            concentration_coef: 0,
            max_slippage_ratio: 0,
            base_spread: 0,
            max_spread: 0,
            fee_pool_scaled_balance: 0,
        }
    }

    /// Equal reserves at a peg of one: a curve priced at one.
    #[verifier::allow_in_spec]
    pub fn at_par(reserve: u128) -> AmmAccount
        returns
            (AmmAccount {
                base_asset_reserve: reserve,
                quote_asset_reserve: reserve,
                sqrt_k: reserve,
                peg_multiplier: PEG_PRECISION,
                ..AmmAccount::blank()
            }),
    {
        AmmAccount {
            base_asset_reserve: reserve,
            quote_asset_reserve: reserve,
            sqrt_k: reserve,
            peg_multiplier: PEG_PRECISION,
            ..AmmAccount::blank()
        }
    }
}

/// A perp market.
#[derive(Clone, Copy, PartialEq, Eq, Debug)]
pub struct PerpMarketAccount {
    pub pubkey: Pubkey,
    pub oracle: Pubkey,
    pub market_index: u16,
    pub quote_spot_market_index: u16,
    pub status: MarketStatus,
    pub contract_tier: ContractTier,
    pub oracle_source: OracleSource,
    pub margin_ratio_initial: u32,
    pub margin_ratio_maintenance: u32,
    pub order_step_size: u64,
    pub order_tick_size: u64,
    pub min_order_size: u64,
    pub oracle_history: OracleHistory,
    pub amm: AmmAccount,
    pub funding_period: i64,
    pub last_funding_rate_ts: i64,
    pub last_mark_price_twap: u64,
    pub last_mark_price_twap_5min: u64,
    pub last_bid_price_twap: u64,
    pub last_ask_price_twap: u64,
    pub pending_protocol_fee: u128,
    pub pending_if_fee: u128,
    pub pnl_pool_scaled_balance: u128,
    pub bankruptcy_if_floor_pct: u32,
    pub base_asset_amount_long: i128,
    pub base_asset_amount_short: i128,
    pub hedge_status: u8,
    pub hedge_fee_transfer_scalar: u8,
    /// A pause bit per operation.
    pub paused_operations: u8,
    pub expiry_ts: i64,
    pub expiry_price: i64,
    pub quoter_slab: Pubkey,
    pub clob_market: Pubkey,
}

impl PerpMarketAccount {
    /// An active market with a ten percent initial and a five percent
    /// maintenance margin, priced at one, with no curve yet.
    #[verifier::allow_in_spec]
    pub fn quoted(pubkey: Pubkey, quote_spot_index: u16) -> PerpMarketAccount
        returns
            (PerpMarketAccount {
                pubkey,
                oracle: system_program_id(),
                market_index: 0,
                quote_spot_market_index: quote_spot_index,
                status: MarketStatus::Active,
                contract_tier: ContractTier::HighlySpeculative,
                oracle_source: OracleSource::QuoteAsset,
                margin_ratio_initial: 1_000,
                margin_ratio_maintenance: 500,
                order_step_size: 1_000_000,
                order_tick_size: 1,
                min_order_size: 1_000_000,
                oracle_history: OracleHistory::Quote,
                amm: AmmAccount::blank(),
                funding_period: 0,
                last_funding_rate_ts: 0,
                last_mark_price_twap: 0,
                last_mark_price_twap_5min: 0,
                last_bid_price_twap: 0,
                last_ask_price_twap: 0,
                pending_protocol_fee: 0,
                pending_if_fee: 0,
                pnl_pool_scaled_balance: 0,
                bankruptcy_if_floor_pct: 0,
                base_asset_amount_long: 0,
                base_asset_amount_short: 0,
                hedge_status: 0,
                hedge_fee_transfer_scalar: 0,
                paused_operations: 0,
                expiry_ts: 0,
                expiry_price: 0,
                quoter_slab: system_program_id(),
                clob_market: system_program_id(),
            }),
    {
        PerpMarketAccount {
            pubkey,
            oracle: system_program_id(),
            market_index: 0,
            quote_spot_market_index: quote_spot_index,
            status: MarketStatus::Active,
            contract_tier: ContractTier::HighlySpeculative,
            oracle_source: OracleSource::QuoteAsset,
            margin_ratio_initial: 1_000,
            margin_ratio_maintenance: 500,
            order_step_size: 1_000_000,
            order_tick_size: 1,
            min_order_size: 1_000_000,
            oracle_history: OracleHistory::Quote,
            amm: AmmAccount::blank(),
            funding_period: 0,
            last_funding_rate_ts: 0,
            last_mark_price_twap: 0,
            last_mark_price_twap_5min: 0,
            last_bid_price_twap: 0,
            last_ask_price_twap: 0,
            pending_protocol_fee: 0,
            pending_if_fee: 0,
            pnl_pool_scaled_balance: 0,
            bankruptcy_if_floor_pct: 0,
            base_asset_amount_long: 0,
            base_asset_amount_short: 0,
            hedge_status: 0,
            hedge_fee_transfer_scalar: 0,
            paused_operations: 0,
            expiry_ts: 0,
            expiry_price: 0,
            quoter_slab: system_program_id(),
            clob_market: system_program_id(),
        }
    }
}

/// A price feed account.
#[derive(Clone, Copy, PartialEq, Eq, Debug)]
pub struct LazerOracle {
    pub price: i64,
    pub publish_time: u64,
    pub posted_slot: u64,
    pub exponent: i32,
    pub conf: u64,
}

/// A user account whose first positions are set.
#[derive(Clone, Copy, PartialEq, Eq, Debug)]
pub struct UserAccount {
    pub authority: Pubkey,
    pub delegate: Pubkey,
    pub sub_account_id: u16,
    pub pool_id: u8,
    pub status: u8,
    pub next_order_id: u32,
    pub next_liquidation_id: u16,
    /// Quote of the perp position in market 0, which has no base.
    pub perp_quote: i64,
    /// Side and scaled balance of the spot position in market 0.
    pub spot_side: BalanceType,
    pub spot_balance: u64,
}

impl UserAccount {
    /// A fresh sub-account of an authority.
    #[verifier::allow_in_spec]
    pub fn fresh(authority: Pubkey, sub_account_id: u16) -> UserAccount
        returns
            (UserAccount {
                authority,
                delegate: system_program_id(),
                sub_account_id,
                pool_id: 0,
                status: 0,
                next_order_id: 0,
                next_liquidation_id: 0,
                perp_quote: 0,
                spot_side: BalanceType::Deposit,
                spot_balance: 0,
            }),
    {
        UserAccount {
            authority,
            delegate: system_program_id(),
            sub_account_id,
            pool_id: 0,
            status: 0,
            next_order_id: 0,
            next_liquidation_id: 0,
            perp_quote: 0,
            spot_side: BalanceType::Deposit,
            spot_balance: 0,
        }
    }
}

/// The orders that an escrow starts with.
#[derive(Clone, Copy, PartialEq, Eq, Structural, Debug)]
pub enum EscrowOrders {
    /// So many empty slots.
    Blank { slots: u32 },
    /// One completed order of the first builder, with fees waiting for it.
    Completed { order_id: u32, fee_tenth_bps: u16, fees_accrued: u64 },
}

/// The escrow of what an authority owes its builders.
#[derive(Clone, Copy, PartialEq, Eq, Debug)]
pub struct EscrowAccount {
    pub authority: Pubkey,
    pub orders: EscrowOrders,
    /// The one builder that is approved, up to a fee.
    pub builder: Pubkey,
    pub max_fee_tenth_bps: u16,
}

// ---------------------------------------------------------------------------
// The AMM cache
// ---------------------------------------------------------------------------

/// Sequences one after another.
pub open spec fn flattened(entries: Seq<Vec<u8>>) -> Seq<u8>
    decreases entries.len(),
{
    if entries.len() == 0 {
        Seq::empty()
    } else {
        flattened(entries.drop_last()) + entries.last()@
    }
}

/// The AMM cache: its discriminator, a bump that nothing reads, padding, the
/// number of entries, then the entries with nothing between them.
pub open spec fn amm_cache(disc: Seq<u8>, entries: Seq<Vec<u8>>) -> Seq<u8> {
    disc + seq![255u8, 0u8, 0u8, 0u8] + le(entries.len() as int, 4) + flattened(entries)
}

/// The bytes of an AMM cache of the given entries.
pub fn amm_cache_bytes(disc: [u8; 8], entries: &Vec<Vec<u8>>) -> (r: Vec<u8>)
    ensures
        r@ == amm_cache(disc@, entries@),
{
    let mut tail: Vec<u8> = Vec::new();
    let mut i: usize = 0;
    while i < entries.len()
        invariant
            i <= entries@.len(),
            tail@ == flattened(entries@.take(i as int)),
        decreases entries@.len() - i,
    {
        push_bytes(&mut tail, entries[i].as_slice());
        assert(entries@.take(i + 1).drop_last() =~= entries@.take(i as int));
        i = i + 1;
    }
    assert(entries@.take(i as int) =~= entries@);
    let mut bytes: Vec<u8> = Vec::new();
    push_bytes(&mut bytes, disc.as_slice());
    assert(bytes@ =~= disc@);
    let head: Vec<u8> = vec![255, 0, 0, 0];
    assert(head@ =~= seq![255u8, 0u8, 0u8, 0u8]);
    push_bytes(&mut bytes, head.as_slice());
    push_len(&mut bytes, entries.len(), 4);
    push_bytes(&mut bytes, tail.as_slice());
    bytes
}

// ---------------------------------------------------------------------------
// The standard scenario
// ---------------------------------------------------------------------------

/// The state of the standard scenario: four spot markets, one perp market, a
/// crank that holds every hot role and receives the protocol's fees, and an
/// admin of its own. The liquidation buffer and duration are the exchange's.
#[verifier::allow_in_spec]
pub fn build_state(
    signer: Pubkey,
    signer_nonce: u8,
    crank: Pubkey,
    admin: Pubkey,
    margin_buffer_ratio: u32,
    liquidation_duration: u8,
) -> StateAccount
    returns
        (StateAccount {
            signer,
            signer_nonce,
            exchange_status: 0,
            number_of_spot_markets: 4,
            number_of_markets: 1,
            feature_bit_flags: 1,
            liquidation_margin_buffer_ratio: margin_buffer_ratio,
            initial_pct_to_liquidate: 1_000,
            liquidation_duration,
            hot_roles: HotRoles::all(crank),
            protocol_fee_recipient_perp: crank,
            protocol_fee_recipient_spot: crank,
            warm_admin: admin,
        }),
{
    StateAccount {
        signer,
        signer_nonce,
        exchange_status: 0,
        number_of_spot_markets: 4,
        number_of_markets: 1,
        feature_bit_flags: 1,
        liquidation_margin_buffer_ratio: margin_buffer_ratio,
        initial_pct_to_liquidate: 1_000,
        liquidation_duration,
        hot_roles: HotRoles::all(crank),
        protocol_fee_recipient_perp: crank,
        protocol_fee_recipient_spot: crank,
        warm_admin: admin,
    }
}

/// The quote market: hourly revenue settlement and unstaking, top tier.
#[verifier::allow_in_spec]
pub fn build_spot_market_usdc(
    pubkey: Pubkey,
    mint: Pubkey,
    vault: Pubkey,
    if_vault: Pubkey,
) -> SpotMarketAccount
    returns
        (SpotMarketAccount {
            asset_tier: AssetTier::Collateral,
            revenue_settle_period: 3600,
            unstaking_period: 3600,
            ..SpotMarketAccount::quote(pubkey, mint, vault, if_vault)
        }),
{
    SpotMarketAccount {
        asset_tier: AssetTier::Collateral,
        revenue_settle_period: 3600,
        unstaking_period: 3600,
        ..SpotMarketAccount::quote(pubkey, mint, vault, if_vault)
    }
}

/// Spot market 1: nine decimals, a movable price, weights that bite and an
/// interest curve.
#[verifier::allow_in_spec]
pub fn build_spot_market_sol(
    pubkey: Pubkey,
    mint: Pubkey,
    vault: Pubkey,
    if_vault: Pubkey,
    oracle: Pubkey,
) -> SpotMarketAccount
    returns
        (SpotMarketAccount {
            oracle,
            oracle_source: OracleSource::PythLazer,
            market_index: 1,
            decimals: 9,
            asset_tier: AssetTier::Cross,
            initial_asset_weight: 8_000,
            maintenance_asset_weight: 9_000,
            initial_liability_weight: 12_000,
            maintenance_liability_weight: 11_000,
            revenue_settle_period: 3600,
            unstaking_period: 3600,
            optimal_utilization: 500_000,
            optimal_borrow_rate: 100_000,
            max_borrow_rate: 1_000_000,
            oracle_history: OracleHistory::Flat { price: 1_000_000 },
            ..SpotMarketAccount::quote(pubkey, mint, vault, if_vault)
        }),
{
    SpotMarketAccount {
        oracle,
        oracle_source: OracleSource::PythLazer,
        market_index: 1,
        decimals: 9,
        asset_tier: AssetTier::Cross,
        initial_asset_weight: 8_000,
        maintenance_asset_weight: 9_000,
        initial_liability_weight: 12_000,
        maintenance_liability_weight: 11_000,
        revenue_settle_period: 3600,
        unstaking_period: 3600,
        optimal_utilization: 500_000,
        optimal_borrow_rate: 100_000,
        max_borrow_rate: 1_000_000,
        oracle_history: OracleHistory::Flat { price: 1_000_000 },
        ..SpotMarketAccount::quote(pubkey, mint, vault, if_vault)
    }
}

/// A price feed with six decimals.
#[verifier::allow_in_spec]
pub fn build_pyth_lazer_oracle(
    price: i64,
    conf: u64,
    posted_slot: u64,
    publish_time: u64,
) -> LazerOracle
    returns
        (LazerOracle { price, publish_time, posted_slot, exponent: (-6) as i32, conf }),
{
    LazerOracle { price, publish_time, posted_slot, exponent: -6, conf }
}

/// The perp market of the standard scenario: a curve of ten thousand units at
/// par, hourly funding, fees waiting to be swept, hedging on.
#[verifier::allow_in_spec]
pub fn build_perp_market(pubkey: Pubkey, quote_spot_index: u16, oracle: Pubkey) -> PerpMarketAccount
    returns
        (PerpMarketAccount {
            oracle,
            contract_tier: ContractTier::B,
            oracle_source: OracleSource::PythLazer,
            amm: AmmAccount {
                terminal_quote_asset_reserve: 10_000_000_000_000,
                max_fill_reserve_fraction: 100,
                max_base_asset_reserve: 0xffff_ffff_ffff_ffff,
                concentration_coef: MAX_CONCENTRATION_COEFFICIENT,
                ..AmmAccount::at_par(10_000_000_000_000)
            },
            funding_period: 3600,
            last_mark_price_twap: PRICE_PRECISION,
            last_mark_price_twap_5min: PRICE_PRECISION,
            last_bid_price_twap: PRICE_PRECISION,
            last_ask_price_twap: PRICE_PRECISION,
            pending_protocol_fee: 10_000_000,
            pending_if_fee: 5_000_000,
            hedge_status: 1,
            hedge_fee_transfer_scalar: 1,
            ..PerpMarketAccount::quoted(pubkey, quote_spot_index)
        }),
{
    PerpMarketAccount {
        oracle,
        contract_tier: ContractTier::B,
        oracle_source: OracleSource::PythLazer,
        amm: AmmAccount {
            terminal_quote_asset_reserve: 10_000_000_000_000,
            max_fill_reserve_fraction: 100,
            max_base_asset_reserve: 0xffff_ffff_ffff_ffff,
            concentration_coef: MAX_CONCENTRATION_COEFFICIENT,
            ..AmmAccount::at_par(10_000_000_000_000)
        },
        funding_period: 3600,
        last_mark_price_twap: PRICE_PRECISION,
        last_mark_price_twap_5min: PRICE_PRECISION,
        last_bid_price_twap: PRICE_PRECISION,
        last_ask_price_twap: PRICE_PRECISION,
        pending_protocol_fee: 10_000_000,
        pending_if_fee: 5_000_000,
        hedge_status: 1,
        hedge_fee_transfer_scalar: 1,
        ..PerpMarketAccount::quoted(pubkey, quote_spot_index)
    }
}

} // verus!
