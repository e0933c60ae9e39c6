//! Rewards of builders, and the escrow that holds them.

use vstd::prelude::*;
use crate::accounts::{
    AmmAccount, EscrowAccount, EscrowOrders, MarketStatus, PerpMarketAccount, SpotMarketAccount,
    StateAccount, UserAccount,
};
use crate::book::Book;
use crate::constants::INITIAL_USDC;
use crate::discriminators::D_SETTLE_MULTIPLE_PNLS;
use crate::fixture::{
    addr, conditions_pda, conditions_seeds, derivable, indexed, pda_key, stats_pda, stats_seeds,
    user_pda, user_seeds, SpotAddresses,
};
use crate::keys::{call, send, AccountMeta, Keypair, Pubkey, Transaction};
use crate::model::{OrderType, PositionDirection, SpotPosition, User};
use crate::order_calls::{OrderCall, OrderIx, PlaceAccounts};
use crate::params::OrderParams;
use crate::scenario::{
    core_at, core_derivable, derive_core, perp_at, perp_market, quote_market, spot_at, Core,
};
use crate::setup::{SetupStep, FUNDED_LAMPORTS};
use crate::trading::join;
use crate::wire::{ix_data, le, le_value, pow256, push_u16, push_u32, push_u8, read_le};

verus! {

/// The exchange's switch for builder codes.
pub const BUILDER_CODES: u8 = 4;

// ---------------------------------------------------------------------------
// A reward for one account of a builder, offered another
// ---------------------------------------------------------------------------

/// What the completed order owes its builder.
pub const FEES_ACCRUED: u64 = 5_000;

/// The scaled balance that backs the perp market's profits.
pub const PNL_POOL_SCALED: u128 = 1_000_000_000_000_000;

/// A trader that owes its builder a reward, and the builder's accounts.
#[derive(Clone, Copy, PartialEq, Eq, Debug)]
pub struct Regr273 {
    pub program_id: Pubkey,
    pub state_pda: Pubkey,
    pub spot_market_pda: Pubkey,
    pub spot_vault_pda: Pubkey,
    pub perp_market_pda: Pubkey,
    pub trader_pda: Pubkey,
    pub trader_kp: Keypair,
    pub escrow_pda: Pubkey,
    /// A second account of the builder, which no reward may reach.
    pub sibling_builder_pda: Pubkey,
    pub builder_rev_share_pda: Pubkey,
}

/// The freshly drawn keys of that scenario.
#[derive(Clone, Copy, PartialEq, Eq, Debug)]
pub struct Keys273 {
    pub usdc_mint: Pubkey,
    pub trader_kp: Keypair,
    pub trader_pda: Pubkey,
    pub builder_authority: Pubkey,
    pub sibling_builder_pda: Pubkey,
    pub builder_rev_share_pda: Pubkey,
    pub escrow_pda: Pubkey,
}

/// That scenario, ready to be performed.
#[derive(Debug)]
pub struct Setup273 {
    pub fixture: Regr273,
    pub steps: Vec<SetupStep>,
}

/// An exchange with builder codes and an expired market with profits to pay, a
/// trader who is owed one quote unit there and owes its builder a reward, and
/// the builder's second account.
pub open spec fn steps_273(
    c: Core,
    m: SpotAddresses,
    perp: Pubkey,
    trader: Pubkey,
    k: Keys273,
) -> Seq<SetupStep> {
    seq![
        SetupStep::InjectState {
            at: c.state,
            state: StateAccount {
                feature_bit_flags: BUILDER_CODES,
                ..StateAccount::one_market(c.signer, c.signer_nonce, 0)
            },
        },
        SetupStep::Mint { key: k.usdc_mint, authority: c.signer, decimals: 6 },
        SetupStep::InjectSpotMarket {
            at: m.market,
            market: SpotMarketAccount {
                deposit_balance: PNL_POOL_SCALED,
                ..SpotMarketAccount::quote(m.market, k.usdc_mint, m.vault, m.if_vault)
            },
        },
        SetupStep::TokenAccount {
            key: m.vault,
            mint: k.usdc_mint,
            owner: c.signer,
            amount: 1_000_000_000_000_000,
        },
        SetupStep::InjectPerpMarket {
            at: perp,
            market: PerpMarketAccount {
                status: MarketStatus::Settlement,
                expiry_ts: (-100) as i64,
                expiry_price: 1_000_000,
                pnl_pool_scaled_balance: PNL_POOL_SCALED,
                ..PerpMarketAccount::quoted(perp, 0)
            },
        },
        SetupStep::Fund { key: trader, lamports: FUNDED_LAMPORTS },
        SetupStep::InjectUser {
            at: k.trader_pda,
            user: UserAccount { perp_quote: 1_000_000, ..UserAccount::fresh(trader, 0) },
        },
        SetupStep::InjectUser {
            at: k.sibling_builder_pda,
            user: UserAccount::fresh(k.builder_authority, 1),
        },
        SetupStep::InjectRevenueShare {
            at: k.builder_rev_share_pda,
            authority: k.builder_authority,
        },
        SetupStep::InjectEscrow {
            at: k.escrow_pda,
            escrow: EscrowAccount {
                authority: trader,
                orders: EscrowOrders::Completed {
                    order_id: 1,
                    fee_tenth_bps: 100,
                    fees_accrued: FEES_ACCRUED,
                },
                builder: k.builder_authority,
                max_fee_tenth_bps: 1_000,
            },
        },
    ]
}

fn steps_273_of(
    c: Core,
    m: SpotAddresses,
    perp: Pubkey,
    trader: Pubkey,
    k: Keys273,
) -> (r: Vec<SetupStep>)
    ensures
        r@ == steps_273(c, m, perp, trader, k),
{
    vec![
        SetupStep::InjectState {
            at: c.state,
            state: StateAccount {
                feature_bit_flags: BUILDER_CODES,
                ..StateAccount::one_market(c.signer, c.signer_nonce, 0)
            },
        },
        SetupStep::Mint { key: k.usdc_mint, authority: c.signer, decimals: 6 },
        SetupStep::InjectSpotMarket {
            at: m.market,
            market: SpotMarketAccount {
                deposit_balance: PNL_POOL_SCALED,
                ..SpotMarketAccount::quote(m.market, k.usdc_mint, m.vault, m.if_vault)
            },
        },
        SetupStep::TokenAccount {
            key: m.vault,
            mint: k.usdc_mint,
            owner: c.signer,
            amount: 1_000_000_000_000_000,
        },
        SetupStep::InjectPerpMarket {
            at: perp,
            market: PerpMarketAccount {
                status: MarketStatus::Settlement,
                expiry_ts: (-100) as i64,
                expiry_price: 1_000_000,
                pnl_pool_scaled_balance: PNL_POOL_SCALED,
                ..PerpMarketAccount::quoted(perp, 0)
            },
        },
        SetupStep::Fund { key: trader, lamports: FUNDED_LAMPORTS },
        SetupStep::InjectUser {
            at: k.trader_pda,
            user: UserAccount { perp_quote: 1_000_000, ..UserAccount::fresh(trader, 0) },
        },
        SetupStep::InjectUser {
            at: k.sibling_builder_pda,
            user: UserAccount::fresh(k.builder_authority, 1),
        },
        SetupStep::InjectRevenueShare {
            at: k.builder_rev_share_pda,
            authority: k.builder_authority,
        },
        SetupStep::InjectEscrow {
            at: k.escrow_pda,
            escrow: EscrowAccount {
                authority: trader,
                orders: EscrowOrders::Completed {
                    order_id: 1,
                    fee_tenth_bps: 100,
                    fees_accrued: FEES_ACCRUED,
                },
                builder: k.builder_authority,
                max_fee_tenth_bps: 1_000,
            },
        },
    ]
}

/// The scaled balance of the first slot in the quote market, zero where there is
/// none.
pub open spec fn quote_balance(positions: Seq<SpotPosition>) -> u64
    decreases positions.len(),
{
    if positions.len() == 0 {
        0
    } else if positions[0].market_index == 0 {
        positions[0].scaled_balance
    } else {
        quote_balance(positions.skip(1))
    }
}

fn first_quote_balance(user: &User) -> (r: u64)
    ensures
        r == quote_balance(user.spot_positions@),
{
    let n = user.spot_positions.len();
    let mut i: usize = 0;
    assert(user.spot_positions@.skip(0) =~= user.spot_positions@);
    while i < n
        invariant
            i <= n,
            n == user.spot_positions@.len(),
            quote_balance(user.spot_positions@) == quote_balance(
                user.spot_positions@.skip(i as int),
            ),
        decreases n - i,
    {
        let p = user.spot_positions[i];
        assert(user.spot_positions@.skip(i as int)[0] == p);
        assert(user.spot_positions@.skip(i as int).skip(1) =~= user.spot_positions@.skip(i + 1));
        if p.market_index == 0 {
            return p.scaled_balance;
        }
        i = i + 1;
    }
    0
}

/// The balance of the builder's second account; zero where it cannot be read.
pub fn sibling_quote_balance(sibling: &Option<User>) -> (r: u64)
    ensures
        r == match sibling {
            Some(u) => quote_balance(u.spot_positions@),
            None => 0,
        },
{
    match sibling {
        Some(u) => first_quote_balance(u),
        None => 0,
    }
}

impl Regr273 {
    /// Sets the scenario up.
    pub fn setup(program_id: Pubkey, k: Keys273) -> (r: Option<Setup273>)
        ensures
            r is Some <==> core_derivable(program_id) && SpotAddresses::all_derivable(
                0,
                program_id,
            ) && derivable(indexed("perp_market", 0), program_id),
            r matches Some(s) ==> {
                let c = core_at(program_id);
                let m = spot_at(0, program_id);
                &&& s.fixture == (Regr273 {
                    program_id,
                    state_pda: c.state,
                    spot_market_pda: m.market,
                    spot_vault_pda: m.vault,
                    perp_market_pda: perp_at(program_id),
                    trader_pda: k.trader_pda,
                    trader_kp: k.trader_kp,
                    escrow_pda: k.escrow_pda,
                    sibling_builder_pda: k.sibling_builder_pda,
                    builder_rev_share_pda: k.builder_rev_share_pda,
                })
                &&& s.steps@ == steps_273(c, m, perp_at(program_id), addr(k.trader_kp), k)
            },
    {
        let c = derive_core(program_id)?;
        let m = quote_market(program_id)?;
        let perp = perp_market(program_id)?;
        Some(
            Setup273 {
                fixture: Regr273 {
                    program_id,
                    state_pda: c.state,
                    spot_market_pda: m.market,
                    spot_vault_pda: m.vault,
                    perp_market_pda: perp,
                    trader_pda: k.trader_pda,
                    trader_kp: k.trader_kp,
                    escrow_pda: k.escrow_pda,
                    sibling_builder_pda: k.sibling_builder_pda,
                    builder_rev_share_pda: k.builder_rev_share_pda,
                },
                steps: steps_273_of(c, m, perp, k.trader_kp.pubkey(), k),
            },
        )
    }

    /// Settles the trader's position, offering the builder's second account for
    /// the reward.
    pub fn settle(&self) -> (r: Transaction)
        ensures
            r@ == call(
                self.program_id,
                seq![
                    AccountMeta::new_readonly(self.state_pda, false),
                    AccountMeta::new(self.trader_pda, false),
                    AccountMeta::new_readonly(addr(self.trader_kp), true),
                    AccountMeta::new_readonly(self.spot_vault_pda, false),
                    AccountMeta::new(self.spot_market_pda, false),
                    AccountMeta::new(self.perp_market_pda, false),
                    AccountMeta::new(self.escrow_pda, false),
                    AccountMeta::new(self.sibling_builder_pda, false),
                    AccountMeta::new(self.builder_rev_share_pda, false),
                ],
                D_SETTLE_MULTIPLE_PNLS@ + (le(1, 4) + le(0, 2) + seq![0u8]),
                addr(self.trader_kp),
            ),
    {
        let mut args: Vec<u8> = Vec::new();
        push_u32(&mut args, 1);
        assert(args@ =~= le(1, 4));
        push_u16(&mut args, 0);
        push_u8(&mut args, 0);
        let accounts = vec![
            AccountMeta::new_readonly(self.state_pda, false),
            AccountMeta::new(self.trader_pda, false),
            AccountMeta::new_readonly(self.trader_kp.pubkey(), true),
            AccountMeta::new_readonly(self.spot_vault_pda, false),
            AccountMeta::new(self.spot_market_pda, false),
            AccountMeta::new(self.perp_market_pda, false),
            AccountMeta::new(self.escrow_pda, false),
            AccountMeta::new(self.sibling_builder_pda, false),
            AccountMeta::new(self.builder_rev_share_pda, false),
        ];
        send(
            self.program_id,
            accounts,
            ix_data(D_SETTLE_MULTIPLE_PNLS, &args),
            self.trader_kp.pubkey(),
        )
    }
}

/// Whether the settlement worked and no reward reached the builder's second
/// account.
pub fn regr_273_revenue_share_subaccount_redirect(
    sent: bool,
    error_code: Option<u32>,
    before: u64,
    after: u64,
) -> (r: bool)
    ensures
        r == (sent && error_code is None && after == before),
{
    sent && error_code.is_none() && after == before
}

// ---------------------------------------------------------------------------
// An order number that is used again
// ---------------------------------------------------------------------------

/// The time at which that scenario plays: late enough that an order can have
/// expired.
pub const CLOCK_TS_256: i64 = 1_000_000_000;

/// The bytes of an escrow before its orders: a discriminator, the authority, the
/// referrer, and space that is reserved.
pub const ESCROW_HEADER: usize = 96;

/// A trader with an approved builder, on a market with a curve and a book.
#[derive(Clone, Copy, PartialEq, Eq, Debug)]
pub struct Regr256 {
    pub program_id: Pubkey,
    pub state_pda: Pubkey,
    pub spot_market_pda: Pubkey,
    pub spot_vault_pda: Pubkey,
    pub perp_market_pda: Pubkey,
    pub usdc_mint: Pubkey,
    pub signer_pda: Pubkey,
    pub trader_pda: Pubkey,
    pub trader_stats_pda: Pubkey,
    pub trader_kp: Keypair,
    pub trader_token: Pubkey,
    pub escrow_pda: Pubkey,
    pub builder_authority: Pubkey,
}

/// The freshly drawn keys of that scenario, and where quotes are kept.
#[derive(Clone, Copy, PartialEq, Eq, Debug)]
pub struct Keys256 {
    pub usdc_mint: Pubkey,
    pub admin: Pubkey,
    pub trader_kp: Keypair,
    pub trader_token: Pubkey,
    pub builder_authority: Pubkey,
    pub escrow_pda: Pubkey,
    pub quoter_slab: Pubkey,
}

/// That scenario, ready to be performed.
#[derive(Debug)]
pub struct Setup256 {
    pub fixture: Regr256,
    pub steps: Vec<SetupStep>,
}

/// The perp market of that scenario: a curve of a hundred units at par with a
/// spread, and pools to pay from.
#[verifier::allow_in_spec]
pub fn curved_market(pubkey: Pubkey, quoter_slab: Pubkey) -> PerpMarketAccount
    returns
        (PerpMarketAccount {
            amm: AmmAccount {
                terminal_quote_asset_reserve: 100_000_000_000,
                max_base_asset_reserve: 1_000_000_000_000,
                min_base_asset_reserve: 100_000_000,
                max_slippage_ratio: 50,
                max_fill_reserve_fraction: 100,
                base_spread: 1_000,
                max_spread: 50_000,
                fee_pool_scaled_balance: 1_000_000_000_000,
                ..AmmAccount::at_par(100_000_000_000)
            },
            pnl_pool_scaled_balance: 1_000_000_000_000,
            quoter_slab,
            ..PerpMarketAccount::quoted(pubkey, 0)
        }),
{
    PerpMarketAccount {
        amm: AmmAccount {
            terminal_quote_asset_reserve: 100_000_000_000,
            max_base_asset_reserve: 1_000_000_000_000,
            min_base_asset_reserve: 100_000_000,
            max_slippage_ratio: 50,
            max_fill_reserve_fraction: 100,
            base_spread: 1_000,
            max_spread: 50_000,
            fee_pool_scaled_balance: 1_000_000_000_000,
            ..AmmAccount::at_par(100_000_000_000)
        },
        pnl_pool_scaled_balance: 1_000_000_000_000,
        quoter_slab,
        ..PerpMarketAccount::quoted(pubkey, 0)
    }
}

/// Where the trader's accounts live.
#[derive(Clone, Copy, PartialEq, Eq, Debug)]
pub struct TraderAt {
    pub authority: Pubkey,
    pub user: Pubkey,
    pub stats: Pubkey,
    pub conditions: Pubkey,
}

/// An exchange with builder codes, a market with a curve, a trader with
/// collateral and an approved builder, and a book.
pub open spec fn steps_256(
    slot: u64,
    c: Core,
    m: SpotAddresses,
    perp: Pubkey,
    t: TraderAt,
    k: Keys256,
) -> Seq<SetupStep> {
    seq![
        SetupStep::SetClock { unix_timestamp: CLOCK_TS_256, slot },
        SetupStep::Fund { key: k.admin, lamports: FUNDED_LAMPORTS },
        SetupStep::InjectState {
            at: c.state,
            state: StateAccount {
                feature_bit_flags: BUILDER_CODES,
                warm_admin: k.admin,
                ..StateAccount::one_market(c.signer, c.signer_nonce, 0)
            },
        },
        SetupStep::Mint { key: k.usdc_mint, authority: c.signer, decimals: 6 },
        SetupStep::InjectSpotMarket {
            at: m.market,
            market: SpotMarketAccount::quote(m.market, k.usdc_mint, m.vault, m.if_vault),
        },
        SetupStep::TokenAccount {
            key: m.vault,
            mint: k.usdc_mint,
            owner: c.signer,
            amount: 0,
        },
        SetupStep::InjectPerpMarket { at: perp, market: curved_market(perp, k.quoter_slab) },
        SetupStep::Fund { key: t.authority, lamports: FUNDED_LAMPORTS },
        SetupStep::TokenAccount {
            key: k.trader_token,
            mint: k.usdc_mint,
            owner: t.authority,
            amount: INITIAL_USDC,
        },
        SetupStep::InitStats { authority: t.authority, stats: t.stats },
        SetupStep::InitUser {
            authority: t.authority,
            stats: t.stats,
            user: t.user,
            conditions: t.conditions,
        },
        SetupStep::DepositQuote {
            authority: t.authority,
            stats: t.stats,
            user: t.user,
            wallet: k.trader_token,
            amount: 500_000_000_000,
        },
        SetupStep::InjectEscrow {
            at: k.escrow_pda,
            escrow: EscrowAccount {
                authority: t.authority,
                orders: EscrowOrders::Blank { slots: 8 },
                builder: k.builder_authority,
                max_fee_tenth_bps: 1_000,
            },
        },
        SetupStep::InstallBook { admin: k.admin, market: perp, operator: t.user },
    ]
}

fn steps_256_of(
    slot: u64,
    c: Core,
    m: SpotAddresses,
    perp: Pubkey,
    t: TraderAt,
    k: Keys256,
) -> (r: Vec<SetupStep>)
    ensures
        r@ == steps_256(slot, c, m, perp, t, k),
{
    vec![
        SetupStep::SetClock { unix_timestamp: CLOCK_TS_256, slot },
        SetupStep::Fund { key: k.admin, lamports: FUNDED_LAMPORTS },
        SetupStep::InjectState {
            at: c.state,
            state: StateAccount {
                feature_bit_flags: BUILDER_CODES,
                warm_admin: k.admin,
                ..StateAccount::one_market(c.signer, c.signer_nonce, 0)
            },
        },
        SetupStep::Mint { key: k.usdc_mint, authority: c.signer, decimals: 6 },
        SetupStep::InjectSpotMarket {
            at: m.market,
            market: SpotMarketAccount::quote(m.market, k.usdc_mint, m.vault, m.if_vault),
        },
        SetupStep::TokenAccount {
            key: m.vault,
            mint: k.usdc_mint,
            owner: c.signer,
            amount: 0,
        },
        SetupStep::InjectPerpMarket { at: perp, market: curved_market(perp, k.quoter_slab) },
        SetupStep::Fund { key: t.authority, lamports: FUNDED_LAMPORTS },
        SetupStep::TokenAccount {
            key: k.trader_token,
            mint: k.usdc_mint,
            owner: t.authority,
            amount: INITIAL_USDC,
        },
        SetupStep::InitStats { authority: t.authority, stats: t.stats },
        SetupStep::InitUser {
            authority: t.authority,
            stats: t.stats,
            user: t.user,
            conditions: t.conditions,
        },
        SetupStep::DepositQuote {
            authority: t.authority,
            stats: t.stats,
            user: t.user,
            wallet: k.trader_token,
            amount: 500_000_000_000,
        },
        SetupStep::InjectEscrow {
            at: k.escrow_pda,
            escrow: EscrowAccount {
                authority: t.authority,
                orders: EscrowOrders::Blank { slots: 8 },
                builder: k.builder_authority,
                max_fee_tenth_bps: 1_000,
            },
        },
        SetupStep::InstallBook { admin: k.admin, market: perp, operator: t.user },
    ]
}

/// Where an authority's accounts live.
pub open spec fn trader_at(authority: Pubkey, program: Pubkey) -> TraderAt {
    let user = pda_key(user_seeds(authority, 0), program);
    TraderAt {
        authority,
        user,
        stats: pda_key(stats_seeds(authority), program),
        conditions: pda_key(conditions_seeds(user), program),
    }
}

pub open spec fn trader_derivable(authority: Pubkey, program: Pubkey) -> bool {
    derivable(stats_seeds(authority), program) && derivable(user_seeds(authority, 0), program)
        && derivable(conditions_seeds(pda_key(user_seeds(authority, 0), program)), program)
}

fn derive_trader(authority: Pubkey, program: Pubkey) -> (r: Option<TraderAt>)
    ensures
        r is Some <==> trader_derivable(authority, program),
        r matches Some(t) ==> t == trader_at(authority, program),
{
    let (stats, _) = stats_pda(&authority, program)?;
    let (user, _) = user_pda(&authority, 0, program)?;
    let (conditions, _) = conditions_pda(&user, program)?;
    Some(TraderAt { authority, user, stats, conditions })
}

/// A take of the trader's. An order that expired long ago and names the builder
/// is skipped; the next one names none and fills.
pub open spec fn take_params(expired_builder_order: bool) -> OrderParams {
    if expired_builder_order {
        OrderParams {
            max_ts: Some(1),
            builder_idx: Some(0),
            builder_fee_tenth_bps: Some(1000),
            ..OrderParams::perp(OrderType::Limit, PositionDirection::Long, 10_000_000, 1_050_000)
        }
    } else {
        OrderParams::perp(OrderType::Limit, PositionDirection::Long, 1_000_000_000, 1_050_000)
    }
}

pub fn take_params_of(expired_builder_order: bool) -> (r: OrderParams)
    ensures
        r == take_params(expired_builder_order),
{
    if expired_builder_order {
        OrderParams {
            max_ts: Some(1),
            builder_idx: Some(0),
            builder_fee_tenth_bps: Some(1000),
            ..OrderParams::perp(OrderType::Limit, PositionDirection::Long, 10_000_000, 1_050_000)
        }
    } else {
        OrderParams::perp(OrderType::Limit, PositionDirection::Long, 1_000_000_000, 1_050_000)
    }
}

impl Regr256 {
    /// Sets the scenario up.
    pub fn setup(program_id: Pubkey, k: Keys256, slot: u64) -> (r: Option<Setup256>)
        ensures
            r is Some <==> core_derivable(program_id) && SpotAddresses::all_derivable(
                0,
                program_id,
            ) && derivable(indexed("perp_market", 0), program_id) && trader_derivable(
                addr(k.trader_kp),
                program_id,
            ),
            r matches Some(s) ==> {
                let c = core_at(program_id);
                let m = spot_at(0, program_id);
                let t = trader_at(addr(k.trader_kp), program_id);
                &&& s.fixture == (Regr256 {
                    program_id,
                    state_pda: c.state,
                    spot_market_pda: m.market,
                    spot_vault_pda: m.vault,
                    perp_market_pda: perp_at(program_id),
                    usdc_mint: k.usdc_mint,
                    signer_pda: c.signer,
                    trader_pda: t.user,
                    trader_stats_pda: t.stats,
                    trader_kp: k.trader_kp,
                    trader_token: k.trader_token,
                    escrow_pda: k.escrow_pda,
                    builder_authority: k.builder_authority,
                })
                &&& s.steps@ == steps_256(slot, c, m, perp_at(program_id), t, k)
            },
    {
        let c = derive_core(program_id)?;
        let m = quote_market(program_id)?;
        let perp = perp_market(program_id)?;
        let t = derive_trader(k.trader_kp.pubkey(), program_id)?;
        Some(
            Setup256 {
                fixture: Regr256 {
                    program_id,
                    state_pda: c.state,
                    spot_market_pda: m.market,
                    spot_vault_pda: m.vault,
                    perp_market_pda: perp,
                    usdc_mint: k.usdc_mint,
                    signer_pda: c.signer,
                    trader_pda: t.user,
                    trader_stats_pda: t.stats,
                    trader_kp: k.trader_kp,
                    trader_token: k.trader_token,
                    escrow_pda: k.escrow_pda,
                    builder_authority: k.builder_authority,
                },
                steps: steps_256_of(slot, c, m, perp, t, k),
            },
        )
    }

    /// A take of the trader's. The markets follow its own accounts, then no makers,
    /// the escrow, and the book's entry.
    pub fn take_ix(&self, b: &Book, params: OrderParams, route: Vec<AccountMeta>) -> (r: OrderIx)
        ensures
            r.call == (OrderCall::PlaceAndTake {
                accounts: PlaceAccounts {
                    state: self.state_pda,
                    user: self.trader_pda,
                    user_stats: self.trader_stats_pda,
                    authority: addr(self.trader_kp),
                    book: b.named(),
                    flow_authority: None,
                },
                params,
                success_condition: None,
            }),
            r.remaining@ == seq![
                AccountMeta::new(self.spot_market_pda, false),
                AccountMeta::new(self.perp_market_pda, false),
                AccountMeta::new(self.escrow_pda, false),
            ] + route@,
    {
        OrderIx {
            call: OrderCall::PlaceAndTake {
                accounts: PlaceAccounts {
                    state: self.state_pda,
                    user: self.trader_pda,
                    user_stats: self.trader_stats_pda,
                    authority: self.trader_kp.pubkey(),
                    book: b.accounts(),
                    flow_authority: None,
                },
                params,
                success_condition: None,
            },
            remaining: join(
                vec![
                    AccountMeta::new(self.spot_market_pda, false),
                    AccountMeta::new(self.perp_market_pda, false),
                    AccountMeta::new(self.escrow_pda, false),
                ],
                route,
            ),
        }
    }
}

/// How the exchange lays out one order of an escrow.
#[derive(Clone, Copy, PartialEq, Eq, Debug)]
pub struct OrderLayout {
    /// Bytes of an order.
    pub size: usize,
    /// Where the four bytes of its number begin.
    pub order_id: usize,
    /// Where its flag byte is.
    pub bit_flags: usize,
    /// Where the eight bytes of its fees begin.
    pub fees_accrued: usize,
}

impl OrderLayout {
    /// The fields lie within the order.
    pub open spec fn wf(self) -> bool {
        &&& 0 < self.size
        &&& self.order_id + 4 <= self.size
        &&& self.bit_flags < self.size
        &&& self.fees_accrued + 8 <= self.size
    }
}

/// One order of an escrow.
#[derive(Clone, Copy, PartialEq, Eq, Structural, Debug)]
pub struct EscrowOrder {
    pub order_id: u32,
    pub is_open: bool,
    pub is_completed: bool,
    pub fees_accrued: u64,
}

/// The order whose bytes begin at `at`.
pub open spec fn order_at(data: Seq<u8>, layout: OrderLayout, at: int) -> EscrowOrder {
    let id = at + layout.order_id;
    let fees = at + layout.fees_accrued;
    let flags = data[at + layout.bit_flags];
    EscrowOrder {
        order_id: le_value(data.subrange(id, id + 4)) as u32,
        is_open: flags % 2 == 1,
        is_completed: flags / 2 % 2 == 1,
        fees_accrued: le_value(data.subrange(fees, fees + 8)) as u64,
    }
}

/// How many orders an escrow says it has.
pub open spec fn stated_orders(data: Seq<u8>) -> int {
    le_value(data.subrange(ESCROW_HEADER + 4, ESCROW_HEADER + 8))
}

/// How many orders an escrow has room for.
pub open spec fn orders_that_fit(data: Seq<u8>, layout: OrderLayout) -> int {
    (data.len() - (ESCROW_HEADER + 8)) / layout.size as int
}

/// How many orders are read: as many as are stated, and no more than fit.
pub open spec fn orders_read(data: Seq<u8>, layout: OrderLayout) -> int {
    if data.len() < ESCROW_HEADER + 8 {
        0
    } else if stated_orders(data) < orders_that_fit(data, layout) {
        stated_orders(data)
    } else {
        orders_that_fit(data, layout)
    }
}

/// The orders of an escrow: after the header, four bytes of padding and the
/// count, one after another.
pub open spec fn escrow_orders_in(data: Seq<u8>, layout: OrderLayout) -> Seq<EscrowOrder> {
    Seq::new(
        orders_read(data, layout) as nat,
        |i: int| order_at(data, layout, ESCROW_HEADER + 8 + i * layout.size),
    )
}

fn read_order(data: &Vec<u8>, layout: &OrderLayout, at: usize) -> (r: EscrowOrder)
    requires
        layout.wf(),
        at + layout.size <= data@.len(),
    ensures
        r == order_at(data@, *layout, at as int),
{
    proof {
        reveal_with_fuel(pow256, 9);
    }
    let n = data.len();
    assert(at + layout.size <= n);
    let id = at + layout.order_id;
    let fees = at + layout.fees_accrued;
    let flags: u8 = data[at + layout.bit_flags];
    EscrowOrder {
        order_id: read_le(data, id, id + 4) as u32,
        is_open: flags % 2 == 1,
        is_completed: flags / 2 % 2 == 1,
        fees_accrued: read_le(data, fees, fees + 8) as u64,
    }
}

/// Reads the orders of an escrow account.
pub fn escrow_orders(data: &Vec<u8>, layout: &OrderLayout) -> (r: Vec<EscrowOrder>)
    requires
        layout.wf(),
    ensures
        r@ == escrow_orders_in(data@, *layout),
{
    let mut out: Vec<EscrowOrder> = Vec::new();
    if data.len() < ESCROW_HEADER + 8 {
        assert(out@ =~= escrow_orders_in(data@, *layout));
        return out;
    }
    proof {
        reveal_with_fuel(pow256, 5);
    }
    let stated: u128 = read_le(data, ESCROW_HEADER + 4, ESCROW_HEADER + 8);
    let room: usize = (data.len() - (ESCROW_HEADER + 8)) / layout.size;
    let n: usize = if stated < room as u128 {
        stated as usize
    } else {
        room
    };
    assert(n == orders_read(data@, *layout));
    assert(room * layout.size <= data@.len() - (ESCROW_HEADER + 8)) by (nonlinear_arith)
        requires
            room == (data@.len() - (ESCROW_HEADER + 8)) / layout.size as int,
            layout.size > 0,
            data@.len() >= ESCROW_HEADER + 8,
    ;
    let len = data.len();
    let mut i: usize = 0;
    let mut at: usize = ESCROW_HEADER + 8;
    while i < n
        invariant
            i <= n <= room,
            len == data@.len(),
            layout.wf(),
            at == ESCROW_HEADER + 8 + i * layout.size,
            room * layout.size <= data@.len() - (ESCROW_HEADER + 8),
            data@.len() >= ESCROW_HEADER + 8,
            n == orders_read(data@, *layout),
            out@.len() == i,
            forall|j: int|
                0 <= j < i ==> #[trigger] out@[j] == order_at(
                    data@,
                    *layout,
                    ESCROW_HEADER + 8 + j * layout.size,
                ),
        decreases n - i,
    {
        assert((i + 1) * layout.size <= room * layout.size && (i + 1) * layout.size == i
            * layout.size + layout.size) by (nonlinear_arith)
            requires
                i + 1 <= room,
                layout.size > 0,
        ;
        out.push(read_order(data, layout, at));
        at = at + layout.size;
        i = i + 1;
    }
    assert(out@ =~= escrow_orders_in(data@, *layout));
    out
}

/// An order with the number is open and not completed.
pub open spec fn is_orphan(o: EscrowOrder, order_id: u32) -> bool {
    o.order_id == order_id && o.is_open && !o.is_completed
}

/// An order with the number has been charged.
pub open spec fn is_charged(o: EscrowOrder, order_id: u32) -> bool {
    o.order_id == order_id && o.fees_accrued > 0
}

fn has_orphan(orders: &Vec<EscrowOrder>, order_id: u32) -> (r: bool)
    ensures
        r == exists|i: int| 0 <= i < orders@.len() && is_orphan(#[trigger] orders@[i], order_id),
{
    let n = orders.len();
    let mut i: usize = 0;
    while i < n
        invariant
            i <= n,
            n == orders@.len(),
            forall|j: int| 0 <= j < i ==> !is_orphan(#[trigger] orders@[j], order_id),
        decreases n - i,
    {
        let o = orders[i];
        if o.order_id == order_id && o.is_open && !o.is_completed {
            assert(is_orphan(orders@[i as int], order_id));
            return true;
        }
        i = i + 1;
    }
    false
}

fn has_charged(orders: &Vec<EscrowOrder>, order_id: u32) -> (r: bool)
    ensures
        r == exists|i: int| 0 <= i < orders@.len() && is_charged(#[trigger] orders@[i], order_id),
{
    let n = orders.len();
    let mut i: usize = 0;
    while i < n
        invariant
            i <= n,
            n == orders@.len(),
            forall|j: int| 0 <= j < i ==> !is_charged(#[trigger] orders@[j], order_id),
        decreases n - i,
    {
        let o = orders[i];
        if o.order_id == order_id && o.fees_accrued > 0 {
            assert(is_charged(orders@[i as int], order_id));
            return true;
        }
        i = i + 1;
    }
    false
}

/// What the two takes left behind.
#[derive(Debug)]
pub struct Outcome256 {
    /// The take that is skipped reached the exchange.
    pub skip_sent: bool,
    /// What it failed with.
    pub skip_error_code: Option<u32>,
    pub orders_after_skip: Vec<EscrowOrder>,
    /// The trader's base in the perp market after the second take.
    pub base_after_fill: Option<i64>,
    pub next_order_id: Option<u32>,
    pub orders_after_fill: Vec<EscrowOrder>,
}

/// Whether the order number that a skipped take left unused carries nothing over
/// to the take that uses it: no open order of a builder lingers under it, and it
/// is charged no fee. The first take has to have failed at nothing and the second
/// to have filled under that number, or nothing was shown.
pub fn regr_256_reused_order_id_stale_builder_fee(o: &Outcome256) -> (r: bool)
    ensures
        r == {
            &&& o.skip_sent && o.skip_error_code is None
            &&& o.base_after_fill matches Some(b) && b > 0
            &&& o.next_order_id == Some(2u32)
            &&& forall|i: int|
                0 <= i < o.orders_after_skip@.len() ==> !is_orphan(
                    #[trigger] o.orders_after_skip@[i],
                    1,
                )
            &&& forall|i: int|
                0 <= i < o.orders_after_fill@.len() ==> !is_charged(
                    #[trigger] o.orders_after_fill@[i],
                    1,
                )
        },
{
    let filled = match o.base_after_fill {
        Some(base) => base > 0,
        None => false,
    };
    let reused = match o.next_order_id {
        Some(id) => id == 2,
        None => false,
    };
    o.skip_sent && o.skip_error_code.is_none() && filled && reused && !has_orphan(
        &o.orders_after_skip,
        1,
    ) && !has_charged(&o.orders_after_fill, 1)
}

} // verus!
