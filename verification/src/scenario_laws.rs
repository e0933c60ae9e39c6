//! What the scenarios start from, what they prepare, and how they are judged.

use vstd::prelude::*;
use crate::accounts::{
    build_perp_market, build_spot_market_sol, build_spot_market_usdc, build_state,
    SpotMarketAccount, StateAccount, UserAccount,
};
use crate::fixture::{Fixture, Protocol, SpotAddresses};
use crate::keys::{system_program_id, Pubkey};
use crate::liq;
use crate::pause::bid_ask_twap;
use crate::pause::revenue_deposit;
use crate::pause::settle_revenue;
use crate::pause::spot_interest;
use crate::revshare::{curved_market, steps_256, steps_273, Keys256, Keys273, TraderAt};
use crate::scenario::Core;
use crate::settlement;
use crate::setup::{pool1_market, ScenarioKeys, Setup, SetupStep};
use crate::swift;

verus! {

// ---------------------------------------------------------------------------
// Verdicts
// ---------------------------------------------------------------------------

/// A paused exchange or market has to refuse for the reason that it is paused: each
/// verdict holds of its own refusal and of nothing else, neither of success nor of
/// another error.
pub proof fn pauses_are_refused_as_pauses(error_code: Option<u32>, r: bool)
    ensures
        call_ensures(settlement::regr_270_perp_pause, (error_code,), r) ==> (r <==> error_code
            is Some && error_code->0 == 6158),
        call_ensures(swift::regr_271_replay_resize_authority, (error_code,), r) ==> (r
            <==> error_code is Some && error_code->0 == 6313),
        call_ensures(swift::regr_271_signed_msg_taker_pause, (error_code,), r) ==> (r
            <==> error_code is Some && error_code->0 == 6024),
        call_ensures(revenue_deposit::regr_272_revenue_pool_deposit, (error_code,), r) ==> (r
            <==> error_code is Some && error_code->0 == 6146),
        call_ensures(settle_revenue::regr_272_settle_revenue_if, (error_code,), r) ==> (r
            <==> error_code is Some && error_code->0 == 6149),
{
}

/// A pause of funding stops nothing else: the averages' crank works without an
/// error, and interest has not moved from one while a deposit looked at it.
pub proof fn a_funding_pause_stops_only_funding(
    worked: bool,
    error_code: Option<u32>,
    index: u128,
    r: bool,
)
    ensures
        call_ensures(bid_ask_twap::regr_276_bid_ask_twap, (worked, error_code), r) ==> (r
            <==> worked && error_code is None),
        call_ensures(spot_interest::regr_276_spot_interest, (worked, index), r) ==> (r <==> worked
            && index == 10_000_000_000),
{
}

// ---------------------------------------------------------------------------
// Accounts
// ---------------------------------------------------------------------------

/// A weight that values an asset at most at face and a debt at least at face, with
/// the initial test no milder than the maintenance test.
pub open spec fn weights_are_ordered(m: SpotMarketAccount) -> bool {
    m.initial_asset_weight <= m.maintenance_asset_weight <= 10_000
        <= m.maintenance_liability_weight <= m.initial_liability_weight
}

/// A market that stands open: active, unpaused, at unit indices, with no limit on
/// withdrawals, at its own address and with its own vaults.
pub open spec fn stands_open(m: SpotMarketAccount, a: SpotAddresses, mint: Pubkey) -> bool {
    &&& m.status is Active && m.paused_operations == 0
    &&& m.cumulative_deposit_interest == 10_000_000_000
    &&& m.cumulative_borrow_interest == 10_000_000_000
    &&& m.withdraw_guard_threshold == u64::MAX
    &&& m.pubkey == a.market && m.vault == a.vault && m.if_vault == a.if_vault && m.mint == mint
    &&& m.borrow_balance == 0
    &&& m.order_step_size == 1 && m.order_tick_size == 1
}

/// The spot markets of the first pool. The quote market values everything at face
/// and needs no oracle; market 1 has one, nine decimals, and weights that make a
/// borrow to the whole initial limit fail the maintenance test only after its price
/// has risen: a debt counts 1.2 at first and 1.1 in maintenance.
pub proof fn first_pool_markets(a: SpotAddresses, mint: Pubkey, oracle: Pubkey)
    ensures
        ({
            let m = build_spot_market_usdc(a.market, mint, a.vault, a.if_vault);
            &&& stands_open(m, a, mint) && weights_are_ordered(m)
            &&& m.initial_asset_weight == 10_000 && m.initial_liability_weight == 10_000
            &&& m.market_index == 0 && m.pool_id == 0 && m.decimals == 6
            &&& m.oracle_source is QuoteAsset && m.oracle == system_program_id()
            &&& m.asset_tier is Collateral
            &&& m.revenue_settle_period == 3600 && m.unstaking_period == 3600
            &&& m.deposit_balance == 0
            &&& m.if_fee_factor == 0 && m.last_interest_ts == 0
            &&& m.optimal_utilization == 0 && m.optimal_borrow_rate == 0 && m.max_borrow_rate == 0
            &&& m.oracle_history is Quote
        }),
        ({
            let m = build_spot_market_sol(a.market, mint, a.vault, a.if_vault, oracle);
            &&& stands_open(m, a, mint) && weights_are_ordered(m)
            &&& m.market_index == 1 && m.pool_id == 0 && m.decimals == 9
            &&& m.oracle_source is PythLazer && m.oracle == oracle
            &&& m.asset_tier is Cross
            &&& m.initial_asset_weight == 8_000 && m.maintenance_asset_weight == 9_000
            &&& m.maintenance_liability_weight == 11_000 && m.initial_liability_weight == 12_000
            &&& m.revenue_settle_period == 3600 && m.unstaking_period == 3600
            &&& m.deposit_balance == 0
            &&& m.if_fee_factor == 0 && m.last_interest_ts == 0
            &&& 2 * m.optimal_utilization == 1_000_000
            &&& m.optimal_borrow_rate < m.max_borrow_rate
            &&& m.optimal_borrow_rate == 100_000 && m.max_borrow_rate == 1_000_000
            &&& m.oracle_history == crate::accounts::OracleHistory::Flat { price: 1_000_000 }
        }),
{
}

/// A market of the second pool mirrors the quote market, under its own number, pool
/// and decimals, and its books hold a thousand whole tokens, whatever the decimals:
/// what its vault is seeded with.
pub proof fn second_pool_markets(
    a: SpotAddresses,
    mint: Pubkey,
    market_index: u16,
    decimals: u8,
    m: SpotMarketAccount,
)
    requires
        call_ensures(pool1_market, (a, mint, market_index, decimals), m),
        decimals <= 16,
    ensures
        stands_open(m, a, mint) && weights_are_ordered(m),
        m.initial_asset_weight == 10_000 && m.initial_liability_weight == 10_000,
        m.market_index == market_index && m.pool_id == 1 && m.decimals == decimals,
        m.deposit_balance == 1_000 * 1_000_000_000,
        m.oracle_source is QuoteAsset && m.asset_tier is Collateral,
        m.revenue_settle_period == 3600 && m.unstaking_period == 3600,
{
    crate::setup::seed_is_a_thousand_units(decimals);
}

/// The perp market of the standard scenario: a balanced curve priced at one that its
/// position is consistent with, hourly funding, a tenth of initial and a twentieth
/// of maintenance margin, averages at the price, fees to be swept, nothing paused.
pub proof fn the_perp_market_starts_at_par(at: Pubkey, quote_spot_index: u16, oracle: Pubkey)
    ensures
        ({
            let m = build_perp_market(at, quote_spot_index, oracle);
            &&& m.pubkey == at && m.oracle == oracle && m.market_index == 0
            &&& m.quote_spot_market_index == quote_spot_index
            &&& m.status is Active && m.paused_operations == 0
            &&& m.contract_tier is B && m.oracle_source is PythLazer
            &&& m.margin_ratio_initial == 1_000 && m.margin_ratio_maintenance == 500
            &&& m.order_step_size == 1_000_000 && m.min_order_size == m.order_step_size
            &&& m.order_tick_size == 1
            &&& m.amm.base_asset_reserve * m.amm.quote_asset_reserve == m.amm.sqrt_k * m.amm.sqrt_k
            &&& m.amm.base_asset_reserve == m.amm.quote_asset_reserve
            &&& m.amm.terminal_quote_asset_reserve == m.amm.quote_asset_reserve
            &&& m.amm.sqrt_k == 10_000 * 1_000_000_000
            &&& m.amm.peg_multiplier == 1_000_000
            &&& m.amm.base_asset_amount_with_amm == 0
            &&& m.base_asset_amount_long + m.base_asset_amount_short
                == m.amm.base_asset_amount_with_amm
            &&& m.amm.min_base_asset_reserve < m.amm.base_asset_reserve
                < m.amm.max_base_asset_reserve
            &&& m.amm.max_base_asset_reserve == u64::MAX
            &&& m.amm.concentration_coef == 1_414_200 && m.amm.max_fill_reserve_fraction == 100
            &&& m.funding_period == 3600 && m.last_funding_rate_ts == 0
            &&& m.last_mark_price_twap == 1_000_000 && m.last_mark_price_twap_5min == 1_000_000
            &&& m.last_bid_price_twap == 1_000_000 && m.last_ask_price_twap == 1_000_000
            &&& m.pending_protocol_fee == 10_000_000 && m.pending_if_fee == 5_000_000
            &&& m.hedge_status == 1 && m.hedge_fee_transfer_scalar == 1
            &&& m.expiry_ts == 0 && m.pnl_pool_scaled_balance == 0
            &&& m.bankruptcy_if_floor_pct == 0
            &&& m.oracle_history is Quote
        }),
{
}

/// The exchange of the standard scenario is active, counts four spot markets and one
/// perp market, and gives every hot role and both fee accounts to its crank and the
/// warm role to its admin.
pub proof fn the_crank_holds_every_hot_role(
    signer: Pubkey,
    nonce: u8,
    crank: Pubkey,
    admin: Pubkey,
    margin_buffer_ratio: u32,
    liquidation_duration: u8,
)
    ensures
        ({
            let s = build_state(
                signer,
                nonce,
                crank,
                admin,
                margin_buffer_ratio,
                liquidation_duration,
            );
            &&& s.signer == signer && s.signer_nonce == nonce
            &&& s.exchange_status == 0 && s.feature_bit_flags == 1
            &&& s.number_of_spot_markets == 4 && s.number_of_markets == 1
            &&& s.hot_roles.amm_crank == crank && s.hot_roles.lp_cache == crank
            &&& s.hot_roles.lp_swap == crank && s.hot_roles.lp_settle == crank
            &&& s.hot_roles.feature_flag == crank && s.hot_roles.fuel == crank
            &&& s.hot_roles.user_flag == crank && s.hot_roles.vault_deposit == crank
            &&& s.hot_roles.mm_oracle_crank == crank && s.hot_roles.amm_spread_adjust == crank
            &&& s.hot_roles.fee_withdraw == crank
            &&& s.protocol_fee_recipient_perp == crank && s.protocol_fee_recipient_spot == crank
            &&& s.warm_admin == admin
            &&& s.liquidation_margin_buffer_ratio == margin_buffer_ratio
            &&& s.liquidation_duration == liquidation_duration
            &&& s.initial_pct_to_liquidate == 1_000
        }),
{
}

/// The liquidation scenario adds up: what the quote market has lent is the victim's
/// loan, what it holds is the profits' backing, the protocol's standing fees are
/// more than that backing and the insurance fund's are less, open interest cancels,
/// and the victim owes on both sides.
pub proof fn the_victim_owes_what_the_books_say(
    a: SpotAddresses,
    mint: Pubkey,
    perp: Pubkey,
    authority: Pubkey,
    status: u8,
    signer: Pubkey,
    nonce: u8,
    duration: u8,
)
    ensures
        ({
            let spot = liq::build_spot_market_usdc(a, mint);
            let market = liq::build_perp_market(perp);
            let victim = liq::build_victim_user(authority, status);
            let state = liq::build_state(signer, nonce, duration);
            &&& victim.spot_side is Borrow && victim.spot_balance == spot.borrow_balance
            &&& victim.perp_quote < 0 && victim.status == status && victim.authority == authority
            &&& victim.spot_balance == -1_000 * victim.perp_quote
            &&& victim.perp_quote == -1_000_000
            &&& victim.next_liquidation_id == 1 && victim.sub_account_id == 0 && victim.pool_id == 0
            &&& spot.deposit_balance == market.pnl_pool_scaled_balance
            &&& spot.deposit_balance == 1_000 * liq::PNL_POOL_TOKENS
            &&& spot.borrow_balance < spot.deposit_balance
            &&& spot.pubkey == a.market && spot.vault == a.vault && spot.if_vault == a.if_vault
            &&& spot.if_fee_factor == 10_000 && spot.status is Active
            &&& market.base_asset_amount_long > 0 && market.base_asset_amount_long
                + market.base_asset_amount_short == 0
            &&& market.base_asset_amount_long == 10_000_000_000
            &&& market.pending_if_fee < liq::PNL_POOL_TOKENS < market.pending_protocol_fee
            &&& market.pending_if_fee == 500_000_000 && market.pending_protocol_fee == 5_000_000_000
            &&& market.bankruptcy_if_floor_pct == 300_000
            &&& market.amm.base_asset_reserve == market.amm.quote_asset_reserve
            &&& market.amm.sqrt_k == 10_000_000_000_000 && market.amm.peg_multiplier == 1_000_000
            &&& market.oracle_source is QuoteAsset && market.status is Active
            &&& market.last_mark_price_twap == 1_000_000
            &&& state.liquidation_margin_buffer_ratio == 50
            &&& state.initial_pct_to_liquidate == 1_000
            &&& state.liquidation_duration == duration && state.exchange_status == 0
            &&& state.signer == signer && state.signer_nonce == nonce
            &&& state.number_of_markets == 1 && state.number_of_spot_markets == 1
        }),
        liq::VICTIM_IDX != liq::LIQUIDATOR_IDX,
        liq::IF_VAULT_FUNDING > 0,
        -liq::UNCOVERED_PERP_QUOTE > liq::IF_VAULT_FUNDING + liq::PNL_POOL_TOKENS
            + liq::PENDING_PROTOCOL_FEE + liq::PENDING_IF_FEE,
{
}

/// A fresh account is its authority's, under its own number, in the first pool, with
/// nothing held, owed, flagged or delegated. An exchange of one market of each kind
/// has its signer, its pauses and no role given out.
pub proof fn fresh_accounts_hold_nothing(
    authority: Pubkey,
    sub_account_id: u16,
    signer: Pubkey,
    nonce: u8,
    paused: u8,
)
    ensures
        ({
            let u = UserAccount::fresh(authority, sub_account_id);
            &&& u.authority == authority && u.sub_account_id == sub_account_id
            &&& u.delegate == system_program_id() && u.pool_id == 0 && u.status == 0
            &&& u.next_order_id == 0 && u.next_liquidation_id == 0
            &&& u.perp_quote == 0 && u.spot_balance == 0
        }),
        ({
            let s = StateAccount::one_market(signer, nonce, paused);
            &&& s.signer == signer && s.signer_nonce == nonce && s.exchange_status == paused
            &&& s.number_of_markets == 1 && s.number_of_spot_markets == 1
            &&& s.feature_bit_flags == 0 && s.warm_admin == system_program_id()
            &&& s.hot_roles.amm_crank == system_program_id()
            &&& s.protocol_fee_recipient_perp == system_program_id()
            &&& s.liquidation_margin_buffer_ratio == 0 && s.liquidation_duration == 0
        }),
{
}

// ---------------------------------------------------------------------------
// Setups
// ---------------------------------------------------------------------------

/// A scenario that was set up has written its oracles before: the next publish time
/// is later than any that its setup used, the market maker's numbers start at one
/// and the messages' after zero, and nothing has been remembered.
pub proof fn setups_leave_later_times_free(p: &Protocol, k: ScenarioKeys, slot: u64, r: Option<Setup>)
    requires
        call_ensures(Fixture::setup, (p, k, slot), r),
        k.users@.len() == 2,
        k.fresh@.len() == 2,
    ensures
        r matches Some(s) ==> {
            &&& s.fixture.mm_seq == 1 && s.fixture.signed_uuid_seq == 0
            &&& s.fixture.signed_uuids@.len() == 0
            &&& s.fixture.oracle_seq == 2
            &&& forall|i: int|
                0 <= i < s.steps@.len() && (#[trigger] s.steps@[i]) is InjectOracle
                    ==> s.steps@[i]->InjectOracle_oracle.publish_time < s.fixture.oracle_seq
                    && s.steps@[i]->InjectOracle_oracle.posted_slot == slot && s.steps@[i]->InjectOracle_oracle.price
                    == 1_000_000
            &&& s.fixture.users@.len() == 2
            &&& s.fixture.crank == k.crank && s.fixture.admin == k.admin
        },
{
    if let Some(s) = r {
        let users = s.fixture.users@;
        reveal_with_fuel(crate::setup::all_user_steps, 3);
        reveal_with_fuel(crate::setup::fresh_steps, 3);
    }
}

/// A market in settlement pays at its expiry price, has expired before the scenario
/// begins, has paused settlement, and holds profits for a user without base.
pub proof fn the_expired_market_has_paused_settlement(
    c: Core,
    a: SpotAddresses,
    perp: Pubkey,
    mint: Pubkey,
    authority: Pubkey,
    user: Pubkey,
)
    ensures
        ({
            let steps = settlement::steps(c, a, perp, mint, authority, user);
            let m = steps[4]->InjectPerpMarket_market;
            &&& steps.len() == 7
            &&& steps[0] is InjectState && steps[0]->state.exchange_status == 0
            &&& steps[0]->InjectState_at == c.state
            &&& steps[2] is InjectSpotMarket && steps[2]->InjectSpotMarket_at == a.market
            &&& steps[3] == (SetupStep::TokenAccount {
                key: a.vault,
                mint,
                owner: c.signer,
                amount: 1_000_000_000,
            })
            &&& steps[4] is InjectPerpMarket && steps[4]->InjectPerpMarket_at == perp
            &&& m.status is Settlement && m.expiry_ts < 0 && m.expiry_price == 1_000_000
            &&& m.paused_operations == 8
            &&& m.pnl_pool_scaled_balance == 100_000_000_000
            &&& steps[6] is InjectUser && steps[6]->InjectUser_at == user
            &&& steps[6]->InjectUser_user.perp_quote == 1_000_000
            &&& steps[6]->InjectUser_user.authority == authority
            &&& steps[5] is Fund && steps[5]->Fund_key == authority
        }),
{
}

/// The market with a day of interest to accrue: half of its deposits are lent, its
/// vault holds twice the deposits, it last accrued a day before, and the exchange
/// has paused funding.
pub proof fn a_day_of_interest_waits(
    c: Core,
    a: SpotAddresses,
    mint: Pubkey,
    authority: Pubkey,
    wallet: Pubkey,
    stats: Pubkey,
    user: Pubkey,
)
    ensures
        ({
            let steps = spot_interest::steps(c, a, mint, authority, wallet, stats, user);
            let m = steps[3]->InjectSpotMarket_market;
            &&& steps[0] is SetClock && steps[0]->unix_timestamp - m.last_interest_ts == 24 * 3600
            &&& steps[0]->SetClock_slot == 1000
            &&& steps[1] is InjectState && steps[1]->state.exchange_status == 32
            &&& steps[3] is InjectSpotMarket && m.pubkey == a.market
            &&& 2 * m.borrow_balance == m.deposit_balance
            &&& m.deposit_balance == 1_000_000_000_000_000
            &&& steps[4] is TokenAccount && steps[4]->TokenAccount_key == a.vault
            &&& 1_000 * steps[4]->TokenAccount_amount == 2 * m.deposit_balance
            &&& m.optimal_utilization == 1_000_000 && m.max_borrow_rate == 1_000_000
            &&& m.optimal_borrow_rate == 100_000
            &&& steps[6] is TokenAccount && steps[6]->TokenAccount_key == wallet
                && steps[6]->TokenAccount_owner == authority && steps[6]->TokenAccount_amount == 1_000_000_000_000
            &&& steps[7] == (SetupStep::InitStats { authority, stats })
            &&& steps[8] == (SetupStep::OpenUser { authority, stats, user })
            &&& steps.len() == 9
        }),
{
}

/// The other paused scenarios pause what they were given and nothing of the
/// exchange.
pub proof fn market_pauses_are_as_given(
    c: Core,
    a: SpotAddresses,
    mint: Pubkey,
    authority: Pubkey,
    other: Pubkey,
    bit: u8,
)
    ensures
        ({
            let steps = revenue_deposit::steps(c, a, mint, authority, other, bit);
            &&& steps.len() == 7
            &&& steps[1] is InjectState && steps[1]->state.exchange_status == 0
            &&& steps[3] is InjectSpotMarket && steps[3]->InjectSpotMarket_market.paused_operations
                == bit
            &&& steps[4] is TokenAccount && steps[4]->TokenAccount_key == a.vault
                && steps[4]->TokenAccount_amount == 0
            &&& steps[6] is TokenAccount && steps[6]->TokenAccount_key == other && steps[6]->TokenAccount_owner
                == authority && steps[6]->TokenAccount_amount == 1_000_000_000_000
        }),
        ({
            let steps = settle_revenue::steps(c, a, mint, bit);
            &&& steps.len() == 6
            &&& steps[1] is InjectState && steps[1]->state.exchange_status == 0
            &&& steps[3] is InjectSpotMarket && steps[3]->InjectSpotMarket_market.paused_operations
                == bit && steps[3]->InjectSpotMarket_market.revenue_settle_period == 3600
            &&& steps[4] is TokenAccount && steps[4]->TokenAccount_key == a.vault
                && steps[4]->TokenAccount_amount == 1_000_000_000
            &&& steps[5] is TokenAccount && steps[5]->TokenAccount_key == a.if_vault
                && steps[5]->TokenAccount_amount == 0
        }),
        ({
            let steps = bid_ask_twap::steps(c, a.market, authority, other, bit);
            &&& steps.len() == 5
            &&& steps[1] is InjectState && steps[1]->state.exchange_status == 0
            &&& steps[2] is InjectPerpMarket && steps[2]->InjectPerpMarket_market.paused_operations
                == bit && steps[2]->InjectPerpMarket_at == a.market
            &&& steps[3] is Fund && steps[3]->Fund_key == authority
            &&& steps[4] == (SetupStep::InjectStats { at: other, authority })
        }),
{
}

/// A trader that owes its builder a reward: the exchange knows builder codes, the
/// market has expired and can pay out of its books and its vault alike, the trader
/// is owed there, the builder's second account is not its first, and the escrow
/// names the builder, with fees that the order's rate is allowed to earn.
pub proof fn a_reward_waits_in_escrow(
    c: Core,
    a: SpotAddresses,
    perp: Pubkey,
    trader: Pubkey,
    k: Keys273,
)
    ensures
        ({
            let steps = steps_273(c, a, perp, trader, k);
            let spot = steps[2]->InjectSpotMarket_market;
            let market = steps[4]->InjectPerpMarket_market;
            let escrow = steps[9]->escrow;
            &&& steps.len() == 10
            &&& steps[0] is InjectState && steps[0]->state.feature_bit_flags == 4
            &&& steps[2] is InjectSpotMarket && spot.deposit_balance
                == market.pnl_pool_scaled_balance
            &&& spot.deposit_balance == 1_000_000_000_000_000
            &&& steps[3] is TokenAccount && steps[3]->TokenAccount_key == a.vault
                && steps[3]->TokenAccount_amount >= spot.deposit_balance
            &&& steps[4] is InjectPerpMarket && market.status is Settlement && market.expiry_ts < 0
            &&& market.expiry_price == 1_000_000 && market.paused_operations == 0
            &&& steps[6] is InjectUser && steps[6]->InjectUser_user.perp_quote == 1_000_000
                && steps[6]->InjectUser_user.authority == trader && steps[6]->InjectUser_at
                == k.trader_pda
            &&& steps[7] is InjectUser && steps[7]->InjectUser_user.authority == k.builder_authority
                && steps[7]->InjectUser_user.sub_account_id == 1 && steps[7]->InjectUser_at
                == k.sibling_builder_pda
            &&& steps[8] == (SetupStep::InjectRevenueShare {
                at: k.builder_rev_share_pda,
                authority: k.builder_authority,
            })
            &&& steps[9] is InjectEscrow && escrow.authority == trader && escrow.builder
                == k.builder_authority
            &&& escrow.orders is Completed && escrow.orders->fees_accrued == 5_000
                && escrow.orders->fee_tenth_bps <= escrow.max_fee_tenth_bps
                && escrow.orders->order_id == 1
        }),
{
}

/// A trader with collateral and an approved builder, on a market with a curve: the
/// curve is balanced at par within its bounds, its spread can widen, and what the
/// trader deposits is in its wallet.
pub proof fn a_trader_with_a_builder(
    slot: u64,
    c: Core,
    a: SpotAddresses,
    perp: Pubkey,
    t: TraderAt,
    k: Keys256,
)
    ensures
        ({
            let steps = steps_256(slot, c, a, perp, t, k);
            let market = curved_market(perp, k.quoter_slab);
            let escrow = steps[12]->escrow;
            &&& steps.len() == 14
            &&& steps[0] is SetClock && steps[0]->SetClock_slot == slot && steps[0]->unix_timestamp
                == 1_000_000_000
            &&& steps[2] is InjectState && steps[2]->state.feature_bit_flags == 4
                && steps[2]->state.warm_admin == k.admin
            &&& steps[6] is InjectPerpMarket && steps[6]->InjectPerpMarket_market == market
            &&& market.amm.base_asset_reserve == market.amm.quote_asset_reserve
            &&& market.amm.terminal_quote_asset_reserve == market.amm.quote_asset_reserve
            &&& market.amm.sqrt_k == market.amm.base_asset_reserve
            &&& market.amm.sqrt_k == 100_000_000_000
            &&& market.amm.peg_multiplier == 1_000_000
            &&& market.amm.min_base_asset_reserve < market.amm.base_asset_reserve
                < market.amm.max_base_asset_reserve
            &&& market.amm.max_base_asset_reserve == 1_000_000_000_000
            &&& market.amm.min_base_asset_reserve == 100_000_000
            &&& market.amm.base_spread < market.amm.max_spread
            &&& market.amm.base_spread == 1_000 && market.amm.max_spread == 50_000
            &&& market.amm.fee_pool_scaled_balance == market.pnl_pool_scaled_balance
            &&& market.pnl_pool_scaled_balance == 1_000_000_000_000
            &&& market.amm.max_fill_reserve_fraction == 100 && market.amm.max_slippage_ratio == 50
            &&& market.quoter_slab == k.quoter_slab && market.status is Active
            &&& steps[8] is TokenAccount && steps[8]->TokenAccount_key == k.trader_token
                && steps[8]->TokenAccount_owner == t.authority
            &&& steps[11] is DepositQuote && steps[11]->DepositQuote_amount == 500_000_000_000
                && steps[11]->DepositQuote_amount <= steps[8]->TokenAccount_amount
                && steps[11]->DepositQuote_wallet == k.trader_token
            &&& steps[12] is InjectEscrow && escrow.authority == t.authority && escrow.builder
                == k.builder_authority && escrow.max_fee_tenth_bps == 1_000
            &&& escrow.orders is Blank && escrow.orders->slots == 8
            &&& steps[13] == (SetupStep::InstallBook {
                admin: k.admin,
                market: perp,
                operator: t.user,
            })
        }),
{
}

} // verus!
