use velocity_fuzz::constants::{INITIAL_SOL, INITIAL_USDC};
use velocity_fuzz::fixture::{Fixture, Protocol};
use velocity_fuzz::invariants::{
    invariant_solvency, Crank, History, Market, MarketAddresses, Mint, Snapshot, Violation,
};
use velocity_fuzz::keys::{Keypair, Pubkey};
use velocity_fuzz::model::{
    BalanceType, MarketType, Order, OrderStatus, OrderType, PerpMarket, PerpPosition, SpotMarket,
    SpotPosition, User,
};
use velocity_fuzz::setup::{ScenarioKeys, UserKeys};

fn key(b: u8) -> Pubkey {
    Pubkey { bytes: [b; 32] }
}

fn fixture() -> Fixture {
    let protocol = Protocol {
        program_id: key(9),
        lazer_storage_id: key(10),
        lazer_oracle_seed: b"pyth_lazer".to_vec(),
        amm_cache_seed: b"amm_cache".to_vec(),
        margin_buffer_ratio: 200,
        liquidation_duration: 150,
    };
    let user = |b: u8| UserKeys {
        keypair: Keypair { secret: [b; 32] },
        token_account: key(b + 100),
        token_account_1: key(b + 150),
    };
    let keys = ScenarioKeys {
        crank: Keypair { secret: [1; 32] },
        admin: Keypair { secret: [2; 32] },
        usdc_mint: key(20),
        sol_mint: key(21),
        users: vec![user(3), user(4)],
        fresh: vec![Keypair { secret: [5; 32] }, Keypair { secret: [6; 32] }],
    };
    Fixture::setup(&protocol, keys, 77).unwrap().fixture
}

fn spot(market_index: u16) -> SpotMarket {
    SpotMarket {
        market_index,
        deposit_balance: 0,
        borrow_balance: 0,
        cumulative_deposit_interest: 10_000_000_000,
        cumulative_borrow_interest: 10_000_000_000,
        total_social_loss: 0,
        user_shares: 0,
        total_shares: 0,
        deposit_tokens: 0,
        revenue_pool_tokens: 0,
        protocol_fee_pool_tokens: 0,
        revenue_receivable_tokens: 0,
        depositors_claim: 0,
        vault_accepted: true,
    }
}

fn perp() -> PerpMarket {
    PerpMarket {
        market_index: 0,
        base_asset_amount_long: 0,
        base_asset_amount_short: 0,
        base_asset_amount_with_amm: 0,
        cumulative_funding_rate_long: 0,
        cumulative_funding_rate_short: 0,
        last_funding_rate: 0,
        last_funding_rate_ts: 0,
        funding_period: 3600,
        pnl_pool_tokens: 0,
        fee_pool_tokens: 0,
        protocol_fee_pool_tokens: 0,
        pending_if_fee: 5_000_000,
        bankruptcy_if_floor: 0,
    }
}

fn user() -> User {
    User {
        spot_positions: Vec::new(),
        perp_positions: Vec::new(),
        orders: Vec::new(),
        next_order_id: 1,
        being_liquidated: false,
        bankrupt: false,
        liquidation_margin_freed: 0,
    }
}

fn balance(side: BalanceType, market_index: u16, tokens: u128) -> SpotPosition {
    SpotPosition { market_index, balance_type: side, scaled_balance: tokens as u64, tokens }
}

fn position(base: i64) -> PerpPosition {
    PerpPosition {
        market_index: 0,
        base_asset_amount: base,
        quote_asset_amount: 0,
        open_bids: 0,
        open_asks: 0,
        open_orders: 0,
        isolated_position_scaled_balance: 0,
    }
}

fn open_order(order_id: u32) -> Order {
    Order {
        status: OrderStatus::Open,
        market_type: MarketType::Perp,
        market_index: 0,
        order_id,
        order_type: OrderType::Limit,
        reduce_only: false,
        base_asset_amount_filled: 0,
    }
}

/// The exchange as it stands after setup.
fn at_rest() -> Snapshot {
    let f = fixture();
    Snapshot {
        addresses: MarketAddresses {
            program_id: f.program_id,
            spot_0: f.spot_market_pda,
            spot_1: f.spot_market_1_pda,
            pool1_a: f.pool1_market_a_pda,
            pool1_b: f.pool1_market_b_pda,
            perp: f.perp_market_pda,
        },
        spot_0: Some(spot(0)),
        spot_1: Some(spot(1)),
        pool1_a: Some(spot(2)),
        pool1_b: Some(spot(3)),
        perp: Some(perp()),
        users: vec![Some(user()), Some(user())],
        vault_0: 0,
        vault_1: 0,
        if_vault_0: 0,
        if_vault_1: 0,
        pool1_vault_a: 1_000_000_000,
        pool1_vault_b: 1_000_000_000_000,
        usdc_wallets: vec![INITIAL_USDC, INITIAL_USDC],
        sol_wallets: vec![INITIAL_SOL, INITIAL_SOL],
    }
}

fn sweep(history: &mut History, s: &Snapshot) -> Vec<Violation> {
    assert!(s.within_limits());
    invariant_solvency(history, s).violations
}

fn first_sweep(s: &Snapshot) -> Vec<Violation> {
    sweep(&mut History::new(2), s)
}

#[test]
fn a_scenario_at_rest_is_sound() {
    assert_eq!(first_sweep(&at_rest()), vec![]);
}

#[test]
fn unreadable_accounts_are_not_blamed() {
    let mut s = at_rest();
    s.spot_0 = None;
    s.spot_1 = None;
    s.perp = None;
    s.users = vec![None, None];
    assert_eq!(first_sweep(&s), vec![]);
}

#[test]
fn a_vault_must_cover_what_it_backs() {
    let mut s = at_rest();
    let mut m = spot(0);
    m.deposit_tokens = 100;
    m.revenue_pool_tokens = 7;
    s.spot_0 = Some(m);
    let mut u = user();
    u.spot_positions.push(balance(BalanceType::Deposit, 0, 50));
    s.users[0] = Some(u);
    s.vault_0 = 56;
    assert_eq!(
        first_sweep(&s),
        vec![Violation::ConservationBroken { market: Market::Spot0, vault: 56, backed: 57 }]
    );
    s.vault_0 = 57;
    assert_eq!(first_sweep(&s), vec![]);
}

#[test]
fn a_rejected_vault_is_insolvent() {
    let mut s = at_rest();
    let mut m = spot(0);
    m.vault_accepted = false;
    m.depositors_claim = 1_000;
    s.spot_0 = Some(m);
    assert_eq!(
        first_sweep(&s),
        vec![Violation::MarketInsolvent { market: Market::Spot0, claim: 1_000, vault: 0 }]
    );
}

#[test]
fn repayments_may_leave_dust_in_market_one() {
    let mut s = at_rest();
    let mut m = spot(1);
    m.vault_accepted = false;
    m.depositors_claim = 16;
    s.spot_1 = Some(m);
    assert_eq!(first_sweep(&s), vec![]);
    m.depositors_claim = 17;
    s.spot_1 = Some(m);
    assert_eq!(
        first_sweep(&s),
        vec![Violation::MarketInsolvent { market: Market::Spot1, claim: 17, vault: 0 }]
    );
}

#[test]
fn markets_record_at_least_what_users_hold() {
    let mut s = at_rest();
    let mut u = user();
    u.perp_positions.push(position(10));
    s.users[0] = Some(u);
    assert_eq!(first_sweep(&s), vec![Violation::LongsUnderstated { known: 10, recorded: 0 }]);
    let mut u = user();
    u.perp_positions.push(position(-10));
    s.users[0] = Some(u);
    assert_eq!(first_sweep(&s), vec![Violation::ShortsUnderstated { known: -10, recorded: 0 }]);
}

#[test]
fn stakers_cannot_hold_more_than_exists() {
    let mut s = at_rest();
    let mut m = spot(0);
    m.user_shares = 2;
    m.total_shares = 1;
    s.spot_0 = Some(m);
    assert_eq!(
        first_sweep(&s),
        vec![Violation::SharesExceedSupply { user_shares: 2, total_shares: 1 }]
    );
}

#[test]
fn indices_only_fall_with_a_socialized_loss() {
    let mut h = History::new(2);
    let mut s = at_rest();
    assert_eq!(sweep(&mut h, &s), vec![]);
    let mut m = spot(0);
    m.cumulative_deposit_interest -= 1;
    m.cumulative_borrow_interest -= 1;
    s.spot_0 = Some(m);
    assert_eq!(
        sweep(&mut h, &s),
        vec![
            Violation::DepositIndexFell {
                market: Market::Spot0,
                before: 10_000_000_000,
                now: 9_999_999_999,
            },
            Violation::BorrowIndexFell {
                market: Market::Spot0,
                before: 10_000_000_000,
                now: 9_999_999_999,
            },
        ]
    );
    m.cumulative_deposit_interest -= 1;
    m.total_social_loss = 1;
    s.spot_0 = Some(m);
    assert_eq!(sweep(&mut h, &s), vec![]);
}

#[test]
fn owed_cranks_must_not_revert() {
    let mut h = History::new(2);
    h.record_crank(Crank::UpdateFundingRate, true, false);
    h.record_crank(Crank::UpdateFundingRate, false, false);
    h.record_crank(Crank::UpdateFundingRate, true, true);
    let report = invariant_solvency(&mut h, &at_rest());
    assert_eq!(report.violations, vec![Violation::CranksReverted { count: 1 }]);
    assert_eq!(report.reverted_cranks, vec![Crank::UpdateFundingRate]);
}

#[test]
fn open_interest_is_what_the_amm_carries() {
    let mut s = at_rest();
    let mut p = perp();
    p.base_asset_amount_long = 10;
    p.base_asset_amount_short = -4;
    p.base_asset_amount_with_amm = 5;
    s.perp = Some(p);
    assert_eq!(first_sweep(&s), vec![Violation::OpenInterestMismatch { users: 6, amm: 5 }]);
}

#[test]
fn a_bare_borrow_is_flagged() {
    let mut s = at_rest();
    let mut m = spot(1);
    m.deposit_balance = 10;
    m.borrow_balance = 5;
    s.spot_1 = Some(m);
    let mut u = user();
    u.spot_positions.push(balance(BalanceType::Borrow, 1, 5));
    s.users[1] = Some(u);
    assert_eq!(first_sweep(&s), vec![Violation::UnflaggedBorrow { user: 1 }]);
    let mut u = user();
    u.spot_positions.push(balance(BalanceType::Borrow, 1, 5));
    u.being_liquidated = true;
    u.liquidation_margin_freed = 3;
    s.users[1] = Some(u);
    assert_eq!(first_sweep(&s), vec![]);
}

#[test]
fn freed_margin_ends_with_the_liquidation() {
    let mut s = at_rest();
    let mut u = user();
    u.liquidation_margin_freed = 3;
    s.users[0] = Some(u);
    assert_eq!(first_sweep(&s), vec![Violation::StaleMarginFreed { user: 0, freed: 3 }]);
}

#[test]
fn borrows_stay_below_deposits() {
    let mut s = at_rest();
    let mut m = spot(1);
    m.deposit_balance = 5;
    m.borrow_balance = 21;
    s.spot_1 = Some(m);
    assert_eq!(first_sweep(&s), vec![]);
    m.borrow_balance = 22;
    s.spot_1 = Some(m);
    assert_eq!(
        first_sweep(&s),
        vec![Violation::BadDebt { market: Market::Spot1, shortfall: 17 }]
    );
    let mut s = at_rest();
    let mut m = spot(2);
    m.depositors_claim = -17;
    s.pool1_a = Some(m);
    assert_eq!(
        first_sweep(&s),
        vec![Violation::NegativeClaim { market: Market::Pool1A, claim: -17 }]
    );
}

#[test]
fn refused_liquidations_are_reported() {
    let mut h = History::new(2);
    h.record_liquidation(false, Some(6004), true, true, true);
    h.record_liquidation(false, Some(6004), false, true, true);
    h.record_liquidation(false, Some(6003), true, true, true);
    h.record_liquidation(false, Some(6004), true, false, true);
    h.record_liquidation(true, None, true, true, true);
    assert_eq!(sweep(&mut h, &at_rest()), vec![Violation::LiquidationsRefused { count: 1 }]);
}

#[test]
fn tokens_are_not_made_up() {
    let mut s = at_rest();
    s.vault_0 = 1_000_000_000;
    assert_eq!(first_sweep(&s), vec![]);
    s.vault_0 += 1;
    assert_eq!(
        first_sweep(&s),
        vec![Violation::TokensInflated {
            mint: Mint::Usdc,
            counted: 2_002_000_000_001,
            issued: 2_002_000_000_000,
        }]
    );
    s.vault_0 = 0;
    s.sol_wallets[1] += 2;
    assert_eq!(
        first_sweep(&s),
        vec![Violation::TokensInflated {
            mint: Mint::Sol,
            counted: 3_000_000_000_002,
            issued: 3_000_000_000_000,
        }]
    );
}

#[test]
fn reduce_only_fills_reduce() {
    let mut h = History::new(2);
    let mut s = at_rest();
    let mut p = perp();
    p.base_asset_amount_long = 30;
    p.base_asset_amount_with_amm = 30;
    s.perp = Some(p);
    let with = |base: i64, filled: u64| {
        let mut u = user();
        u.perp_positions.push(position(base));
        let mut o = open_order(0);
        o.reduce_only = true;
        o.base_asset_amount_filled = filled;
        u.orders.push(o);
        Some(u)
    };
    s.users[0] = with(10, 0);
    assert_eq!(sweep(&mut h, &s), vec![]);
    s.users[0] = with(5, 5);
    assert_eq!(sweep(&mut h, &s), vec![]);
    s.users[0] = with(12, 6);
    assert_eq!(
        sweep(&mut h, &s),
        vec![Violation::ReduceOnlyGrew { user: 0, before: 5, now: 12 }]
    );
}

#[test]
fn open_orders_have_distinct_issued_ids() {
    let mut s = at_rest();
    let mut u = user();
    u.next_order_id = 8;
    u.orders = vec![open_order(4), open_order(4), open_order(8)];
    s.users[1] = Some(u);
    let found = first_sweep(&s);
    assert!(found.contains(&Violation::DuplicateOrderId { user: 1, order_id: 4 }));
    assert!(found.contains(&Violation::OrderIdAhead { user: 1, order_id: 8, next_order_id: 8 }));
    assert_eq!(found.len(), 2);
}

#[test]
fn markets_live_where_their_index_says() {
    let mut s = at_rest();
    let mut m = spot(1);
    m.market_index = 2;
    s.spot_1 = Some(m);
    assert_eq!(first_sweep(&s), vec![Violation::MarketMisplaced { market: Market::Spot1 }]);
}

#[test]
fn accounts_in_liquidation_do_not_grow() {
    let mut h = History::new(2);
    let mut s = at_rest();
    let mut p = perp();
    p.base_asset_amount_long = 100;
    p.base_asset_amount_with_amm = 100;
    s.perp = Some(p);
    let with = |base: i64, bids: i64| {
        let mut u = user();
        u.being_liquidated = true;
        let mut pos = position(base);
        pos.open_bids = bids;
        u.perp_positions.push(pos);
        Some(u)
    };
    s.users[0] = with(10, 0);
    assert_eq!(sweep(&mut h, &s), vec![]);
    s.users[0] = with(10, 5);
    assert_eq!(sweep(&mut h, &s), vec![Violation::AtRiskExposureGrew { user: 0 }]);
    s.users[0] = with(4, 5);
    assert_eq!(sweep(&mut h, &s), vec![]);
}

#[test]
fn funding_is_applied_when_its_clock_moves() {
    let mut h = History::new(2);
    let mut s = at_rest();
    let mut p = perp();
    p.base_asset_amount_long = 7;
    p.base_asset_amount_with_amm = 7;
    s.perp = Some(p);
    assert_eq!(sweep(&mut h, &s), vec![]);
    p.last_funding_rate_ts = 3600;
    p.last_funding_rate = 5;
    s.perp = Some(p);
    assert_eq!(sweep(&mut h, &s), vec![Violation::FundingDiscarded { before: 0, now: 3600 }]);
    p.last_funding_rate_ts = 7200;
    p.cumulative_funding_rate_long = 5;
    s.perp = Some(p);
    assert_eq!(sweep(&mut h, &s), vec![]);
}

#[test]
fn pools_stay_inside_the_quote_market() {
    let mut s = at_rest();
    let mut m = spot(0);
    m.deposit_tokens = 10;
    m.deposit_balance = 10;
    s.spot_0 = Some(m);
    let mut p = perp();
    p.pnl_pool_tokens = 6;
    p.protocol_fee_pool_tokens = 5;
    s.perp = Some(p);
    s.vault_0 = 6;
    assert_eq!(first_sweep(&s), vec![Violation::PoolsUnbacked { claims: 11, deposits: 10 }]);
}
