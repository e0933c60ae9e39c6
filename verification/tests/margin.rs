use velocity_fuzz::accounts::build_pyth_lazer_oracle;
use velocity_fuzz::compound::{
    force_delete_preparation, idle_preparation, remove_if_stake_preparation,
    settle_revenue_preparation, Action,
};
use velocity_fuzz::fixture::{Fixture, Protocol};
use velocity_fuzz::keys::{Keypair, Pubkey};
use velocity_fuzz::margin::{
    borrow_to_margin_limit, deposits_within_limits, is_unconditionally_insolvent,
    valuation_within_limits,
};
use velocity_fuzz::model::{BalanceType, PerpPosition, SpotPosition, User};
use velocity_fuzz::oracle::{
    oracle_is_fresh, step_delta, step_price, Clock, GuardRails, MarketTolerance,
};
use velocity_fuzz::repay::{deficit, user_token};
use velocity_fuzz::setup::{ScenarioKeys, UserKeys};

fn key(b: u8) -> Pubkey {
    Pubkey { bytes: [b; 32] }
}

fn fixture() -> Fixture {
    let protocol = Protocol {
        program_id: key(9),
        lazer_storage_id: key(10),
        lazer_oracle_seed: b"pyth_lazer".to_vec(),
        amm_cache_seed: b"amm_cache".to_vec(),
        margin_buffer_ratio: 200,
        liquidation_duration: 150,
    };
    let user = |b: u8| UserKeys {
        keypair: Keypair { secret: [b; 32] },
        token_account: key(b + 100),
        token_account_1: key(b + 150),
    };
    let keys = ScenarioKeys {
        crank: Keypair { secret: [1; 32] },
        admin: Keypair { secret: [2; 32] },
        usdc_mint: key(20),
        sol_mint: key(21),
        users: vec![user(3), user(4)],
        fresh: vec![Keypair { secret: [5; 32] }, Keypair { secret: [6; 32] }],
    };
    Fixture::setup(&protocol, keys, 77).unwrap().fixture
}

fn user(spots: Vec<SpotPosition>, perps: Vec<PerpPosition>) -> User {
    User {
        spot_positions: spots,
        perp_positions: perps,
        orders: Vec::new(),
        next_order_id: 1,
        being_liquidated: false,
        bankrupt: false,
        liquidation_margin_freed: 0,
    }
}

fn balance(side: BalanceType, market_index: u16, tokens: u128) -> SpotPosition {
    SpotPosition { market_index, balance_type: side, scaled_balance: 1, tokens }
}

fn perp(base: i64, quote: i64) -> PerpPosition {
    PerpPosition {
        market_index: 0,
        base_asset_amount: base,
        quote_asset_amount: quote,
        open_bids: 0,
        open_asks: 0,
        open_orders: 0,
        isolated_position_scaled_balance: 0,
    }
}

#[test]
fn owing_more_than_one_has_is_insolvent() {
    let dollar = 1_000_000i64;
    let one = 10_000_000_000u128;
    // Ten dollars deposited, eight owed: four of market 1 at two dollars.
    let healthy = user(
        vec![
            balance(BalanceType::Deposit, 0, 10_000_000),
            balance(BalanceType::Borrow, 1, 4_000_000_000),
        ],
        Vec::new(),
    );
    assert!(!is_unconditionally_insolvent(&healthy, 2 * dollar, dollar, one));
    // At three dollars the debt is twelve.
    assert!(is_unconditionally_insolvent(&healthy, 3 * dollar, dollar, one));
}

#[test]
fn perp_losses_count_against_collateral() {
    let dollar = 1_000_000i64;
    let one = 10_000_000_000u128;
    let u = user(
        vec![balance(BalanceType::Deposit, 0, 10_000_000)],
        vec![perp(1_000_000_000, -12_000_000)],
    );
    assert!(is_unconditionally_insolvent(&u, dollar, dollar, one));
    let u = user(
        vec![balance(BalanceType::Deposit, 0, 10_000_000)],
        vec![perp(1_000_000_000, -10_000_000)],
    );
    assert!(!is_unconditionally_insolvent(&u, dollar, dollar, one));
}

#[test]
fn a_borrow_to_the_limit_is_a_share_of_the_deposit() {
    let u = user(vec![balance(BalanceType::Deposit, 0, 120_000_000)], Vec::new());
    // A hundred and twenty dollars, weighted by 1.2, buy a hundred at a dollar each.
    assert_eq!(borrow_to_margin_limit(&u, 1_000_000, 100), Some(100_000_000_000));
    assert_eq!(borrow_to_margin_limit(&u, 1_000_000, 50), Some(50_000_000_000));
    assert_eq!(borrow_to_margin_limit(&u, 2_000_000, 100), Some(50_000_000_000));
    assert_eq!(borrow_to_margin_limit(&user(Vec::new(), Vec::new()), 1_000_000, 50), None);
    assert_eq!(borrow_to_margin_limit(&u, 0, 50), None);
}

#[test]
fn only_values_that_overflow_are_out_of_limits() {
    let dollar = 1_000_000i64;
    let one = 10_000_000_000u128;
    let most = i128::MAX as u128 / 1_000_000;
    let held = |tokens: u128| user(vec![balance(BalanceType::Deposit, 0, tokens)], Vec::new());
    assert!(valuation_within_limits(&held(most), dollar, one));
    assert!(!valuation_within_limits(&held(most + 1), dollar, one));
    // An empty position is not valued, whatever it says.
    let mut empty = held(most + 1);
    empty.spot_positions[0].scaled_balance = 0;
    assert!(valuation_within_limits(&empty, dollar, one));
    let mut isolated = user(Vec::new(), vec![perp(0, 0)]);
    isolated.perp_positions[0].isolated_position_scaled_balance = u64::MAX;
    assert!(valuation_within_limits(&isolated, dollar, one));
    assert!(!valuation_within_limits(&isolated, dollar, u128::MAX));
    assert!(deposits_within_limits(&held(u128::MAX / 10_000)));
    assert!(!deposits_within_limits(&held(u128::MAX / 10_000 + 1)));
}

#[test]
fn borrowing_turns_margin_trading_on_first() {
    let f = fixture();
    let u = user(vec![balance(BalanceType::Deposit, 0, 120_000_000)], Vec::new());
    let (enable, withdraw) = f.action_borrow_to_margin_limit(0, 100, &u, 1_000_000).unwrap();
    assert_eq!(enable.instructions[0].data[..8], [194, 92, 204, 223, 246, 188, 31, 203]);
    assert_eq!(withdraw.instructions[0].data[..8], [183, 18, 70, 156, 148, 109, 161, 34]);
    assert_eq!(withdraw.instructions[0].data[8..10], [1, 0]);
    assert_eq!(withdraw.instructions[0].data[10..18], 100_000_000_000u64.to_le_bytes());
}

#[test]
fn prices_move_by_basis_points() {
    assert_eq!(step_delta(1_000_000, 50), 5_000);
    assert_eq!(step_price(1_000_000, true, 50), 1_005_000);
    assert_eq!(step_price(1_000_000, false, 50), 995_000);
}

#[test]
fn forty_steps_compound_past_thirty_percent() {
    let mut price = 1_000_000i64;
    for _ in 0..40 {
        price = step_price(price, true, 99);
    }
    assert!(price > 1_300_000);
}

#[test]
fn moved_oracles_keep_their_history() {
    let mut f = fixture();
    let seq = f.oracle_seq;
    let wr = f.action_move_oracle_price(1, 50, 0, 0, 0, 1_000_000, 90);
    assert_eq!(wr.address, f.perp_oracle_pda);
    assert_eq!(wr.oracle.price, 1_005_000);
    assert_eq!(wr.oracle.posted_slot, 90);
    assert_eq!(f.oracle_seq, seq + 1);
    let wr = f.action_move_spot_1_oracle_price(0, 99, 0, 0, 0, 1_000_000, 91);
    assert_eq!(wr.address, f.spot_1_oracle_pda);
    assert_eq!(wr.oracle.price, 990_100);
    assert_eq!(f.oracle_seq, seq + 2);
}

#[test]
fn fresh_oracles_are_recent_certain_and_calm() {
    let rails = GuardRails { confidence_interval_max_size: 20_000, too_volatile_ratio: 5 };
    let market = MarketTolerance { confidence_multiplier: 1, last_oracle_price_twap: 1_000_000 };
    let fresh = build_pyth_lazer_oracle(1_000_000, 0, 100, 1);
    assert!(oracle_is_fresh(&fresh, &rails, &market, 100));
    assert!(!oracle_is_fresh(&build_pyth_lazer_oracle(0, 0, 100, 1), &rails, &market, 100));
    assert!(!oracle_is_fresh(&fresh, &rails, &market, 103));
    let bounded = build_pyth_lazer_oracle(1_000_000, 20_000, 98, 1);
    assert!(oracle_is_fresh(&bounded, &rails, &market, 100));
    assert!(!oracle_is_fresh(&bounded, &rails, &market, 101));
    let vague = build_pyth_lazer_oracle(1_000_000, 20_001, 100, 1);
    assert!(!oracle_is_fresh(&vague, &rails, &market, 100));
    let lively = build_pyth_lazer_oracle(5_999_999, 0, 100, 1);
    assert!(oracle_is_fresh(&lively, &rails, &market, 100));
    let wild = build_pyth_lazer_oracle(6_000_000, 0, 100, 1);
    assert!(!oracle_is_fresh(&wild, &rails, &market, 100));
}

#[test]
fn time_passes_with_the_slots() {
    let mut f = fixture();
    let before = Clock { slot: 100, unix_timestamp: 1_000 };
    let warp = f.action_warp(4_000, 1, before, Some(1_000_000), Some(2_000_000));
    assert_eq!(warp.clock.slot, 4_100);
    assert_eq!(warp.clock.unix_timestamp, 2_600);
    let (perp, spot) = warp.reposts.unwrap();
    assert_eq!((perp.oracle.price, perp.oracle.posted_slot), (1_000_000, 4_100));
    assert_eq!((spot.oracle.price, spot.oracle.posted_slot), (2_000_000, 4_100));
    let warp = f.action_warp(10, 0, before, Some(1_000_000), Some(2_000_000));
    assert!(warp.reposts.is_none());
}

#[test]
fn preparations_wait_long_enough() {
    let mut f = fixture();
    let mut elapsed = |actions: Vec<Action>| {
        let mut clock = Clock { slot: 0, unix_timestamp: 0 };
        for action in actions {
            clock = match action {
                Action::Warp { slots, repost } => {
                    f.action_warp(slots, repost, clock, None, None).clock
                }
                Action::WarpLong { months, repost } => {
                    f.action_warp_long(months, repost, clock, None, None).clock
                }
                _ => clock,
            };
        }
        clock
    };
    // An hour to unstake and to settle revenue, which one warp does not reach.
    assert_eq!(elapsed(remove_if_stake_preparation(0, 1)).unix_timestamp, 3_998);
    assert_eq!(elapsed(settle_revenue_preparation(1)).unix_timestamp, 3_998);
    // Nine thousand slots to be idle, about three months to be abandoned.
    assert_eq!(elapsed(idle_preparation(1, 0)).slot, 9_100);
    assert!(elapsed(force_delete_preparation(1, 0)).slot >= 18_144_000);
}

#[test]
fn native_updates_count_up() {
    let mut f = fixture();
    let seq = f.mm_seq;
    let t = f.action_native_mm_oracle(1_000_000);
    let data = &t.instructions[0].data;
    assert_eq!(data[data.len() - 16..data.len() - 8], 1_000_000i64.to_le_bytes());
    assert_eq!(data[..5], [255, 255, 255, 255, 0]);
    assert_eq!(data[data.len() - 8..], seq.to_le_bytes());
    assert_eq!(f.mm_seq, seq + 1);
    let t = f.action_native_spread_adjust(-3);
    assert_eq!(t.instructions[0].data, vec![255, 255, 255, 255, 1, 253]);
}

#[test]
fn deficits_are_claims_less_the_vault() {
    assert_eq!(deficit(100, 103), 3);
    assert_eq!(deficit(100, 99), -1);
    let u = user(
        vec![
            balance(BalanceType::Deposit, 0, 10),
            balance(BalanceType::Borrow, 1, 7),
        ],
        Vec::new(),
    );
    assert_eq!(user_token(&u, 0), 10);
    assert_eq!(user_token(&u, 1), -7);
    assert_eq!(user_token(&u, 2), 0);
}

#[test]
fn market_one_accrues_against_its_own_oracle() {
    let f = fixture();
    let t = f.crank_interest_1();
    let keys: Vec<Pubkey> = t.instructions[0].accounts.iter().map(|a| a.pubkey).collect();
    assert_eq!(
        keys,
        vec![f.state_pda, f.spot_market_1_pda, f.spot_1_oracle_pda, f.spot_vault_1_pda]
    );
    assert_eq!(
        t.instructions[0].data,
        f.action_update_spot_market_cumulative_interest().instructions[0].data
    );
    assert_eq!(t.signers, vec![f.crank.pubkey()]);
}
