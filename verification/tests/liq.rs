use velocity_fuzz::keys::{token_program_id, AccountMeta, Keypair, Pubkey, Transaction};
use velocity_fuzz::liq::{
    action_warp, build_state, check_all_invariants, regr_255_floored_if_tranche, regr_267_perp_before_spot,
    regr_275_equity_floor_liq, regr_306_amm_phantom_funding, tokens_to_scaled, tranche_is_backed,
    Breach, Fixture, Setup, Snapshot, TrancheState, UserKeys, LIQUIDATOR_IDX,
    UNCOVERED_PERP_QUOTE, VICTIM_IDX,
};
use velocity_fuzz::model::{BalanceType, PerpMarket, SpotMarket, SpotPosition, User};
use velocity_fuzz::setup::SetupStep;

/// Being liquidated, and bankrupt.
const BANKRUPT: u8 = 3;

fn key(b: u8) -> Pubkey {
    Pubkey { bytes: [b; 32] }
}

fn set_up() -> Setup {
    let user = |b: u8| UserKeys { keypair: Keypair { secret: [b; 32] }, token_account: key(b + 100) };
    Fixture::setup(key(9), key(20), &vec![user(1), user(2), user(3)], 60, BANKRUPT).unwrap()
}

fn found(seeds: &[&[u8]]) -> Pubkey {
    let program = solana_pubkey::Pubkey::new_from_array([9; 32]);
    let (key, _) = solana_pubkey::Pubkey::find_program_address(seeds, &program);
    Pubkey { bytes: key.to_bytes() }
}

fn r(k: Pubkey) -> AccountMeta {
    AccountMeta { pubkey: k, is_signer: false, is_writable: false }
}

fn w(k: Pubkey) -> AccountMeta {
    AccountMeta { pubkey: k, is_signer: false, is_writable: true }
}

fn rs(k: Pubkey) -> AccountMeta {
    AccountMeta { pubkey: k, is_signer: true, is_writable: false }
}

fn one(t: &Transaction) -> (Vec<AccountMeta>, Vec<u8>) {
    assert_eq!(t.instructions.len(), 1);
    (t.instructions[0].accounts.clone(), t.instructions[0].data.clone())
}

/// The exchange as the setup leaves it, with unit interest.
fn at_rest(s: &Setup) -> Snapshot {
    let mut snapshot = Snapshot {
        spot: None,
        perp: None,
        users: Vec::new(),
        vault: 0,
        if_vault: 0,
    };
    for step in &s.steps {
        match step {
            SetupStep::TokenAccount { key, amount, .. } if *key == s.fixture.spot_vault_pda => {
                snapshot.vault = *amount;
            }
            SetupStep::TokenAccount { key, amount, .. } if *key == s.fixture.if_vault_pda => {
                snapshot.if_vault = *amount;
            }
            SetupStep::InjectSpotMarket { market, .. } => {
                let tokens = |scaled: u128| scaled / 1_000;
                let claim = tokens(market.deposit_balance) - tokens(market.borrow_balance);
                snapshot.spot = Some(SpotMarket {
                    market_index: 0,
                    deposit_balance: market.deposit_balance,
                    borrow_balance: market.borrow_balance,
                    cumulative_deposit_interest: market.cumulative_deposit_interest,
                    cumulative_borrow_interest: market.cumulative_borrow_interest,
                    total_social_loss: 0,
                    user_shares: 0,
                    total_shares: 0,
                    deposit_tokens: tokens(market.deposit_balance),
                    revenue_pool_tokens: 0,
                    protocol_fee_pool_tokens: 0,
                    revenue_receivable_tokens: 0,
                    depositors_claim: claim as i64,
                    vault_accepted: claim <= snapshot.vault as u128,
                });
            }
            SetupStep::InjectPerpMarket { market, .. } => {
                // Open interest at a dollar, and thirty percent of it.
                let floor = (market.base_asset_amount_long as u128 / 1_000)
                    * market.bankruptcy_if_floor_pct as u128
                    / 1_000_000;
                assert!(floor > 0);
                snapshot.perp = Some(PerpMarket {
                    market_index: 0,
                    base_asset_amount_long: market.base_asset_amount_long,
                    base_asset_amount_short: market.base_asset_amount_short,
                    base_asset_amount_with_amm: market.amm.base_asset_amount_with_amm,
                    cumulative_funding_rate_long: 0,
                    cumulative_funding_rate_short: 0,
                    last_funding_rate: 0,
                    last_funding_rate_ts: 0,
                    funding_period: 0,
                    pnl_pool_tokens: market.pnl_pool_scaled_balance / 1_000,
                    fee_pool_tokens: 0,
                    protocol_fee_pool_tokens: 0,
                    pending_if_fee: market.pending_if_fee,
                    bankruptcy_if_floor: floor,
                });
            }
            SetupStep::OpenUser { .. } => snapshot.users.push(Some(User {
                spot_positions: Vec::new(),
                perp_positions: Vec::new(),
                orders: Vec::new(),
                next_order_id: 1,
                being_liquidated: false,
                bankrupt: false,
                liquidation_margin_freed: 0,
            })),
            SetupStep::WriteUser { at, user } => {
                assert_eq!(*at, s.fixture.users[VICTIM_IDX].user_pda);
                let victim = snapshot.users[VICTIM_IDX].as_mut().unwrap();
                victim.being_liquidated = user.status & 1 != 0;
                victim.bankrupt = user.status & 2 != 0;
                victim.spot_positions.push(SpotPosition {
                    market_index: 0,
                    balance_type: user.spot_side,
                    scaled_balance: user.spot_balance,
                    tokens: user.spot_balance as u128 / 1_000,
                });
            }
            _ => {}
        }
    }
    snapshot
}

#[test]
fn setup_is_coherent() {
    let s = set_up();
    let snapshot = at_rest(&s);
    assert_eq!(snapshot.users.len(), 3);
    assert!(snapshot.users.iter().all(|u| u.is_some()));
    let victim = snapshot.users[VICTIM_IDX].as_ref().unwrap();
    assert!(victim.bankrupt, "victim should be bankrupt");
    assert!(victim.being_liquidated, "victim flagged being-liquidated");
    assert!(snapshot.within_limits());
    assert_eq!(check_all_invariants(&snapshot), vec![]);
    assert_eq!(snapshot.perp.unwrap().bankruptcy_if_floor, 3_000_000);
}

#[test]
fn liquidation_scenario_lives_at_derived_addresses() {
    let f = set_up().fixture;
    assert_eq!(f.state_pda, found(&[b"velocity_state"]));
    assert_eq!(f.if_vault_pda, found(&[b"insurance_fund_vault", &[0, 0]]));
    assert_eq!(f.perp_market_pda, found(&[b"perp_market", &[0, 0]]));
    let staker = f.users[LIQUIDATOR_IDX].keypair.pubkey().bytes;
    assert_eq!(f.if_stake_pda, found(&[b"insurance_fund_stake", &staker, &[0, 0]]));
}

#[test]
fn a_tenth_of_a_position_is_liquidated_at_first() {
    let state = build_state(key(5), 254, 60);
    assert_eq!(state.initial_pct_to_liquidate, 1_000);
    assert_eq!(state.liquidation_margin_buffer_ratio, 50);
    assert_eq!(state.liquidation_duration, 60);
}

#[test]
fn scaled_balances_are_a_thousandfold() {
    assert_eq!(tokens_to_scaled(1_000_000), 1_000_000_000);
    assert_eq!(tokens_to_scaled(0), 0);
    assert_eq!(tokens_to_scaled(u128::MAX), u128::MAX / 1_000_000);
}

#[test]
fn wallets_bound_what_is_deposited_and_staked() {
    let f = set_up().fixture;
    let (metas, data) = one(&f.action_deposit(1, 500, 40).unwrap());
    assert_eq!(data[8..], [0, 0, 40, 0, 0, 0, 0, 0, 0, 0, 0]);
    assert_eq!(metas.len(), 8);
    assert_eq!(metas[7], w(f.spot_market_pda));
    assert!(f.action_deposit(1, 500, 0).is_none());
    let (_, data) = one(&f.action_add_if_stake(500, 600).unwrap());
    assert_eq!(data[8..], [0, 0, 244, 1, 0, 0, 0, 0, 0, 0]);
    assert!(f.action_add_if_stake(500, 0).is_none());
}

#[test]
fn the_liquidator_acts_on_the_victim() {
    let f = set_up().fixture;
    let (l, v) = f.liquidator_meta();
    let (metas, data) = one(&f.action_liquidate_perp(7));
    assert_eq!(
        metas,
        vec![
            r(f.state_pda),
            rs(l.keypair.pubkey()),
            w(l.user_pda),
            w(l.stats_pda),
            w(v.user_pda),
            w(v.stats_pda),
            r(f.spot_market_pda),
            w(f.perp_market_pda),
        ]
    );
    assert_eq!(data[8..], [0, 0, 7, 0, 0, 0, 0, 0, 0, 0, 0]);
    let (_, data) = one(&f.action_liquidate_spot(7));
    assert_eq!(data.len(), 8 + 2 + 2 + 16 + 1);
    let (metas, _) = one(&f.action_liquidate_pnl_for_deposit(7));
    assert_eq!(metas[6..], [w(f.spot_market_pda), r(f.perp_market_pda)]);
    let (metas, _) = one(&f.action_set_being_liquidated(1));
    assert_eq!(metas[1], w(f.users[1].user_pda));
}

#[test]
fn resolutions_share_their_accounts() {
    let f = set_up().fixture;
    let (perp, data) = one(&f.action_resolve_perp_bankruptcy());
    assert_eq!(data[8..], [0, 0, 0, 0]);
    let (spot, data) = one(&f.action_resolve_spot_bankruptcy());
    assert_eq!(data[8..], [0, 0]);
    assert_eq!(perp, spot);
    assert_eq!(perp.len(), 13);
    assert_eq!(perp[9], r(token_program_id()));
    let (deficit, _) = one(&f.action_resolve_perp_pnl_deficit());
    assert_eq!(deficit[6..], [w(f.perp_market_pda), w(f.spot_market_pda), r(f.usdc_mint)]);
}

#[test]
fn stakes_are_asked_back_before_they_return() {
    let f = set_up().fixture;
    let (metas, _) = one(&f.action_request_remove_if_stake(3));
    assert_eq!(metas.len(), 5);
    let (metas, data) = one(&f.action_remove_if_stake());
    assert_eq!(metas.len(), 9);
    assert_eq!(data[8..], [0, 0]);
    let (metas, _) = one(&f.init_if_stake());
    assert_eq!(metas[1], w(f.if_stake_pda));
    assert_eq!(action_warp(100, 11), 111);
}

#[test]
fn breaches_are_reported() {
    let s = set_up();
    let report = |change: &dyn Fn(&mut Snapshot)| {
        let mut snapshot = at_rest(&s);
        change(&mut snapshot);
        check_all_invariants(&snapshot)
    };
    assert_eq!(report(&|s| s.if_vault = 0), vec![Breach::InsuranceDrained]);
    assert_eq!(
        report(&|s| s.spot.as_mut().unwrap().vault_accepted = false),
        vec![Breach::Insolvent { vault: 1_000_000_000 }]
    );
    assert_eq!(
        report(&|s| s.spot.as_mut().unwrap().revenue_receivable_tokens = 1_000_001),
        vec![Breach::ConservationBroken { vault: 1_000_000_000, backed: 1_000_000_001 }]
    );
    assert_eq!(
        report(&|s| s.perp.as_mut().unwrap().base_asset_amount_with_amm = 1),
        vec![Breach::OpenInterest { net_users: 0, amm: 1 }]
    );
    assert_eq!(
        report(&|s| s.perp.as_mut().unwrap().pnl_pool_tokens = 2_999_999),
        vec![Breach::TrancheUnbacked { backing: 2_999_999, tranche: 3_000_000 }]
    );
    assert_eq!(
        report(&|s| s.users[VICTIM_IDX].as_mut().unwrap().being_liquidated = false),
        vec![
            Breach::BorrowWithoutCollateral { user: VICTIM_IDX },
            Breach::BankruptUnflagged { user: VICTIM_IDX },
        ]
    );
    assert_eq!(
        report(&|s| s.spot.as_mut().unwrap().user_shares = 1),
        vec![
            Breach::SharesExceedSupply { user_shares: 1, total_shares: 0 },
            Breach::SharesWithoutSupply { user_shares: 1 },
        ]
    );
}

#[test]
fn a_deposit_covers_a_borrow() {
    let s = set_up();
    let mut snapshot = at_rest(&s);
    let victim = snapshot.users[VICTIM_IDX].as_mut().unwrap();
    victim.being_liquidated = false;
    victim.bankrupt = false;
    victim.spot_positions.push(SpotPosition {
        market_index: 1,
        balance_type: BalanceType::Deposit,
        scaled_balance: 1,
        tokens: 0,
    });
    assert_eq!(check_all_invariants(&snapshot), vec![]);
}

#[test]
fn sweeps_leave_the_tranche_backed() {
    let state = |pnl_tokens| TrancheState {
        pending_if_fee: 500,
        floor: 300,
        pnl_tokens,
        fee_tokens: 100,
    };
    assert!(regr_255_floored_if_tranche(&state(1_000), &state(200)));
    assert!(!regr_255_floored_if_tranche(&state(1_000), &state(199)));
    let empty = TrancheState { pending_if_fee: 0, ..state(0) };
    assert!(regr_255_floored_if_tranche(&empty, &state(0)));
    assert!(tranche_is_backed(u128::MAX, u128::MAX, u128::MAX, 1));
}

#[test]
fn liquidation_regressions_are_judged() {
    assert!(regr_267_perp_before_spot(false) && !regr_267_perp_before_spot(true));
    assert!(regr_275_equity_floor_liq(false) && !regr_275_equity_floor_liq(true));
    assert!(regr_306_amm_phantom_funding(true, 0, 5, 0));
    assert!(!regr_306_amm_phantom_funding(false, 0, 5, 0));
    assert!(!regr_306_amm_phantom_funding(true, 5, 5, 0));
    assert!(!regr_306_amm_phantom_funding(true, 0, 5, 1));
    assert_eq!(UNCOVERED_PERP_QUOTE, -50_000_000_000);
}
