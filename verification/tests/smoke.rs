//! What the scenario sends along whole courses of play.

use velocity_fuzz::fixture::{Fixture, Protocol};
use velocity_fuzz::keys::{AccountMeta, Keypair, Pubkey, Transaction};
use velocity_fuzz::margin::{borrow_to_margin_limit, is_unconditionally_insolvent};
use velocity_fuzz::model::{BalanceType, PositionDirection, SpotPosition, User};
use velocity_fuzz::oracle::{Clock, OracleOwner};
use velocity_fuzz::setup::{ScenarioKeys, UserKeys};

const USDC: u64 = 1_000_000;
const SOL: u64 = 1_000_000_000;

fn key(b: u8) -> Pubkey {
    Pubkey { bytes: [b; 32] }
}

fn fixture() -> Fixture {
    let protocol = Protocol {
        program_id: key(9),
        lazer_storage_id: key(10),
        lazer_oracle_seed: b"pyth_lazer".to_vec(),
        amm_cache_seed: b"amm_cache".to_vec(),
        margin_buffer_ratio: 200,
        liquidation_duration: 150,
    };
    let user = |b: u8| UserKeys {
        keypair: Keypair { secret: [b; 32] },
        token_account: key(b + 100),
        token_account_1: key(b + 150),
    };
    let keys = ScenarioKeys {
        crank: Keypair { secret: [1; 32] },
        admin: Keypair { secret: [2; 32] },
        usdc_mint: key(20),
        sol_mint: key(21),
        users: vec![user(3), user(4)],
        fresh: vec![Keypair { secret: [5; 32] }, Keypair { secret: [6; 32] }],
    };
    Fixture::setup(&protocol, keys, 77).unwrap().fixture
}

fn w(k: Pubkey) -> AccountMeta {
    AccountMeta { pubkey: k, is_signer: false, is_writable: true }
}

fn args(t: &Transaction) -> Vec<u8> {
    assert_eq!(t.instructions.len(), 1);
    t.instructions[0].data[8..].to_vec()
}

fn accounts(t: &Transaction) -> Vec<AccountMeta> {
    t.instructions[0].accounts.clone()
}

fn moved(market_index: u16, amount: u64) -> Vec<u8> {
    let mut bytes = market_index.to_le_bytes().to_vec();
    bytes.extend_from_slice(&amount.to_le_bytes());
    bytes.push(0);
    bytes
}

fn holding(positions: Vec<SpotPosition>) -> User {
    User {
        spot_positions: positions,
        perp_positions: Vec::new(),
        orders: Vec::new(),
        next_order_id: 1,
        being_liquidated: false,
        bankrupt: false,
        liquidation_margin_freed: 0,
    }
}

fn balance(side: BalanceType, market_index: u16, tokens: u128) -> SpotPosition {
    SpotPosition { market_index, balance_type: side, scaled_balance: 1, tokens }
}

#[test]
fn setup_and_deposit_withdraw() {
    let mut f = fixture();
    assert_eq!(f.users.len(), 2);
    let wallet = 1_000_000 * USDC;
    let t = f.action_deposit(0, 500_000 * USDC, 0, 0, wallet).unwrap();
    assert_eq!(args(&t), moved(0, 500_000_000_000));
    assert!(accounts(&t).contains(&w(f.spot_vault_pda)));
    let t = f.action_withdraw(0, 100_000 * USDC, 0, 0);
    assert_eq!(args(&t), moved(0, 100_000_000_000));
    let order = f.action_place_perp_order(0, 10_000_000, 0, 1, 0, 1, 0);
    assert_eq!((order.price, order.base_asset_amount), (900_000, 10_000_000));
    let write = f.action_move_oracle_price(1, 50, 0, 0, 0, 1_000_000, 100);
    assert_eq!(write.address, f.perp_oracle_pda);
    assert_eq!((write.oracle.price, write.oracle.conf), (1_005_000, 0));
    assert_eq!(write.oracle.posted_slot, 100);
    assert_eq!(args(&f.action_settle_pnl(0)), [0, 0]);
    assert_eq!(f.action_place_orders(2, 0, 10_000_000).len(), 2);
    assert_eq!(f.action_native_mm_oracle(1_000_000).instructions[0].data[5..13], USDC.to_le_bytes());
}

#[test]
fn spot_market_1_deposit_borrow_and_liquidation_reachable() {
    let mut f = fixture();
    let t = f.action_deposit(0, 500_000 * USDC, 0, 0, 1_000_000 * USDC).unwrap();
    assert_eq!(args(&t), moved(0, 500_000_000_000));
    let t = f.action_deposit(1, 100 * SOL, 1, 0, 1_000 * SOL).unwrap();
    assert_eq!(args(&t), moved(1, 100_000_000_000));
    let metas = accounts(&t);
    assert!(metas.contains(&w(f.spot_vault_1_pda)) && metas.contains(&w(f.spot_market_1_pda)));
    assert_eq!(args(&f.action_update_user_margin_trading_enabled(0, 1)), [0, 0, 1]);
    let t = f.action_withdraw(0, 10 * SOL, 1, 0);
    assert_eq!(args(&t), moved(1, 10_000_000_000));
    assert!(accounts(&t).contains(&w(f.spot_vault_1_pda)));
    let before = 1_000_000i64;
    let mut price = before;
    for _ in 0..40 {
        let write = f.action_move_spot_1_oracle_price(1, 99, 0, 0, 0, price, 100);
        assert_eq!(write.address, f.spot_1_oracle_pda);
        assert!(write.oracle.price > price && write.oracle.price <= price + price / 100);
        price = write.oracle.price;
    }
    assert!(price > before);
    assert!(price > before * 13 / 10);
    let t = f.action_liquidate_spot(0, 0, 0, 1, 1_000_000_000, 0, 1_000_000);
    assert_eq!(args(&t)[..4], [0, 0, 1, 0]);
    assert_eq!(args(&t)[4..20], 1_000_000_000u128.to_le_bytes());
    let t = f.action_liquidate_borrow_for_perp_pnl(0, 0, 1, 1_000_000_000, 0, 1_000_000);
    assert_eq!(args(&t)[..4], [0, 0, 1, 0]);
    let t = f.action_liquidate_spot_with_swap(0, 0, 0, 1, 1_000_000);
    assert_eq!(t.instructions.len(), 3);
    let t = f.action_swap(0, 0, 1, 1_000_000, 1_000_000, 0, 1_000_000, 0).unwrap();
    assert_eq!(t.instructions.len(), 3);
    assert!(f.action_transfer_pools(0, 1, 0, 0, 0, 1_000_000, 0, 1_000_000).is_some());
}

#[test]
fn signed_msg_taker_order_reachable() {
    let mut f = fixture();
    let t = f.action_deposit(0, 500_000 * USDC, 0, 0, 1_000_000 * USDC).unwrap();
    assert_eq!(args(&t), moved(0, 500_000_000_000));
    let t = f.action_init_signed_msg_user_orders(0, 8).unwrap();
    assert_eq!(args(&t), [8, 0]);
    let first = f.action_place_signed_msg_taker_order(0, 10_000_000, 0, 0, 0, 0, 0, 1_000);
    assert_eq!((first.uuid, first.slot, first.sub_account_id), (1, 1_000, 0));
    assert_eq!((first.params.price, first.params.base_asset_amount), (1_100_000, 10_000_000));
    assert_eq!((first.take_profit, first.stop_loss, first.max_margin_ratio), (None, None, None));
    f.record_signed_order(0, &first, true);
    assert_eq!(f.signed_uuids.len(), 1, "uuid should have been recorded");

    assert_eq!(f.action_update_amm_cache().signers, vec![f.crank.pubkey()]);
    let t = f.action_post_pyth_lazer_update(0, 1, 50, 1, 1_000, 1, 0, 1_000_000, 1, 3);
    assert!(accounts_of_update(&t).contains(&w(f.perp_oracle_pda)));
    let t = f.action_post_pyth_lazer_update(1, 0, 20, 0, 0, 0, 0, 1_000_000, 1, 3);
    assert!(accounts_of_update(&t).contains(&w(f.spot_1_oracle_pda)));
    assert_eq!((f.feed_of(0), f.feed_of(1)), ((0, f.perp_oracle_pda), (1, f.spot_1_oracle_pda)));

    let second = f.action_place_signed_msg_taker_order(1, 10_000_000, 1, 1, 1, 500, 0, 1_000);
    assert_eq!((second.uuid, second.params.price), (2, 900_000));
    assert_eq!(second.take_profit.unwrap().trigger_price, 1_200_000);
    assert_eq!(second.stop_loss.unwrap().trigger_price, 800_000);
    assert_eq!(second.max_margin_ratio, Some(500));
    f.record_signed_order(1, &second, true);

    // The second user crosses the first one's order.
    let (order, taker) = f.action_place_and_make_signed_msg(1, 0, 10_000_000, 0, 0).unwrap();
    assert_eq!((taker.taker_idx, taker.uuid), (0, 1));
    assert_eq!((order.direction, order.price), (PositionDirection::Short, 900_000));
    assert!(f.send_place_and_make_signed_msg(1, taker, vec![7]).is_some());
}

fn accounts_of_update(t: &Transaction) -> Vec<AccountMeta> {
    assert_eq!(t.instructions.len(), 2);
    t.instructions[1].accounts.clone()
}

#[test]
fn spot_liquidation_actually_executes() {
    let mut f = fixture();
    let deposited = |user: usize, amount: u64, market: u16, wallet: u64| {
        args(&f.action_deposit(user, amount, market, 0, wallet).unwrap())
    };
    assert_eq!(deposited(0, 500 * USDC, 0, 1_000_000 * USDC), moved(0, 500_000_000));
    assert_eq!(deposited(1, 900 * SOL, 1, 1_000 * SOL), moved(1, 900_000_000_000));
    assert_eq!(deposited(1, 10_000 * USDC, 0, 1_000_000 * USDC), moved(0, 10_000_000_000));

    let victim = holding(vec![balance(BalanceType::Deposit, 0, 500_000_000)]);
    assert_eq!(borrow_to_margin_limit(&victim, 1_000_000, 100), Some(416_666_666_000));
    let (_, borrow) = f.action_borrow_to_margin_limit(0, 100, &victim, 1_000_000).unwrap();
    assert_eq!(args(&borrow), moved(1, 416_666_666_000));
    let victim = holding(vec![
        balance(BalanceType::Deposit, 0, 500_000_000),
        balance(BalanceType::Borrow, 1, 416_666_666_000),
    ]);
    let insolvent = |price| {
        is_unconditionally_insolvent(&victim, price, 1_000_000, 10_000_000_000)
    };
    assert!(!insolvent(1_000_000));

    // The initial limit leaves a fifth: eighteen steps stay inside it, forty do not.
    let mut price = 1_000_000i64;
    for step in 0..40 {
        if step == 18 {
            assert!(!insolvent(price));
        }
        let write = f.action_move_spot_1_oracle_price(1, 99, 0, 0, 0, price, 100);
        price = write.oracle.price;
    }
    assert!(insolvent(price));
    let t = f.action_liquidate_spot(0, 0, 0, 1, 1_000_000_000_000, 0, 0);
    let mut expected = vec![0u8, 0, 1, 0];
    expected.extend_from_slice(&1_000_000_000_000u128.to_le_bytes());
    expected.push(0);
    assert_eq!(args(&t), expected);
    assert_eq!(t.signers, vec![f.users[1].keypair.pubkey()]);
    assert!(accounts(&t).contains(&w(f.users[0].user_pda)));
}

#[test]
fn if_stake_and_revenue_paths_reachable() {
    let f = fixture();
    assert!(f.action_initialize_if_stake(0, 0).is_some());
    let t = f.action_add_if_stake(0, 1_000 * USDC).unwrap();
    assert_eq!(args(&t)[2..10], 1_000_000_000u64.to_le_bytes());
    let t = f.action_request_remove_if_stake(0, 100 * USDC).unwrap();
    assert_eq!(args(&t)[2..10], 100_000_000u64.to_le_bytes());
    assert_eq!(args(&f.action_cancel_request_remove_if_stake(0).unwrap()), [0, 0]);
    let t = f.action_deposit_into_revenue_pool(0, 1_000 * USDC);
    assert_eq!(args(&t), 1_000_000_000u64.to_le_bytes());
    assert!(args(&f.action_update_spot_market_cumulative_interest()).is_empty());
    let t = f.action_initialize_sub_account(0, 1).unwrap();
    assert_eq!(args(&t)[..2], [1, 0]);
    let t = f.action_transfer_deposit(0, 1, 100 * USDC, 0).unwrap();
    assert_eq!(args(&t)[2..10], 100_000_000u64.to_le_bytes());
    assert!(f.action_initialize_user_stats(0).is_some());
    assert!(f.action_initialize_fresh_user(0, 0).is_some());
    assert!(f.action_initialize_referrer_name(0, 0).is_some());
}

#[test]
fn cold_start_actions() {
    let f = fixture();
    assert!(f.action_init_revenue_share(0).is_some());
    assert!(f.action_init_signed_msg_ws_delegates(0, 1).is_some());
    assert!(f.action_change_signed_msg_ws_delegate(0, 1).is_some());
    assert!(f.action_delete_signed_msg_user_orders(0).is_some());
    let t = f.action_transfer_isolated_deposit(0, 0, 1, 500_000);
    assert_eq!(args(&t)[4..12], (-500_000i64).to_le_bytes());
}

#[test]
fn abandoned_accounts_are_old_enough_to_go() {
    let mut f = fixture();
    let warp = f.action_warp_long(4, 1, Clock { slot: 0, unix_timestamp: 0 }, None, None);
    assert!(warp.clock.slot >= 18_144_000);
    let t = f.action_force_delete_user(0, 1, 0).unwrap();
    let metas = accounts(&t);
    assert_eq!(metas[3], w(f.fresh[0].pubkey()));
    assert_eq!(t.signers, vec![f.crank.pubkey()]);
    assert!(args(&t).is_empty());
}

#[test]
fn balances_are_valued_by_their_own_market() {
    let f = fixture();
    let of: Vec<Pubkey> = (0..5).map(|index| f.spot_market_of(index)).collect();
    assert_eq!(
        of,
        vec![
            f.spot_market_pda,
            f.spot_market_1_pda,
            f.pool1_market_a_pda,
            f.pool1_market_b_pda,
            f.spot_market_pda,
        ]
    );
    assert_eq!(f.owned_oracle(OracleOwner::Perp), (f.perp_oracle_pda, f.perp_market_pda));
    assert_eq!(f.owned_oracle(OracleOwner::Spot1), (f.spot_1_oracle_pda, f.spot_market_1_pda));
}
