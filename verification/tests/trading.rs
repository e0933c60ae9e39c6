use velocity_fuzz::fixture::{Fixture, Protocol};
use velocity_fuzz::keys::{token_program_id, AccountMeta, Keypair, Pubkey, Transaction};
use velocity_fuzz::model::{
    MarketType, Order, OrderStatus, OrderType, PositionDirection, PostOnlyParam, TriggerCondition,
    User,
};
use velocity_fuzz::setup::{ScenarioKeys, UserKeys};
use velocity_fuzz::trading::{
    funding_settlement_must_work, funding_update_must_work, pick_order_id, pick_order_id_filtered,
    pick_taker, user_is_live, FundingState, TakerOrder,
};

fn key(b: u8) -> Pubkey {
    Pubkey { bytes: [b; 32] }
}

fn fixture() -> Fixture {
    let protocol = Protocol {
        program_id: key(9),
        lazer_storage_id: key(10),
        lazer_oracle_seed: b"pyth_lazer".to_vec(),
        amm_cache_seed: b"amm_cache".to_vec(),
        margin_buffer_ratio: 200,
        liquidation_duration: 150,
    };
    let user = |b: u8| UserKeys {
        keypair: Keypair { secret: [b; 32] },
        token_account: key(b + 100),
        token_account_1: key(b + 150),
    };
    let keys = ScenarioKeys {
        crank: Keypair { secret: [1; 32] },
        admin: Keypair { secret: [2; 32] },
        usdc_mint: key(20),
        sol_mint: key(21),
        users: vec![user(3), user(4)],
        fresh: vec![Keypair { secret: [5; 32] }, Keypair { secret: [6; 32] }],
    };
    Fixture::setup(&protocol, keys, 77).unwrap().fixture
}

fn r(k: Pubkey) -> AccountMeta {
    AccountMeta { pubkey: k, is_signer: false, is_writable: false }
}

fn w(k: Pubkey) -> AccountMeta {
    AccountMeta { pubkey: k, is_signer: false, is_writable: true }
}

fn rs(k: Pubkey) -> AccountMeta {
    AccountMeta { pubkey: k, is_signer: true, is_writable: false }
}

fn one(t: &Transaction) -> (Vec<AccountMeta>, Vec<u8>) {
    assert_eq!(t.instructions.len(), 1);
    assert_eq!(t.instructions[0].program_id, key(9));
    (t.instructions[0].accounts.clone(), t.instructions[0].data.clone())
}

fn order(order_id: u32, order_type: OrderType, status: OrderStatus) -> Order {
    Order {
        status,
        market_type: MarketType::Perp,
        market_index: 0,
        order_id,
        order_type,
        reduce_only: false,
        base_asset_amount_filled: 0,
    }
}

fn user_with(orders: Vec<Order>) -> Option<User> {
    Some(User {
        spot_positions: Vec::new(),
        perp_positions: Vec::new(),
        orders,
        next_order_id: 100,
        being_liquidated: false,
        bankrupt: false,
        liquidation_margin_freed: 0,
    })
}

#[test]
fn deposits_are_clipped_to_the_wallet() {
    let f = fixture();
    let t = f.action_deposit(0, 1_000, 0, 1, 400).unwrap();
    let (metas, data) = one(&t);
    let u = f.users[0];
    let mut expected = vec![242u8, 35, 198, 137, 82, 225, 242, 182, 0, 0];
    expected.extend_from_slice(&400u64.to_le_bytes());
    expected.push(1);
    assert_eq!(data, expected);
    assert_eq!(
        metas[..7],
        [
            r(f.state_pda),
            w(u.user_pda),
            w(u.stats_pda),
            rs(u.keypair.pubkey()),
            w(f.spot_vault_pda),
            w(u.token_account),
            r(token_program_id()),
        ]
    );
    assert_eq!(t.signers, vec![u.keypair.pubkey()]);
    assert!(f.action_deposit(0, 1_000, 0, 0, 0).is_none());
}

#[test]
fn deposits_into_market_one_use_its_vault_and_wallet() {
    let f = fixture();
    let (metas, data) = one(&f.action_deposit(1, 5, 1, 0, 9).unwrap());
    assert_eq!(metas[4], w(f.spot_vault_1_pda));
    assert_eq!(metas[5], w(f.users[1].token_account_1));
    assert_eq!(data[8..10], [1, 0]);
    assert_eq!(data[10..18], 5u64.to_le_bytes());
    assert_eq!(data[18], 0);
}

#[test]
fn withdrawals_name_the_signer() {
    let f = fixture();
    let (metas, data) = one(&f.action_withdraw(0, 7, 1, 0));
    assert_eq!(data[..8], [183, 18, 70, 156, 148, 109, 161, 34]);
    assert!(metas.contains(&r(f.signer_pda)));
    assert!(metas.contains(&w(f.users[0].token_account_1)));
}

#[test]
fn market_accounts_follow_every_order() {
    let f = fixture();
    let writable = f.market_ras(true);
    let readonly = f.market_ras(false);
    assert_eq!(
        writable,
        vec![
            w(f.perp_oracle_pda),
            w(f.spot_1_oracle_pda),
            w(f.spot_market_pda),
            w(f.spot_market_1_pda),
            w(f.perp_market_pda),
        ]
    );
    assert_eq!(readonly[2..4], [r(f.spot_market_pda), r(f.spot_market_1_pda)]);
    assert_eq!(readonly[4], w(f.perp_market_pda));
}

#[test]
fn placed_orders_cross_or_rest() {
    let f = fixture();
    let p = f.action_place_perp_order(0, 1_500_000, 0, 1, 1, 7, 1);
    assert_eq!(p.direction, PositionDirection::Long);
    assert_eq!(p.order_type, OrderType::Limit);
    assert_eq!(p.post_only, PostOnlyParam::MustPostOnly);
    assert_eq!((p.user_order_id, p.base_asset_amount, p.price), (7, 1_500_000, 1_100_000));
    assert!(p.reduce_only);
    assert_eq!(p.market_type, MarketType::Perp);
    assert_eq!(p.trigger_price, None);
    let q = f.action_place_perp_order(0, 1, 1, 2, 0, 1, 0);
    assert_eq!((q.order_type, q.price), (OrderType::Market, 900_000));
    assert_eq!(q.post_only, PostOnlyParam::TryPostOnly);
    let q = f.action_place_perp_order(1, 1, 2, 0, 1, 1, 0);
    assert_eq!(q.direction, PositionDirection::Short);
    assert_eq!((q.order_type, q.price), (OrderType::TriggerLimit, 900_000));
    assert_eq!(q.trigger_price, Some(900_000));
    assert_eq!(q.post_only, PostOnlyParam::NotPostOnly);
    let q = f.action_place_perp_order(1, 1, 3, 0, 0, 1, 0);
    assert_eq!((q.order_type, q.price), (OrderType::TriggerMarket, 1_100_000));
    assert_eq!(q.trigger_price, Some(1_100_000));
}

#[test]
fn a_sent_order_carries_its_encoding() {
    let f = fixture();
    let (metas, data) = one(&f.send_perp_order(1, vec![1, 2, 3]));
    assert_eq!(data, vec![69, 161, 93, 202, 120, 126, 76, 185, 1, 2, 3]);
    assert_eq!(metas[0], r(f.state_pda));
    assert_eq!(metas[1], w(f.users[1].user_pda));
}

#[test]
fn several_orders_differ_in_price() {
    let f = fixture();
    let orders = f.action_place_orders(3, 0, 2_000_000);
    assert_eq!(orders.len(), 3);
    assert!(orders.iter().all(|o| o.direction == PositionDirection::Long));
}

#[test]
fn open_orders_are_picked_round_robin() {
    let user = user_with(vec![
        order(4, OrderType::Limit, OrderStatus::Open),
        order(5, OrderType::Limit, OrderStatus::Filled),
        order(6, OrderType::TriggerMarket, OrderStatus::Open),
    ]);
    assert_eq!(pick_order_id(&user, 0), Some(4));
    assert_eq!(pick_order_id(&user, 1), Some(6));
    assert_eq!(pick_order_id(&user, 2), Some(4));
    assert_eq!(pick_order_id_filtered(&user, 5, true), Some(6));
    assert_eq!(pick_order_id(&user_with(Vec::new()), 3), None);
    assert_eq!(pick_order_id(&None, 3), None);
}

#[test]
fn cancels_name_a_real_or_a_blind_order() {
    let f = fixture();
    let (_, data) = one(&f.action_cancel_order(0, Some(12), 1, 99));
    assert_eq!(data[8..], [1, 12, 0, 0, 0]);
    let (_, data) = one(&f.action_cancel_order(0, Some(12), 0, 99));
    assert_eq!(data[8..], [1, 99, 0, 0, 0]);
    let (_, data) = one(&f.action_cancel_order(0, None, 1, 99));
    assert_eq!(data[8..], [1, 99, 0, 0, 0]);
}

#[test]
fn cancel_filters_are_optional() {
    let f = fixture();
    let (_, data) = one(&f.action_cancel_orders(0, 1, 5, 0, 3, 1, 0));
    assert_eq!(data[8..], [1, 1, 0, 1, 0]);
    let (_, data) = one(&f.action_cancel_orders(0, 0, 0, 1, 3, 0, 0));
    assert_eq!(data[8..], [0, 1, 3, 0, 0]);
}

#[test]
fn cancelled_ids_count_up_and_saturate() {
    let f = fixture();
    let (_, data) = one(&f.action_cancel_orders_by_ids(0, 3, u32::MAX - 1));
    let mut expected = vec![3u8, 0, 0, 0];
    for id in [u32::MAX - 1, u32::MAX, u32::MAX] {
        expected.extend_from_slice(&id.to_le_bytes());
    }
    assert_eq!(data[8..], expected[..]);
}

#[test]
fn cancel_by_user_order_id_is_one_byte() {
    let f = fixture();
    let (_, data) = one(&f.action_cancel_order_by_user_id(1, 42));
    assert_eq!(data, vec![107, 211, 250, 133, 18, 37, 57, 100, 42]);
}

#[test]
fn amendments_list_what_changes() {
    let f = fixture();
    let (_, data) = one(&f.action_modify_order(0, 1, 8, 1, 9, 0, 0, 1, 77, 0, 0, 1, 4));
    let mut expected = vec![1u8, 8, 0, 0, 0, 1, 1, 0, 1];
    expected.extend_from_slice(&77u64.to_le_bytes());
    expected.extend_from_slice(&[0; 8]);
    expected.extend_from_slice(&[1, 1]);
    assert_eq!(data[8..], expected[..]);
    let (_, data) = one(&f.action_modify_order_by_user_id(0, 3, 1, 77, 0, 5));
    assert_eq!(data[8], 3);
    assert_eq!(data[9..12], [0, 0, 1]);
}

#[test]
fn makers_look_for_another_users_order() {
    assert_eq!(
        pick_taker(0, &vec![Some(4), Some(5)]),
        Some(TakerOrder { taker_idx: 1, order_id: 5 })
    );
    assert_eq!(pick_taker(0, &vec![Some(4), None]), None);
    assert_eq!(
        pick_taker(1, &vec![Some(4), Some(5)]),
        Some(TakerOrder { taker_idx: 0, order_id: 4 })
    );
}

#[test]
fn fills_may_leave_the_order_to_the_exchange() {
    let f = fixture();
    let (_, named) = one(&f.action_fill_perp_order(0, 1, 1, Some(6), 1));
    assert_eq!(named[8..], [1, 6, 0, 0, 0, 0]);
    let (_, unnamed) = one(&f.action_fill_perp_order(0, 1, 0, Some(6), 0));
    assert_eq!(unnamed[8..], [0, 0]);
    let with_maker = one(&f.action_fill_perp_order(0, 1, 0, None, 1)).0.len();
    let without = one(&f.action_fill_perp_order(0, 1, 0, None, 0)).0.len();
    assert_eq!(with_maker, without + 2);
}

#[test]
fn takes_may_ask_for_a_success_condition() {
    let f = fixture();
    let (_, data) = one(&f.send_place_and_take(0, vec![7], 1, 1));
    assert_eq!(data, vec![213, 51, 1, 187, 108, 220, 230, 224, 7, 1, 1]);
    let (_, data) = one(&f.send_place_and_take(0, vec![7], 0, 1));
    assert_eq!(data[8..], [7, 0]);
}

#[test]
fn makes_name_the_taker() {
    let f = fixture();
    let (params, taker) = f.action_place_and_make_perp_order(0, 0, 9, &vec![None, Some(3)]).unwrap();
    assert_eq!(taker, TakerOrder { taker_idx: 1, order_id: 3 });
    assert_eq!(params.direction, PositionDirection::Long);
    let (metas, data) = one(&f.send_place_and_make(0, taker, vec![7]));
    assert_eq!(data, vec![149, 117, 11, 237, 47, 95, 89, 237, 7, 3, 0, 0, 0]);
    assert!(metas.contains(&w(f.users[1].user_pda)));
    assert!(f.action_place_and_make_perp_order(0, 0, 9, &vec![None, None]).is_none());
}

#[test]
fn trigger_orders_are_met_when_placed() {
    let f = fixture();
    let p = f.trigger_order_to_place(Some(1_000_000)).unwrap();
    assert_eq!(p.order_type, OrderType::TriggerMarket);
    let price = p.trigger_price.unwrap();
    match p.trigger_condition {
        TriggerCondition::Above => assert!(1_000_000 > price),
        TriggerCondition::Below => assert!(1_000_000 < price),
    }
    assert_eq!(price, 990_000);
    for low in 2..300i64 {
        let trigger = f.trigger_order_to_place(Some(low)).unwrap().trigger_price.unwrap() as i64;
        assert!(1 <= trigger && trigger < low);
    }
    assert_eq!(f.trigger_order_to_place(Some(99)).unwrap().trigger_price, Some(98));
    assert_eq!(f.trigger_order_to_place(Some(100)).unwrap().trigger_price, Some(99));
    assert_eq!(f.trigger_order_to_place(Some(2)).unwrap().trigger_price, Some(1));
    assert!(f.trigger_order_to_place(Some(1)).is_none());
    assert!(f.trigger_order_to_place(None).is_none());
    assert!(f.action_trigger_order(0, 1, None).is_none());
    let (_, data) = one(&f.action_trigger_order(0, 1, Some(11)).unwrap());
    assert_eq!(data, vec![63, 112, 51, 233, 232, 47, 240, 199, 11, 0, 0, 0]);
}

#[test]
fn funding_cranks_are_owed_after_two_periods() {
    let state = |active, last| {
        Some(FundingState { active, funding_period: 3600, last_funding_rate_ts: last })
    };
    assert!(funding_update_must_work(0, state(true, 0), 7200, true));
    assert!(!funding_update_must_work(0, state(true, 0), 7199, true));
    assert!(!funding_update_must_work(1, state(true, 0), 7200, true));
    assert!(!funding_update_must_work(0, state(false, 0), 7200, true));
    assert!(!funding_update_must_work(0, state(true, 7200), 7300, true));
    assert!(!funding_update_must_work(0, state(true, 0), 7200, false));
    assert!(!funding_update_must_work(0, None, 7200, true));
    assert!(funding_settlement_must_work(true, true, true, state(true, 0)));
    assert!(!funding_settlement_must_work(false, true, true, state(true, 0)));
    assert!(!funding_settlement_must_work(true, true, false, state(true, 0)));
    assert!(!funding_settlement_must_work(true, true, true, None));
}

#[test]
fn a_live_user_is_owned_and_large_enough() {
    assert!(user_is_live(Some(true), 108, 100));
    assert!(!user_is_live(Some(true), 107, 100));
    assert!(!user_is_live(Some(false), 108, 100));
    assert!(!user_is_live(None, 108, 100));
}

#[test]
fn settling_several_markets_lists_them() {
    let f = fixture();
    let (_, data) = one(&f.action_settle_multiple_pnls(0, 2, 5));
    assert_eq!(data[8..], [2, 0, 0, 0, 0, 0, 1, 0, 1]);
    let (_, data) = one(&f.action_settle_pnl(0));
    assert_eq!(data, vec![43, 61, 234, 45, 15, 95, 152, 153, 0, 0]);
    let (_, data) = one(&f.action_update_amms(0, 2));
    assert_eq!(data[8..], [2, 0, 0, 0, 0, 0, 1, 0]);
    let (_, data) = one(&f.action_update_funding_rate(1));
    assert_eq!(data, vec![201, 178, 116, 212, 166, 144, 72, 238, 1, 0]);
    let (_, data) = one(&f.action_settle_funding_payment(0));
    assert_eq!(data, vec![222, 90, 202, 94, 28, 45, 115, 183]);
    let (_, data) = one(&f.action_update_perp_bid_ask_twap(0));
    assert_eq!(data, vec![247, 23, 255, 65, 212, 90, 221, 194]);
    let (_, data) = one(&f.action_revert_fill(0));
    assert_eq!(data, vec![236, 238, 176, 69, 239, 10, 181, 193]);
}
