use velocity_fuzz::book::{
    send_order_ixs, Book, BookOrder, ClobSide, OrderRef, Placement, ORDER_COMPUTE_UNITS,
};
use velocity_fuzz::fixture::{Fixture, Protocol};
use velocity_fuzz::keys::{
    compute_budget_program_id, instructions_sysvar_id, AccountMeta, Instruction, Keypair, Pubkey,
};
use velocity_fuzz::model::{OrderType, PositionDirection};
use velocity_fuzz::order_calls::OrderCall;
use velocity_fuzz::params::OrderParams;
use velocity_fuzz::setup::{ScenarioKeys, UserKeys};

fn key(b: u8) -> Pubkey {
    Pubkey { bytes: [b; 32] }
}

fn fixture() -> Fixture {
    let protocol = Protocol {
        program_id: key(9),
        lazer_storage_id: key(10),
        lazer_oracle_seed: b"pyth_lazer".to_vec(),
        amm_cache_seed: b"amm_cache".to_vec(),
        margin_buffer_ratio: 200,
        liquidation_duration: 150,
    };
    let user = |b: u8| UserKeys {
        keypair: Keypair { secret: [b; 32] },
        token_account: key(b + 100),
        token_account_1: key(b + 150),
    };
    let keys = ScenarioKeys {
        crank: Keypair { secret: [1; 32] },
        admin: Keypair { secret: [2; 32] },
        usdc_mint: key(20),
        sol_mint: key(21),
        users: vec![user(3), user(4)],
        fresh: vec![Keypair { secret: [5; 32] }, Keypair { secret: [6; 32] }],
    };
    Fixture::setup(&protocol, keys, 77).unwrap().fixture
}

fn book() -> Book {
    Book {
        market_index: 0,
        program: key(50),
        quoter_slab: key(51),
        market: key(52),
        orders: Vec::new(),
    }
}

fn answer(node: u32, id: u64) -> Vec<u8> {
    let mut data = node.to_le_bytes().to_vec();
    data.extend_from_slice(&id.to_le_bytes());
    data
}

fn w(k: Pubkey) -> AccountMeta {
    AccountMeta { pubkey: k, is_signer: false, is_writable: true }
}

fn order(owner_idx: usize) -> BookOrder {
    BookOrder {
        owner_idx,
        order_ref: OrderRef { node_index: 6, order_id: 77 },
        side: ClobSide::Bid,
    }
}

#[test]
fn the_books_answer_names_the_order() {
    let mut b = book();
    let p = Placement { owner_idx: 1, side: ClobSide::Ask };
    b.remember_book_order(p, key(50), &answer(7, 1 << 40));
    assert_eq!(
        b.orders,
        vec![BookOrder {
            owner_idx: 1,
            order_ref: OrderRef { node_index: 7, order_id: 1 << 40 },
            side: ClobSide::Ask,
        }]
    );
}

#[test]
fn other_answers_are_ignored() {
    let mut b = book();
    let p = Placement { owner_idx: 1, side: ClobSide::Ask };
    b.remember_book_order(p, key(49), &answer(7, 8));
    b.remember_book_order(p, key(50), &vec![1, 2, 3]);
    assert!(b.orders.is_empty());
    assert_eq!(b.pick_book_order(3), None);
}

#[test]
fn the_oldest_order_gives_way() {
    let mut b = book();
    let p = Placement { owner_idx: 0, side: ClobSide::Bid };
    for id in 0..40u64 {
        b.remember_book_order(p, key(50), &answer(0, id));
    }
    assert_eq!(b.orders.len(), 32);
    assert_eq!(b.orders[0].order_ref.order_id, 8);
    assert_eq!(b.orders[31].order_ref.order_id, 39);
    assert_eq!(b.pick_book_order(33).unwrap().order_ref.order_id, 9);
}

#[test]
fn a_take_carries_every_other_user() {
    let f = fixture();
    assert_eq!(f.maker_metas(0), vec![w(f.users[1].user_pda), w(f.users[1].stats_pda)]);
    let all = f.route_remaining_accounts(1, vec![w(key(60))]);
    assert_eq!(all.len(), 5 + 2 + 1);
    assert_eq!(all[5..7], [w(f.users[0].user_pda), w(f.users[0].stats_pda)]);
    assert_eq!(all[7], w(key(60)));
}

#[test]
fn orders_run_behind_a_raised_limit() {
    let ix = Instruction { program_id: key(1), accounts: Vec::new(), data: vec![9] };
    let t = send_order_ixs(vec![ix], key(2));
    assert_eq!(t.instructions.len(), 2);
    assert_eq!(t.instructions[0].program_id, compute_budget_program_id());
    assert_eq!(t.instructions[0].data[1..], ORDER_COMPUTE_UNITS.to_le_bytes());
    assert_eq!(t.instructions[1].data, vec![9]);
    assert_eq!(t.signers, vec![key(2)]);
}

#[test]
fn takes_and_makes_name_the_same_accounts() {
    let f = fixture();
    let b = book();
    let params = OrderParams::perp(OrderType::Limit, PositionDirection::Long, 5, 6);
    let take = f.place_and_take_ix(&b, 0, params, Some(1), vec![w(key(60))]);
    let make = f.place_and_make_ix(&b, 0, params, Some(9));
    match (take.call, make.call) {
        (
            OrderCall::PlaceAndTake { accounts: a, success_condition, .. },
            OrderCall::PlaceAndMake { accounts: m, activation_delay_slots, .. },
        ) => {
            assert_eq!(a, m);
            assert_eq!(a.user, f.users[0].user_pda);
            assert_eq!(a.authority, f.users[0].keypair.pubkey());
            assert_eq!(a.book.clob_market, key(52));
            assert_eq!(a.flow_authority, None);
            assert_eq!((success_condition, activation_delay_slots), (Some(1), Some(9)));
        }
        _ => panic!("the wrong calls"),
    }
    assert_eq!(take.remaining, f.route_remaining_accounts(0, vec![w(key(60))]));
    assert_eq!(make.remaining, f.market_ras(true));
}

#[test]
fn owners_cancel_and_change_their_orders() {
    let f = fixture();
    let b = book();
    let cancel = f.cancel_book_order_ix(&b, order(1));
    assert_eq!(cancel.remaining, f.market_ras(false));
    match cancel.call {
        OrderCall::CancelOrder { user, perp_market, order_ref, market_index, .. } => {
            assert_eq!(user, f.users[1].user_pda);
            assert_eq!(perp_market, f.perp_market_pda);
            assert_eq!(order_ref.order_id, 77);
            assert_eq!(market_index, 0);
        }
        _ => panic!("the wrong call"),
    }
    match f.cancel_book_side_ix(&b, 0, 2).call {
        OrderCall::CancelOrders { sides, user, .. } => {
            assert_eq!((sides, user), (2, f.users[0].user_pda));
        }
        _ => panic!("the wrong call"),
    }
    let change = f.modify_book_order_ix(&b, order(0), Some(3), None);
    assert_eq!(change.remaining, f.market_ras(true));
    match change.call {
        OrderCall::ModifyOrder { price, base_asset_amount, reject_if_crossed, max_ts, .. } => {
            assert_eq!((price, base_asset_amount), (Some(3), None));
            assert!(!reject_if_crossed && max_ts.is_none());
        }
        _ => panic!("the wrong call"),
    }
}

#[test]
fn fillers_act_on_another_users_orders() {
    let f = fixture();
    let b = book();
    match f.remove_expired_ix(&b, 0, order(1)).call {
        OrderCall::RemoveExpired { accounts, order_ref, .. } => {
            assert_eq!(accounts.filler, f.users[0].user_pda);
            assert_eq!(accounts.user, f.users[1].user_pda);
            assert_eq!(order_ref.node_index, 6);
        }
        _ => panic!("the wrong call"),
    }
    match f.evict_ix(&b, 1, 0, ClobSide::Ask).call {
        OrderCall::Evict { accounts, side, .. } => {
            assert_eq!(accounts.authority, f.users[1].keypair.pubkey());
            assert_eq!(side, ClobSide::Ask);
        }
        _ => panic!("the wrong call"),
    }
    match f.force_cancel_book_ix(&b, 1, 0).call {
        OrderCall::ForceCancel { order_refs, user, .. } => {
            assert!(order_refs.is_empty());
            assert_eq!(user, f.users[0].user_pda);
        }
        _ => panic!("the wrong call"),
    }
}

#[test]
fn fired_orders_take_or_rest() {
    let f = fixture();
    let b = book();
    let market = f.trigger_market_ix(&b, 0, 1, 5, vec![w(key(60))]);
    assert_eq!(market.remaining, f.route_remaining_accounts(1, vec![w(key(60))]));
    match market.call {
        OrderCall::TriggerMarket { ix_sysvar, order_id, signed_route, accounts, .. } => {
            assert_eq!(ix_sysvar, Some(instructions_sysvar_id()));
            assert_eq!(order_id, 5);
            assert!(signed_route.is_empty());
            assert_eq!(accounts.user_stats, f.users[1].stats_pda);
        }
        _ => panic!("the wrong call"),
    }
    assert_eq!(f.trigger_limit_ix(&b, 0, 1, 5).remaining, f.market_ras(true));
    let waiting = f.place_trigger_orders_ix(
        0,
        vec![OrderParams::perp(OrderType::TriggerMarket, PositionDirection::Short, 5, 6)],
    );
    assert_eq!(waiting.remaining, f.market_ras(false));
    let ix = waiting.encoded(key(9), vec![w(key(70))], vec![4, 5]);
    assert_eq!(ix.accounts.len(), 6);
    assert_eq!(ix.accounts[0], w(key(70)));
    assert_eq!(ix.data, vec![4, 5]);
}
