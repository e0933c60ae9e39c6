use velocity_fuzz::accounts::EscrowOrders;
use velocity_fuzz::book::Book;
use velocity_fuzz::compound::{
    bid_ask_twap_preparation, delegate_transfer_preparation, delete_user_preparation,
    force_cancel_preparation, force_delete_preparation, idle_preparation,
    isolated_transfer_preparation, remove_if_stake_preparation, settle_revenue_preparation,
    spot_fees_preparation, vamm_transfer_preparation, Action,
};
use velocity_fuzz::keys::{AccountMeta, Keypair, Pubkey};
use velocity_fuzz::model::{BalanceType, PositionDirection, SpotPosition, User};
use velocity_fuzz::order_calls::OrderCall;
use velocity_fuzz::pause::{bid_ask_twap, revenue_deposit, settle_revenue, spot_interest};
use velocity_fuzz::revshare::{
    escrow_orders, regr_256_reused_order_id_stale_builder_fee,
    regr_273_revenue_share_subaccount_redirect, sibling_quote_balance, take_params_of, EscrowOrder,
    Keys256, Keys273, OrderLayout, Outcome256, Regr256, Regr273,
};
use velocity_fuzz::settlement::{regr_270_perp_pause, Regr270};
use velocity_fuzz::setup::SetupStep;
use velocity_fuzz::swift::{
    build_envelope, message_to_sign, regr_271_replay_resize_authority,
    regr_271_signed_msg_taker_pause, signed_msg_account_data, signed_msg_space,
    signed_msg_user_orders_bytes, Regr271Pause, Regr271Resize, INITIAL_ORDERS, UUID,
};

fn key(b: u8) -> Pubkey {
    Pubkey { bytes: [b; 32] }
}

fn pair(b: u8) -> Keypair {
    Keypair { secret: [b; 32] }
}

fn w(k: Pubkey) -> AccountMeta {
    AccountMeta { pubkey: k, is_signer: false, is_writable: true }
}

#[test]
fn paused_deposits_refuse_donations() {
    let s = revenue_deposit::Fx::setup(key(9), key(20), pair(1), key(30), 4).unwrap();
    let paused = s.steps.iter().any(|step| match step {
        SetupStep::InjectSpotMarket { market, .. } => market.paused_operations == 4,
        _ => false,
    });
    assert!(paused);
    let t = s.fixture.donate();
    assert_eq!(t.instructions[0].data[..8], [92, 40, 151, 42, 122, 254, 139, 246]);
    assert_eq!(t.signers, vec![s.fixture.authority.pubkey()]);
    assert!(!revenue_deposit::regr_272_revenue_pool_deposit(None));
    assert!(!revenue_deposit::regr_272_revenue_pool_deposit(Some(1)));
    assert!(revenue_deposit::regr_272_revenue_pool_deposit(Some(6146)));
}

#[test]
fn paused_withdrawals_refuse_sweeps() {
    let s = settle_revenue::Fx::setup(key(9), key(20), 2).unwrap();
    let t = s.fixture.settle();
    assert_eq!(t.instructions[0].data, vec![200, 120, 93, 136, 69, 38, 199, 159, 0, 0]);
    assert!(!settle_revenue::regr_272_settle_revenue_if(None));
    assert!(settle_revenue::regr_272_settle_revenue_if(Some(6149)));
}

#[test]
fn paused_interest_stands_still() {
    let s = spot_interest::Fx::setup(key(9), key(20), pair(1), key(30)).unwrap();
    let t = s.fixture.deposit();
    assert_eq!(t.instructions[0].data[..8], [242, 35, 198, 137, 82, 225, 242, 182]);
    assert_eq!(t.instructions[0].data[10..18], 1_000_000_000u64.to_le_bytes());
    assert!(spot_interest::regr_276_spot_interest(true, 10_000_000_000));
    assert!(!spot_interest::regr_276_spot_interest(true, 10_000_000_001));
    assert!(!spot_interest::regr_276_spot_interest(false, 10_000_000_000));
}

#[test]
fn paused_funding_leaves_the_averages() {
    let s = bid_ask_twap::Fx::setup(key(9), pair(1), 1).unwrap();
    let t = s.fixture.crank();
    assert_eq!(t.instructions[0].data, vec![247, 23, 255, 65, 212, 90, 221, 194]);
    assert!(bid_ask_twap::regr_276_bid_ask_twap(true, None));
    assert!(!bid_ask_twap::regr_276_bid_ask_twap(false, Some(6000)));
    assert!(!bid_ask_twap::regr_276_bid_ask_twap(false, None));
}

#[test]
fn paused_settlement_is_refused() {
    let s = Regr270::setup(key(9), key(20), pair(1)).unwrap();
    let paused = s.steps.iter().any(|step| match step {
        SetupStep::InjectPerpMarket { market, .. } => market.paused_operations == 8,
        _ => false,
    });
    assert!(paused);
    let t = s.fixture.settle();
    assert_eq!(t.instructions[0].data, vec![43, 61, 234, 45, 15, 95, 152, 153, 0, 0]);
    assert!(regr_270_perp_pause(Some(6158)));
    assert!(!regr_270_perp_pause(Some(6157)) && !regr_270_perp_pause(None));
}

fn keys_273() -> Keys273 {
    Keys273 {
        usdc_mint: key(20),
        trader_kp: pair(1),
        trader_pda: key(31),
        builder_authority: key(32),
        sibling_builder_pda: key(33),
        builder_rev_share_pda: key(34),
        escrow_pda: key(35),
    }
}

#[test]
fn rewards_wait_in_an_escrow() {
    let s = Regr273::setup(key(9), keys_273()).unwrap();
    let escrow = s.steps.iter().find_map(|step| match step {
        SetupStep::InjectEscrow { at, escrow } => Some((*at, *escrow)),
        _ => None,
    });
    let (at, escrow) = escrow.unwrap();
    assert_eq!(at, key(35));
    assert_eq!(escrow.builder, key(32));
    match escrow.orders {
        EscrowOrders::Completed { fees_accrued, .. } => assert_eq!(fees_accrued, 5_000),
        _ => panic!("an order should wait"),
    }
    let t = s.fixture.settle();
    assert!(t.instructions[0].accounts.contains(&w(key(33))));
    assert!(t.instructions[0].accounts.contains(&w(key(35))));
}

#[test]
fn a_sibling_gets_no_reward() {
    let balance = |side, market_index, scaled_balance| SpotPosition {
        market_index,
        balance_type: side,
        scaled_balance,
        tokens: 0,
    };
    let user = Some(User {
        spot_positions: vec![
            balance(BalanceType::Deposit, 1, 5),
            balance(BalanceType::Deposit, 0, 9),
        ],
        perp_positions: Vec::new(),
        orders: Vec::new(),
        next_order_id: 1,
        being_liquidated: false,
        bankrupt: false,
        liquidation_margin_freed: 0,
    });
    assert_eq!(sibling_quote_balance(&user), 9);
    assert_eq!(sibling_quote_balance(&None), 0);
    assert!(regr_273_revenue_share_subaccount_redirect(true, None, 9, 9));
    assert!(!regr_273_revenue_share_subaccount_redirect(true, None, 9, 10));
    assert!(!regr_273_revenue_share_subaccount_redirect(true, Some(1), 9, 9));
    assert!(!regr_273_revenue_share_subaccount_redirect(false, None, 9, 9));
}

fn layout() -> OrderLayout {
    OrderLayout { size: 16, order_id: 8, bit_flags: 12, fees_accrued: 0 }
}

fn escrow(orders: &[(u32, u8, u64)], promised: u32) -> Vec<u8> {
    let mut data = vec![7u8; 96];
    data.extend_from_slice(&[0; 4]);
    data.extend_from_slice(&promised.to_le_bytes());
    for (id, flags, fees) in orders {
        data.extend_from_slice(&fees.to_le_bytes());
        data.extend_from_slice(&id.to_le_bytes());
        data.extend_from_slice(&[*flags, 0, 0, 0]);
    }
    data
}

#[test]
fn escrows_are_read_order_by_order() {
    let data = escrow(&[(4, 1, 70), (5, 2, 80)], 2);
    assert_eq!(
        escrow_orders(&data, &layout()),
        vec![
            EscrowOrder { order_id: 4, is_open: true, is_completed: false, fees_accrued: 70 },
            EscrowOrder { order_id: 5, is_open: false, is_completed: true, fees_accrued: 80 },
        ]
    );
    assert_eq!(escrow_orders(&escrow(&[(4, 1, 70)], 9), &layout()).len(), 1);
    assert!(escrow_orders(&vec![0; 103], &layout()).is_empty());
    assert!(escrow_orders(&escrow(&[], 0), &layout()).is_empty());
}

fn keys_256() -> Keys256 {
    Keys256 {
        usdc_mint: key(20),
        admin: key(21),
        trader_kp: pair(1),
        trader_token: key(31),
        builder_authority: key(32),
        escrow_pda: key(33),
        quoter_slab: key(34),
    }
}

#[test]
fn a_skipped_take_names_its_builder() {
    let skipped = take_params_of(true);
    assert_eq!((skipped.max_ts, skipped.builder_idx), (Some(1), Some(0)));
    assert_eq!(skipped.builder_fee_tenth_bps, Some(1000));
    let filled = take_params_of(false);
    assert_eq!((filled.max_ts, filled.builder_idx), (None, None));
    assert_eq!(filled.direction, PositionDirection::Long);
    let s = Regr256::setup(key(9), keys_256(), 5).unwrap();
    let book = Book {
        market_index: 0,
        program: key(50),
        quoter_slab: key(34),
        market: key(52),
        orders: Vec::new(),
    };
    let ix = s.fixture.take_ix(&book, filled, vec![w(key(60))]);
    assert_eq!(
        ix.remaining,
        vec![
            w(s.fixture.spot_market_pda),
            w(s.fixture.perp_market_pda),
            w(key(33)),
            w(key(60)),
        ]
    );
    match ix.call {
        OrderCall::PlaceAndTake { accounts, success_condition, .. } => {
            assert_eq!(accounts.user, s.fixture.trader_pda);
            assert_eq!(success_condition, None);
        }
        _ => panic!("the wrong call"),
    }
}

#[test]
fn an_unused_number_carries_nothing_over() {
    let good = || Outcome256 {
        skip_sent: true,
        skip_error_code: None,
        orders_after_skip: Vec::new(),
        base_after_fill: Some(1),
        next_order_id: Some(2),
        orders_after_fill: Vec::new(),
    };
    let open = EscrowOrder { order_id: 1, is_open: true, is_completed: false, fees_accrued: 0 };
    let charged = EscrowOrder { order_id: 1, is_open: false, is_completed: true, fees_accrued: 3 };
    let judge = regr_256_reused_order_id_stale_builder_fee;
    assert!(judge(&good()));
    assert!(!judge(&Outcome256 { skip_sent: false, ..good() }));
    assert!(!judge(&Outcome256 { skip_error_code: Some(6000), ..good() }));
    assert!(!judge(&Outcome256 { base_after_fill: Some(0), ..good() }));
    assert!(!judge(&Outcome256 { base_after_fill: None, ..good() }));
    assert!(!judge(&Outcome256 { next_order_id: Some(3), ..good() }));
    assert!(!judge(&Outcome256 { orders_after_skip: vec![open], ..good() }));
    assert!(!judge(&Outcome256 { orders_after_fill: vec![charged], ..good() }));
}

#[test]
fn rings_are_laid_out_for_the_exchange() {
    let ring = signed_msg_user_orders_bytes(key(3), 2);
    assert_eq!(ring.len(), 8 + 32 + 4 + 4 + 2 * 40);
    assert_eq!(ring[8..40], [3; 32]);
    assert_eq!(ring[44..48], [2, 0, 0, 0]);
    assert!(ring[48..].iter().all(|b| *b == 0));
    assert_eq!(signed_msg_space(8), 76 + 320);
    let data = signed_msg_account_data(key(3), 8);
    assert_eq!(data.len(), signed_msg_space(8));
    assert_eq!(data[..44], signed_msg_user_orders_bytes(key(3), 8)[..44]);
}

#[test]
fn delegate_shrink_reproduces() {
    let s = Regr271Resize::setup(key(9), key(3), pair(2)).unwrap();
    let ring = s.steps.iter().find_map(|step| match *step {
        SetupStep::InjectSignedOrders { at, authority, slots } => Some((at, authority, slots)),
        _ => None,
    });
    let (at, authority, slots) = ring.unwrap();
    assert_eq!(at, s.fixture.signed_msg_pda);
    let before = signed_msg_account_data(authority, slots);
    assert_eq!(before.len(), signed_msg_space(INITIAL_ORDERS as usize));
    assert_eq!(s.fixture.resize_shrink_as_delegate().instructions[0].accounts[0], w(at));
}

#[test]
fn a_delegate_may_not_shrink_the_ring() {
    let s = Regr271Resize::setup(key(9), key(3), pair(2)).unwrap();
    let t = s.fixture.resize_shrink_as_delegate();
    assert_eq!(t.signers, vec![pair(2).pubkey()]);
    assert_eq!(t.instructions[0].data, vec![137, 10, 87, 150, 18, 115, 79, 168, 1, 0]);
    assert!(regr_271_replay_resize_authority(Some(6313)));
    assert!(!regr_271_replay_resize_authority(None));
}

#[test]
fn place_while_paused_reproduces() {
    let s = Regr271Pause::setup(key(9), key(20), pair(4), key(60)).unwrap();
    let paused = s.steps.iter().any(|step| match *step {
        SetupStep::InjectState { state, .. } => state.exchange_status == 0xFF,
        _ => false,
    });
    assert!(paused);
    let message = message_to_sign(0, 0);
    assert_eq!(message.params.base_asset_amount, 1_000_000_000);
    assert_eq!((message.params.price, message.params.auction_duration), (0, Some(10)));
    assert_eq!(message.params.auction_start_price, Some(1_000_000));
    assert_eq!(message.params.auction_end_price, Some(1_010_000));
    let t = s.fixture.place_while_paused(&vec![1, 2, 3]);
    assert_eq!((t.instructions.len(), t.instructions[0].accounts.len()), (1, 13));
    assert_eq!(t.signers, vec![pair(4).pubkey()]);
}

#[test]
fn a_paused_exchange_takes_no_signed_orders() {
    assert_eq!(UUID.to_le_bytes(), *b"regr0271");
    let m = message_to_sign(0, 7);
    assert_eq!((m.uuid, m.slot, m.sub_account_id), (UUID, 7, 0));
    let (envelope, len) = build_envelope(&pair(4), &vec![1, 2]);
    assert_eq!(len as usize, envelope.len() - 98);
    let s = Regr271Pause::setup(key(9), key(20), pair(4), key(60)).unwrap();
    let t = s.fixture.place_while_paused(&vec![1, 2]);
    let n = t.instructions.len();
    assert_eq!(t.instructions[n - 1].data[12..12 + envelope.len()], envelope[..]);
    assert!(regr_271_signed_msg_taker_pause(Some(6024)));
    assert!(!regr_271_signed_msg_taker_pause(None));
}

#[test]
fn preparations_are_optional_or_fixed() {
    assert!(bid_ask_twap_preparation(0, 0).is_empty());
    assert_eq!(bid_ask_twap_preparation(1, 1).len(), 3);
    assert!(idle_preparation(0, 1).is_empty());
    assert_eq!(
        idle_preparation(1, 1),
        vec![
            Action::InitializeUserStats { fresh_idx: 1 },
            Action::InitializeFreshUser { fresh_idx: 1, sub_account_id: 0 },
            Action::Warp { slots: 9_100, repost: 1 },
        ]
    );
    assert_eq!(force_cancel_preparation(0, 1).len(), 14);
    assert_eq!(delete_user_preparation(1, 0).len(), 2);
    assert_eq!(
        force_delete_preparation(1, 0)[2],
        Action::WarpLong { months: 4, repost: 1 }
    );
    assert_eq!(remove_if_stake_preparation(0, 1).len(), 5);
    assert_eq!(settle_revenue_preparation(1).len(), 4);
    assert_eq!(delegate_transfer_preparation(0, 1).len(), 4);
    assert_eq!(
        spot_fees_preparation(),
        vec![
            Action::BorrowToMarginLimit { user_idx: 0, pct: 90 },
            Action::Deposit {
                user_idx: 1,
                amount: 100_000_000_000,
                market_index: 1,
                reduce_only: 0,
            },
            Action::UpdateUserMarginTradingEnabled { user_idx: 1, enabled: 1 },
            Action::Withdraw { user_idx: 1, amount: 50_000_000, market_index: 0, reduce_only: 0 },
            Action::Warp { slots: 4_000, repost: 1 },
            Action::UpdateSpotMarketCumulativeInterest,
        ]
    );
    assert!(!isolated_transfer_preparation(0, 0).is_empty());
    assert!(!vamm_transfer_preparation(0).is_empty());
}
