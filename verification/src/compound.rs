//! What some actions do first, so that the exchange has a reason to accept
//! them.

use vstd::prelude::*;
use crate::constants::NUM_USERS;
use crate::trading::{next_user, next_user_index};

verus! {

/// One action of a scenario, with its choices.
#[derive(Clone, Copy, PartialEq, Eq, Structural, Debug)]
pub enum Action {
    Deposit { user_idx: usize, amount: u64, market_index: u16, reduce_only: u8 },
    Withdraw { user_idx: usize, amount: u64, market_index: u16, reduce_only: u8 },
    PlacePerpOrder {
        user_idx: usize,
        dir: u8,
        base: u64,
        order_kind: u8,
        post_only_sel: u8,
        cross: u8,
        user_order_id: u8,
        reduce_only: u8,
    },
    PlaceAndTakePerpOrder {
        user_idx: usize,
        dir: u8,
        base: u64,
        with_success_condition: u8,
        success_condition: u8,
    },
    BorrowToMarginLimit { user_idx: usize, pct: u64 },
    MoveSpot1OraclePrice { up: u8, bps: u64, wide_conf: u8, conf_ppm: u64, slot_lag: u64 },
    InitializeIfStake { user_idx: usize, market_index: u16 },
    AddIfStake { user_idx: usize, amount: u64 },
    RequestRemoveIfStake { user_idx: usize, amount: u64 },
    UpdateUserQuoteAssetIfStake { user_idx: usize },
    DepositIntoRevenuePool { user_idx: usize, amount: u64 },
    UpdateSpotMarketCumulativeInterest,
    InitializeUserStats { fresh_idx: usize },
    InitializeFreshUser { fresh_idx: usize, sub_account_id: u16 },
    InitializeSubAccount { user_idx: usize, sub_account_id: u16 },
    UpdateUserDelegate { user_idx: usize, clear: u8, sub_account_id: u16 },
    UpdateUserAllowDelegateTransfer { user_idx: usize, allow: u8 },
    UpdateUserMarginTradingEnabled { user_idx: usize, enabled: u8 },
    SubAccountPool { user_idx: usize, sub_account_id: u16, pool_id: u8 },
    SetEquityFloor { user_idx: usize, floor_sel: u8 },
    DepositIntoIsolated { user_idx: usize, spot_market_index: u16, amount: u64 },
    SetVammHedger { user_idx: usize, grant: u8 },
    Warp { slots: u64, repost: u8 },
    WarpLong { months: u64, repost: u8 },
}

/// The same action a number of times.
pub open spec fn repeated(action: Action, times: nat) -> Seq<Action> {
    Seq::new(times, |i: int| action)
}

fn repeat(actions: &mut Vec<Action>, action: Action, times: usize)
    ensures
        final(actions)@ == old(actions)@ + repeated(action, times as nat),
{
    let mut i: usize = 0;
    while i < times
        invariant
            i <= times,
            actions@ == old(actions)@ + repeated(action, i as nat),
        decreases times - i,
    {
        actions.push(action);
        i = i + 1;
        assert(actions@ =~= old(actions)@ + repeated(action, i as nat));
    }
    assert(actions@ =~= old(actions)@ + repeated(action, times as nat));
}

/// The keeper stakes enough, and its stats account learns of the stake.
pub open spec fn bid_ask_twap_preparation_steps(keeper_idx: usize, setup: u8) -> Seq<Action> {
    if setup == 1 {
        seq![
            Action::InitializeIfStake { user_idx: keeper_idx, market_index: 0 },
            Action::AddIfStake { user_idx: keeper_idx, amount: 2_000_000_000 },
            Action::UpdateUserQuoteAssetIfStake { user_idx: keeper_idx },
        ]
    } else {
        seq![]
    }
}

pub fn bid_ask_twap_preparation(keeper_idx: usize, setup: u8) -> (r: Vec<Action>)
    ensures
        r@ == bid_ask_twap_preparation_steps(keeper_idx, setup),
{
    if setup != 1 {
        return Vec::new();
    }
    let actions: Vec<Action> = vec![
        Action::InitializeIfStake { user_idx: keeper_idx, market_index: 0 },
        Action::AddIfStake { user_idx: keeper_idx, amount: 2_000_000_000 },
        Action::UpdateUserQuoteAssetIfStake { user_idx: keeper_idx },
    ];
    assert(actions@ =~= bid_ask_twap_preparation_steps(keeper_idx, setup));
    actions
}

/// A fresh authority opens an account, which then lies idle.
pub open spec fn idle_preparation_steps(target_fresh: u8, fresh_idx: usize) -> Seq<Action> {
    if target_fresh == 1 {
        seq![
            Action::InitializeUserStats { fresh_idx },
            Action::InitializeFreshUser { fresh_idx, sub_account_id: 0 },
            Action::Warp { slots: 9_100, repost: 1 },
        ]
    } else {
        seq![]
    }
}

pub fn idle_preparation(target_fresh: u8, fresh_idx: usize) -> (r: Vec<Action>)
    ensures
        r@ == idle_preparation_steps(target_fresh, fresh_idx),
{
    if target_fresh != 1 {
        return Vec::new();
    }
    let actions: Vec<Action> = vec![
        Action::InitializeUserStats { fresh_idx },
        Action::InitializeFreshUser { fresh_idx, sub_account_id: 0 },
        Action::Warp { slots: 9_100, repost: 1 },
    ];
    assert(actions@ =~= idle_preparation_steps(target_fresh, fresh_idx));
    actions
}

/// The target rests an order, borrows to its limit, and sees the price of its
/// debt rise.
pub open spec fn force_cancel_preparation_steps(target_idx: usize, setup: u8) -> Seq<Action> {
    if setup == 1 {
        seq![
            Action::PlacePerpOrder {
                user_idx: target_idx,
                dir: 0,
                base: 10_000_000,
                order_kind: 0,
                post_only_sel: 0,
                cross: 0,
                user_order_id: 7,
                reduce_only: 0,
            },
            Action::BorrowToMarginLimit { user_idx: target_idx, pct: 100 },
        ] + repeated(
            Action::MoveSpot1OraclePrice { up: 1, bps: 99, wide_conf: 0, conf_ppm: 0, slot_lag: 0 },
            12,
        )
    } else {
        seq![]
    }
}

pub fn force_cancel_preparation(target_idx: usize, setup: u8) -> (r: Vec<Action>)
    ensures
        r@ == force_cancel_preparation_steps(target_idx, setup),
{
    if setup != 1 {
        return Vec::new();
    }
    let mut actions: Vec<Action> = vec![
        Action::PlacePerpOrder {
            user_idx: target_idx,
            dir: 0,
            base: 10_000_000,
            order_kind: 0,
            post_only_sel: 0,
            cross: 0,
            user_order_id: 7,
            reduce_only: 0,
        },
        Action::BorrowToMarginLimit { user_idx: target_idx, pct: 100 },
    ];
    assert(actions@ =~= seq![
        Action::PlacePerpOrder {
            user_idx: target_idx,
            dir: 0,
            base: 10_000_000,
            order_kind: 0,
            post_only_sel: 0,
            cross: 0,
            user_order_id: 7,
            reduce_only: 0,
        },
        Action::BorrowToMarginLimit { user_idx: target_idx, pct: 100 },
    ]);
    repeat(
        &mut actions,
        Action::MoveSpot1OraclePrice { up: 1, bps: 99, wide_conf: 0, conf_ppm: 0, slot_lag: 0 },
        12,
    );
    actions
}

/// A fresh authority opens an account that holds nothing.
pub open spec fn delete_user_preparation_steps(target_fresh: u8, fresh_idx: usize) -> Seq<Action> {
    if target_fresh == 1 {
        seq![
            Action::InitializeUserStats { fresh_idx },
            Action::InitializeFreshUser { fresh_idx, sub_account_id: 0 },
        ]
    } else {
        seq![]
    }
}

pub fn delete_user_preparation(target_fresh: u8, fresh_idx: usize) -> (r: Vec<Action>)
    ensures
        r@ == delete_user_preparation_steps(target_fresh, fresh_idx),
{
    if target_fresh != 1 {
        return Vec::new();
    }
    let actions: Vec<Action> = vec![
        Action::InitializeUserStats { fresh_idx },
        Action::InitializeFreshUser { fresh_idx, sub_account_id: 0 },
    ];
    assert(actions@ =~= delete_user_preparation_steps(target_fresh, fresh_idx));
    actions
}

/// A fresh authority opens an account and abandons it for months.
pub open spec fn force_delete_preparation_steps(target_fresh: u8, fresh_idx: usize) -> Seq<Action> {
    if target_fresh == 1 {
        seq![
            Action::InitializeUserStats { fresh_idx },
            Action::InitializeFreshUser { fresh_idx, sub_account_id: 0 },
            Action::WarpLong { months: 4, repost: 1 },
        ]
    } else {
        seq![]
    }
}

pub fn force_delete_preparation(target_fresh: u8, fresh_idx: usize) -> (r: Vec<Action>)
    ensures
        r@ == force_delete_preparation_steps(target_fresh, fresh_idx),
{
    if target_fresh != 1 {
        return Vec::new();
    }
    let actions: Vec<Action> = vec![
        Action::InitializeUserStats { fresh_idx },
        Action::InitializeFreshUser { fresh_idx, sub_account_id: 0 },
        Action::WarpLong { months: 4, repost: 1 },
    ];
    assert(actions@ =~= force_delete_preparation_steps(target_fresh, fresh_idx));
    actions
}

/// A user stakes, asks for some of it back and serves the cooldown, which
/// takes two warps.
pub open spec fn remove_if_stake_preparation_steps(user_idx: usize, setup: u8) -> Seq<Action> {
    if setup == 1 {
        seq![
            Action::InitializeIfStake { user_idx, market_index: 0 },
            Action::AddIfStake { user_idx, amount: 1_000_000_000 },
            Action::RequestRemoveIfStake { user_idx, amount: 100_000_000 },
            Action::Warp { slots: 4_999, repost: 1 },
            Action::Warp { slots: 4_999, repost: 1 },
        ]
    } else {
        seq![]
    }
}

pub fn remove_if_stake_preparation(user_idx: usize, setup: u8) -> (r: Vec<Action>)
    ensures
        r@ == remove_if_stake_preparation_steps(user_idx, setup),
{
    if setup != 1 {
        return Vec::new();
    }
    let actions: Vec<Action> = vec![
        Action::InitializeIfStake { user_idx, market_index: 0 },
        Action::AddIfStake { user_idx, amount: 1_000_000_000 },
        Action::RequestRemoveIfStake { user_idx, amount: 100_000_000 },
        Action::Warp { slots: 4_999, repost: 1 },
        Action::Warp { slots: 4_999, repost: 1 },
    ];
    assert(actions@ =~= remove_if_stake_preparation_steps(user_idx, setup));
    actions
}

/// The revenue pool is funded and the settlement period passes.
pub open spec fn settle_revenue_preparation_steps(setup: u8) -> Seq<Action> {
    if setup == 1 {
        seq![
            Action::Deposit { user_idx: 0, amount: 5_000_000_000, market_index: 0, reduce_only: 0 },
            Action::DepositIntoRevenuePool { user_idx: 0, amount: 1_000_000_000 },
            Action::Warp { slots: 4_999, repost: 1 },
            Action::Warp { slots: 4_999, repost: 1 },
        ]
    } else {
        seq![]
    }
}

pub fn settle_revenue_preparation(setup: u8) -> (r: Vec<Action>)
    ensures
        r@ == settle_revenue_preparation_steps(setup),
{
    if setup != 1 {
        return Vec::new();
    }
    let actions: Vec<Action> = vec![
        Action::Deposit { user_idx: 0, amount: 5_000_000_000, market_index: 0, reduce_only: 0 },
        Action::DepositIntoRevenuePool { user_idx: 0, amount: 1_000_000_000 },
        Action::Warp { slots: 4_999, repost: 1 },
        Action::Warp { slots: 4_999, repost: 1 },
    ];
    assert(actions@ =~= settle_revenue_preparation_steps(setup));
    actions
}

/// The owner opens the sub-account, delegates both accounts and allows
/// transfers.
pub open spec fn delegate_transfer_preparation_steps(owner_idx: usize, sub_account_id: u16) -> Seq<Action> {
    seq![
        Action::InitializeSubAccount { user_idx: owner_idx, sub_account_id },
        Action::UpdateUserDelegate { user_idx: owner_idx, clear: 0, sub_account_id: 0 },
        Action::UpdateUserDelegate { user_idx: owner_idx, clear: 0, sub_account_id },
        Action::UpdateUserAllowDelegateTransfer { user_idx: owner_idx, allow: 1 },
    ]
}

pub fn delegate_transfer_preparation(owner_idx: usize, sub_account_id: u16) -> (r: Vec<Action>)
    ensures
        r@ == delegate_transfer_preparation_steps(owner_idx, sub_account_id),
{
    let actions: Vec<Action> = vec![
        Action::InitializeSubAccount { user_idx: owner_idx, sub_account_id },
        Action::UpdateUserDelegate { user_idx: owner_idx, clear: 0, sub_account_id: 0 },
        Action::UpdateUserDelegate { user_idx: owner_idx, clear: 0, sub_account_id },
        Action::UpdateUserAllowDelegateTransfer { user_idx: owner_idx, allow: 1 },
    ];
    assert(actions@ =~= delegate_transfer_preparation_steps(owner_idx, sub_account_id));
    actions
}

/// The admin gives the user an equity floor.
pub open spec fn equity_floor_preparation_steps(user_idx: usize, floor_sel: u8) -> Seq<Action> {
    seq![
        Action::SetEquityFloor { user_idx, floor_sel },
    ]
}

pub fn equity_floor_preparation(user_idx: usize, floor_sel: u8) -> (r: Vec<Action>)
    ensures
        r@ == equity_floor_preparation_steps(user_idx, floor_sel),
{
    let actions: Vec<Action> = vec![
        Action::SetEquityFloor { user_idx, floor_sel },
    ];
    assert(actions@ =~= equity_floor_preparation_steps(user_idx, floor_sel));
    actions
}

/// The victim borrows to its limit from what the other user lent, and sees
/// the price of its debt rise.
pub open spec fn swap_liquidation_preparation_steps(victim_idx: usize, setup: u8) -> Seq<Action> {
    if setup == 1 {
        seq![
            Action::Deposit {
                user_idx: victim_idx,
                amount: 500_000_000,
                market_index: 0,
                reduce_only: 0,
            },
            Action::Deposit {
                user_idx: next_user(victim_idx as int) as usize,
                amount: 900_000_000_000,
                market_index: 1,
                reduce_only: 0,
            },
            Action::BorrowToMarginLimit { user_idx: victim_idx, pct: 100 },
        ] + repeated(
            Action::MoveSpot1OraclePrice { up: 1, bps: 99, wide_conf: 0, conf_ppm: 0, slot_lag: 0 },
            14,
        )
    } else {
        seq![]
    }
}

pub fn swap_liquidation_preparation(victim_idx: usize, setup: u8) -> (r: Vec<Action>)
    requires
        victim_idx < NUM_USERS,
    ensures
        r@ == swap_liquidation_preparation_steps(victim_idx, setup),
{
    if setup != 1 {
        return Vec::new();
    }
    let mut actions: Vec<Action> = vec![
        Action::Deposit {
            user_idx: victim_idx,
            amount: 500_000_000,
            market_index: 0,
            reduce_only: 0,
        },
        Action::Deposit {
            user_idx: next_user_index(victim_idx),
            amount: 900_000_000_000,
            market_index: 1,
            reduce_only: 0,
        },
        Action::BorrowToMarginLimit { user_idx: victim_idx, pct: 100 },
    ];
    assert(actions@ =~= seq![
        Action::Deposit {
            user_idx: victim_idx,
            amount: 500_000_000,
            market_index: 0,
            reduce_only: 0,
        },
        Action::Deposit {
            user_idx: next_user(victim_idx as int) as usize,
            amount: 900_000_000_000,
            market_index: 1,
            reduce_only: 0,
        },
        Action::BorrowToMarginLimit { user_idx: victim_idx, pct: 100 },
    ]);
    repeat(
        &mut actions,
        Action::MoveSpot1OraclePrice { up: 1, bps: 99, wide_conf: 0, conf_ppm: 0, slot_lag: 0 },
        14,
    );
    actions
}

/// The sub-account exists and is in the second pool.
pub open spec fn transfer_pools_preparation_steps(user_idx: usize, sub_account_id: u16) -> Seq<Action> {
    seq![
        Action::InitializeSubAccount { user_idx, sub_account_id },
        Action::SubAccountPool { user_idx, sub_account_id, pool_id: 1 },
    ]
}

pub fn transfer_pools_preparation(user_idx: usize, sub_account_id: u16) -> (r: Vec<Action>)
    ensures
        r@ == transfer_pools_preparation_steps(user_idx, sub_account_id),
{
    let actions: Vec<Action> = vec![
        Action::InitializeSubAccount { user_idx, sub_account_id },
        Action::SubAccountPool { user_idx, sub_account_id, pool_id: 1 },
    ];
    assert(actions@ =~= transfer_pools_preparation_steps(user_idx, sub_account_id));
    actions
}

/// The isolated position exists and holds collateral.
pub open spec fn isolated_transfer_preparation_steps(user_idx: usize, spot_market_index: u16) -> Seq<Action> {
    seq![
        Action::DepositIntoIsolated { user_idx, spot_market_index, amount: 1_000_000 },
    ]
}

pub fn isolated_transfer_preparation(user_idx: usize, spot_market_index: u16) -> (r: Vec<Action>)
    ensures
        r@ == isolated_transfer_preparation_steps(user_idx, spot_market_index),
{
    let actions: Vec<Action> = vec![
        Action::DepositIntoIsolated { user_idx, spot_market_index, amount: 1_000_000 },
    ];
    assert(actions@ =~= isolated_transfer_preparation_steps(user_idx, spot_market_index));
    actions
}

/// Both users borrow, time passes, and interest accrues with the protocol's
/// cut.
pub open spec fn spot_fees_preparation_steps() -> Seq<Action> {
    seq![
        Action::BorrowToMarginLimit { user_idx: 0, pct: 90 },
        Action::Deposit { user_idx: 1, amount: 100_000_000_000, market_index: 1, reduce_only: 0 },
        Action::UpdateUserMarginTradingEnabled { user_idx: 1, enabled: 1 },
        Action::Withdraw { user_idx: 1, amount: 50_000_000, market_index: 0, reduce_only: 0 },
        Action::Warp { slots: 4_000, repost: 1 },
        Action::UpdateSpotMarketCumulativeInterest,
    ]
}

pub fn spot_fees_preparation() -> (r: Vec<Action>)
    ensures
        r@ == spot_fees_preparation_steps(),
{
    let actions: Vec<Action> = vec![
        Action::BorrowToMarginLimit { user_idx: 0, pct: 90 },
        Action::Deposit { user_idx: 1, amount: 100_000_000_000, market_index: 1, reduce_only: 0 },
        Action::UpdateUserMarginTradingEnabled { user_idx: 1, enabled: 1 },
        Action::Withdraw { user_idx: 1, amount: 50_000_000, market_index: 0, reduce_only: 0 },
        Action::Warp { slots: 4_000, repost: 1 },
        Action::UpdateSpotMarketCumulativeInterest,
    ];
    assert(actions@ =~= spot_fees_preparation_steps());
    actions
}

/// The user is a hedger and has a position to hand back.
pub open spec fn vamm_transfer_preparation_steps(user_idx: usize) -> Seq<Action> {
    seq![
        Action::SetVammHedger { user_idx, grant: 1 },
        Action::PlaceAndTakePerpOrder {
            user_idx,
            dir: 0,
            base: 10_000_000,
            with_success_condition: 0,
            success_condition: 0,
        },
    ]
}

pub fn vamm_transfer_preparation(user_idx: usize) -> (r: Vec<Action>)
    ensures
        r@ == vamm_transfer_preparation_steps(user_idx),
{
    let actions: Vec<Action> = vec![
        Action::SetVammHedger { user_idx, grant: 1 },
        Action::PlaceAndTakePerpOrder {
            user_idx,
            dir: 0,
            base: 10_000_000,
            with_success_condition: 0,
            success_condition: 0,
        },
    ];
    assert(actions@ =~= vamm_transfer_preparation_steps(user_idx));
    actions
}

} // verus!
