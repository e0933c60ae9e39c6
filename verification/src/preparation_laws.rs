//! Why what some actions do first is enough.

use vstd::prelude::*;
use crate::compound::{
    bid_ask_twap_preparation, delegate_transfer_preparation, delete_user_preparation,
    equity_floor_preparation, force_cancel_preparation, force_delete_preparation, idle_preparation,
    isolated_transfer_preparation, remove_if_stake_preparation, settle_revenue_preparation,
    spot_fees_preparation, swap_liquidation_preparation, transfer_pools_preparation,
    vamm_transfer_preparation, Action,
};
use crate::sum_laws::sum_to;

verus! {

/// The slots that an action lets pass.
pub open spec fn slots_of(a: Action) -> int {
    match a {
        Action::Warp { slots, .. } => slots as int,
        Action::WarpLong { months, .. } => months * 6_480_000,
        _ => 0,
    }
}

/// The seconds that actions let pass, at two fifths of a second for each slot.
pub open spec fn seconds_passed(actions: Seq<Action>) -> int {
    2 * sum_to(actions.len(), |i: int| slots_of(actions[i])) / 5
}

/// Every wait of the actions leaves the oracles fresh.
pub open spec fn oracles_stay_fresh(actions: Seq<Action>) -> bool {
    forall|i: int|
        0 <= i < actions.len() ==> match #[trigger] actions[i] {
            Action::Warp { repost, .. } => repost != 0,
            Action::WarpLong { repost, .. } => repost != 0,
            _ => true,
        }
}

/// Where nothing is to be prepared, nothing is done.
pub proof fn nothing_is_done_unasked(idx: usize, setup: u8, r: Vec<Action>)
    requires
        setup != 1,
    ensures
        call_ensures(bid_ask_twap_preparation, (idx, setup), r) ==> r@.len() == 0,
        call_ensures(idle_preparation, (setup, idx), r) ==> r@.len() == 0,
        call_ensures(force_cancel_preparation, (idx, setup), r) ==> r@.len() == 0,
        call_ensures(delete_user_preparation, (setup, idx), r) ==> r@.len() == 0,
        call_ensures(force_delete_preparation, (setup, idx), r) ==> r@.len() == 0,
        call_ensures(remove_if_stake_preparation, (idx, setup), r) ==> r@.len() == 0,
        call_ensures(settle_revenue_preparation, (setup,), r) ==> r@.len() == 0,
        call_ensures(swap_liquidation_preparation, (idx, setup), r) ==> r@.len() == 0,
{
}

/// A keeper that is to feed the averages opens a stake in the quote market, then adds
/// two thousand quote units to it, then has its stats learn of it; all in its own
/// name.
pub proof fn keepers_stake_before_they_feed(keeper_idx: usize, r: Vec<Action>)
    requires
        call_ensures(bid_ask_twap_preparation, (keeper_idx, 1), r),
    ensures
        r@.len() == 3,
        r@[0] matches Action::InitializeIfStake { user_idx, market_index } && user_idx == keeper_idx
            && market_index == 0,
        r@[1] matches Action::AddIfStake { user_idx, amount } && user_idx == keeper_idx && amount
            == 2_000 * 1_000_000,
        r@[2] matches Action::UpdateUserQuoteAssetIfStake { user_idx } && user_idx == keeper_idx,
{
}

/// A fresh account has to exist before it can be left alone: its stats first, then
/// its first sub-account. It is idle after more than an hour, and abandoned after
/// four months; one that is to be deleted need not wait.
pub proof fn fresh_accounts_are_opened_and_left_alone(
    fresh_idx: usize,
    idle: Vec<Action>,
    gone: Vec<Action>,
    closed: Vec<Action>,
)
    requires
        call_ensures(idle_preparation, (1, fresh_idx), idle),
        call_ensures(force_delete_preparation, (1, fresh_idx), gone),
        call_ensures(delete_user_preparation, (1, fresh_idx), closed),
    ensures
        closed@.len() == 2,
        closed@[0] matches Action::InitializeUserStats { fresh_idx: i } && i == fresh_idx,
        closed@[1] matches Action::InitializeFreshUser { fresh_idx: i, sub_account_id } && i
            == fresh_idx && sub_account_id == 0,
        idle@.len() == 3 && idle@.take(2) == closed@,
        gone@.len() == 3 && gone@.take(2) == closed@,
        slots_of(idle@[2]) == 9_100 && idle@[2] is Warp,
        gone@[2] matches Action::WarpLong { months, .. } && months == 4,
        oracles_stay_fresh(idle@) && oracles_stay_fresh(gone@),
        seconds_passed(idle@) > 3600,
        seconds_passed(gone@) == 4 * 30 * 24 * 3600,
{
    assert(idle@.take(2) =~= closed@);
    assert(gone@.take(2) =~= closed@);
    reveal_with_fuel(sum_to, 4);
}

/// An unstake is asked for out of a stake that is there, and the cooldown of an hour
/// is served before it ends.
pub proof fn cooldowns_are_served(user: usize, r: Vec<Action>)
    requires
        call_ensures(remove_if_stake_preparation, (user, 1), r),
    ensures
        r@.len() == 5,
        r@[0] matches Action::InitializeIfStake { user_idx, market_index } && user_idx == user
            && market_index == 0,
        r@[1] matches Action::AddIfStake { user_idx, amount } && user_idx == user && amount
            == 1_000_000_000,
        r@[2] matches Action::RequestRemoveIfStake { user_idx, amount } && user_idx == user
            && 10 * amount == 1_000_000_000,
        slots_of(r@[3]) == slots_of(r@[4]) && 0 < slots_of(r@[3]) < 5_000,
        seconds_passed(r@) >= 3600,
        seconds_passed(r@) - 2 * slots_of(r@[4]) / 5 < 3600,
        oracles_stay_fresh(r@),
{
    reveal_with_fuel(sum_to, 6);
}

/// Revenue is settled out of what was donated: the donor first deposits more than it
/// gives, and the settlement period of an hour passes.
pub proof fn revenue_is_there_and_due(r: Vec<Action>)
    requires
        call_ensures(settle_revenue_preparation, (1,), r),
    ensures
        r@.len() == 4,
        r@[0] matches Action::Deposit { user_idx, amount, market_index, reduce_only } && user_idx
            == 0 && market_index == 0 && reduce_only == 0 && amount == 5 * 1_000_000_000,
        r@[1] matches Action::DepositIntoRevenuePool { user_idx, amount } && user_idx == 0 && amount
            == 1_000_000_000,
        seconds_passed(r@) >= 3600,
        oracles_stay_fresh(r@),
{
    reveal_with_fuel(sum_to, 5);
}

/// What a number of steps of ninety-nine basis points multiplies a price by, over
/// what it divides it by.
pub open spec fn power(base: int, n: nat) -> int
    decreases n,
{
    if n == 0 {
        1
    } else {
        base * power(base, (n - 1) as nat)
    }
}

/// An action that raises the price of market 1 by so many basis points, certain and
/// fresh.
pub open spec fn raises_price(a: Action, by: u64) -> bool {
    a matches Action::MoveSpot1OraclePrice { up, bps, wide_conf, conf_ppm, slot_lag } && up == 1
        && bps == by && wide_conf == 0 && conf_ppm == 0 && slot_lag == 0
}

/// An account whose orders are to be cancelled rests one below the mark, borrows its
/// whole limit, and sees its debt grow past its margin: a dozen rises of ninety-nine
/// basis points outgrow the gap between a weight of 1.2, by which it borrowed, and
/// one of 1.1, by which it is judged.
pub proof fn cancelled_accounts_are_pushed_under(target: usize, r: Vec<Action>)
    requires
        call_ensures(force_cancel_preparation, (target, 1), r),
    ensures
        r@.len() == 14,
        r@[0] matches Action::PlacePerpOrder {
            user_idx,
            dir,
            base,
            order_kind,
            post_only_sel,
            cross,
            user_order_id,
            reduce_only,
        } && user_idx == target && dir == 0 && base == 10_000_000 && order_kind == 0
            && post_only_sel == 0 && cross == 0 && user_order_id == 7 && reduce_only == 0,
        r@[1] matches Action::BorrowToMarginLimit { user_idx, pct } && user_idx == target && pct
            == 100,
        forall|i: int| 2 <= i < 14 ==> raises_price(#[trigger] r@[i], 99),
        power(10_099, 12) * 11_000 > power(10_000, 12) * 12_000,
{
    powers_of_steps();
}

/// A victim of a swap borrows its whole limit against what it deposited, out of what
/// the other user lent, and sees its debt grow past its margin in fourteen rises.
pub proof fn swap_victims_are_pushed_under(victim: usize, r: Vec<Action>)
    requires
        call_ensures(swap_liquidation_preparation, (victim, 1), r),
        victim < 2,
    ensures
        r@.len() == 17,
        r@[0] matches Action::Deposit { user_idx, amount, market_index, reduce_only } && user_idx
            == victim && market_index == 0 && reduce_only == 0 && amount == 500 * 1_000_000,
        r@[1] matches Action::Deposit { user_idx, amount, market_index, reduce_only } && user_idx
            == 1 - victim && market_index == 1 && reduce_only == 0 && amount == 900 * 1_000_000_000,
        r@[2] matches Action::BorrowToMarginLimit { user_idx, pct } && user_idx == victim && pct
            == 100,
        forall|i: int| 3 <= i < 17 ==> raises_price(#[trigger] r@[i], 99),
        power(10_099, 14) * 11_000 > power(10_000, 14) * 12_000,
{
    powers_of_steps();
}

proof fn powers_of_steps()
    ensures
        power(10_099, 12) * 11_000 > power(10_000, 12) * 12_000,
        power(10_099, 14) * 11_000 > power(10_000, 14) * 12_000,
{
    reveal_with_fuel(power, 15);
}

/// A delegate may move between two accounts once both are delegated and the owner
/// allows it; the second account is opened first.
pub proof fn delegates_are_named_and_allowed(owner: usize, sub: u16, r: Vec<Action>)
    requires
        call_ensures(delegate_transfer_preparation, (owner, sub), r),
    ensures
        r@.len() == 4,
        r@[0] matches Action::InitializeSubAccount { user_idx, sub_account_id } && user_idx == owner
            && sub_account_id == sub,
        r@[1] matches Action::UpdateUserDelegate { user_idx, clear, sub_account_id } && user_idx
            == owner && clear == 0 && sub_account_id == 0,
        r@[2] matches Action::UpdateUserDelegate { user_idx, clear, sub_account_id } && user_idx
            == owner && clear == 0 && sub_account_id == sub,
        r@[3] matches Action::UpdateUserAllowDelegateTransfer { user_idx, allow } && user_idx
            == owner && allow == 1,
{
}

/// The smaller preparations concern the user and the choice they were given.
pub proof fn small_preparations(user: usize, choice: u8, market: u16, r: Vec<Action>)
    ensures
        call_ensures(equity_floor_preparation, (user, choice), r) ==> r@.len() == 1 && (
        r@[0] matches Action::SetEquityFloor { user_idx, floor_sel } && user_idx == user
            && floor_sel == choice),
        call_ensures(isolated_transfer_preparation, (user, market), r) ==> r@.len() == 1 && (
        r@[0] matches Action::DepositIntoIsolated { user_idx, spot_market_index, amount }
            && user_idx == user && spot_market_index == market && amount == 1_000_000),
        call_ensures(transfer_pools_preparation, (user, market), r) ==> r@.len() == 2 && (
        r@[0] matches Action::InitializeSubAccount { user_idx, sub_account_id } && user_idx == user
            && sub_account_id == market) && (r@[1] matches Action::SubAccountPool {
            user_idx,
            sub_account_id,
            pool_id,
        } && user_idx == user && sub_account_id == market && pool_id == 1),
        call_ensures(vamm_transfer_preparation, (user,), r) ==> r@.len() == 2 && (
        r@[0] matches Action::SetVammHedger { user_idx, grant } && user_idx == user && grant == 1)
            && (r@[1] matches Action::PlaceAndTakePerpOrder {
            user_idx,
            dir,
            base,
            with_success_condition,
            success_condition,
        } && user_idx == user && dir == 0 && base == 10_000_000 && with_success_condition == 0
            && success_condition == 0),
{
}

/// Interest has accrued with a cut for the protocol: both users owe, the second after
/// it may trade on margin and against a deposit in the other market; time passes with
/// fresh oracles; and the accrual comes last.
pub proof fn fees_accrue_on_borrows(r: Vec<Action>)
    requires
        call_ensures(spot_fees_preparation, (), r),
    ensures
        r@.len() == 6,
        r@[0] matches Action::BorrowToMarginLimit { user_idx, pct } && user_idx == 0 && pct == 90,
        r@[1] matches Action::Deposit { user_idx, amount, market_index, reduce_only } && user_idx
            == 1 && market_index == 1 && reduce_only == 0 && amount == 100 * 1_000_000_000,
        r@[2] matches Action::UpdateUserMarginTradingEnabled { user_idx, enabled } && user_idx == 1
            && enabled == 1,
        r@[3] matches Action::Withdraw { user_idx, amount, market_index, reduce_only } && user_idx
            == 1 && market_index == 0 && reduce_only == 0 && amount == 50 * 1_000_000,
        r@[4] is Warp && slots_of(r@[4]) == 4_000,
        r@[5] is UpdateSpotMarketCumulativeInterest,
        oracles_stay_fresh(r@),
{
}

} // verus!
