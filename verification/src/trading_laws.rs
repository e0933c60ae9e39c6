//! What the orders of a scenario ask for, and which orders are picked.

use vstd::prelude::*;
use crate::fixture::{Fixture, UserAcct};
use crate::keys::Pubkey;
use crate::model::{Order, PositionDirection, User};
use crate::params::{direction_of, OrderParams};
use crate::sum_laws::sum_to;
use crate::trading::{
    funding_settlement_must_work, funding_update_must_work, makers_meet_another_user,
    next_user_index, open_ids, pick_order_id, pick_order_id_filtered, pick_taker, pickable,
    user_is_live, FundingState, SpotSide, TakerOrder,
};

verus! {

// ---------------------------------------------------------------------------
// Orders against a mark of one
// ---------------------------------------------------------------------------

/// An order asks for nothing beyond its side, size, price and kind: it is a perp
/// order of market 0, lives until it is cancelled, and has no oracle, auction or
/// builder.
pub open spec fn unadorned(o: OrderParams) -> bool {
    &&& o.market_type is Perp && o.market_index == 0
    &&& o.max_ts is None
    &&& o.oracle_price_offset is None
    &&& o.auction_duration is None && o.auction_start_price is None && o.auction_end_price is None
    &&& o.builder_idx is None && o.builder_fee_tenth_bps is None
}

/// Choice zero buys, and every other choice sells.
pub proof fn choice_zero_is_long(dir: u8, r: PositionDirection)
    requires
        call_ensures(direction_of, (dir,), r),
    ensures
        r is Long <==> dir == 0,
{
}

/// A take crosses the mark, which is a price of one, by a fifth: it buys above the
/// mark and sells below it. It takes what it was asked for on the side it was asked
/// for.
pub proof fn takes_cross_the_mark(f: &Fixture, dir: u8, base: u64, order: OrderParams)
    requires
        call_ensures(Fixture::action_place_and_take_perp_order, (f, dir, base), order),
    ensures
        order.direction is Long <==> dir == 0,
        order.direction is Long ==> order.price > 1_000_000 && order.price - 1_000_000 == 200_000,
        order.direction is Short ==> order.price < 1_000_000 && 1_000_000 - order.price == 200_000,
        order.base_asset_amount == base,
        order.order_type is Limit,
        order.post_only is NotPostOnly,
        !order.immediate_or_cancel && !order.reduce_only,
        order.trigger_price is None && order.user_order_id == 0,
        unadorned(order),
{
}

/// A placed order stands a tenth off the mark. One that is to cross buys above and
/// sells below; one that is to rest buys below and sells above. So of two orders on
/// one side the crossing one is the more eager, and a resting order of either side
/// does not meet a resting order of the other.
pub proof fn placed_orders_rest_or_cross(
    f: &Fixture,
    dir: u8,
    base: u64,
    order_kind: u8,
    post_only_sel: u8,
    cross: u8,
    user_order_id: u8,
    reduce_only: u8,
    order: OrderParams,
)
    requires
        call_ensures(
            Fixture::action_place_perp_order,
            (f, dir, base, order_kind, post_only_sel, cross, user_order_id, reduce_only),
            order,
        ),
    ensures
        order.direction is Long <==> dir == 0,
        order.direction is Long && cross == 1 ==> order.price - 1_000_000 == 100_000,
        order.direction is Short && cross == 1 ==> 1_000_000 - order.price == 100_000,
        order.direction is Long && cross != 1 ==> 1_000_000 - order.price == 100_000,
        order.direction is Short && cross != 1 ==> order.price - 1_000_000 == 100_000,
        order.base_asset_amount == base,
        order.user_order_id == user_order_id,
        order.reduce_only <==> reduce_only == 1,
        !order.immediate_or_cancel,
        order_kind == 0 <==> order.order_type is Limit,
        order_kind == 1 <==> order.order_type is Market,
        order_kind == 2 <==> order.order_type is TriggerLimit,
        order_kind > 2 <==> order.order_type is TriggerMarket,
        order.trigger_price is Some <==> order_kind >= 2,
        order.trigger_price is Some ==> order.trigger_price->0 == order.price,
        order.trigger_condition is Above,
        post_only_sel == 0 <==> order.post_only is NotPostOnly,
        post_only_sel == 1 <==> order.post_only is MustPostOnly,
        post_only_sel > 1 <==> order.post_only is TryPostOnly,
        unadorned(order),
{
}

/// A batch holds as many orders as were asked for, all alike: limit orders that must
/// rest, a tenth off the mark on the quiet side.
pub proof fn batches_rest(f: &Fixture, n: u32, dir: u8, base: u64, orders: Vec<OrderParams>, i: int)
    requires
        call_ensures(Fixture::action_place_orders, (f, n, dir, base), orders),
        0 <= i < n,
    ensures
        orders@.len() == n,
        ({
            let o = orders@[i];
            &&& o.direction is Long <==> dir == 0
            &&& o.direction is Long ==> o.price + 100_000 == 1_000_000
            &&& o.direction is Short ==> o.price == 1_000_000 + 100_000
            &&& o.base_asset_amount == base
            &&& o.order_type is Limit && o.post_only is MustPostOnly
            &&& o.user_order_id == 0 && !o.reduce_only && !o.immediate_or_cancel
            &&& o.trigger_price is None
            &&& unadorned(o)
        }),
{
}

/// A maker's order stands at the mark, must rest, and is gone if it does not trade
/// at once; a take on the other side reaches it. The taker it is made against is
/// another user with an order to its name, and there is one wherever another user
/// has one.
pub proof fn makers_meet_takers_at_the_mark(
    f: &Fixture,
    maker_idx: usize,
    dir: u8,
    base: u64,
    ids: &Vec<Option<u32>>,
    r: Option<(OrderParams, TakerOrder)>,
    take_dir: u8,
    take_base: u64,
    take: OrderParams,
)
    requires
        call_ensures(Fixture::action_place_and_make_perp_order, (f, maker_idx, dir, base, ids), r),
        call_ensures(Fixture::action_place_and_take_perp_order, (f, take_dir, take_base), take),
        maker_idx < 2,
        ids@.len() == 2,
    ensures
        r is Some <==> ids@[1 - maker_idx] is Some,
        r matches Some((order, taker)) ==> {
            &&& order.price == 1_000_000
            &&& order.direction is Long <==> dir == 0
            &&& order.base_asset_amount == base
            &&& order.order_type is Limit && order.post_only is MustPostOnly
            &&& order.immediate_or_cancel && !order.reduce_only
            &&& order.trigger_price is None && order.user_order_id == 0
            &&& unadorned(order)
            &&& order.direction is Long && take.direction is Short ==> take.price <= order.price
            &&& order.direction is Short && take.direction is Long ==> take.price >= order.price
            &&& taker.taker_idx == 1 - maker_idx
            &&& ids@[1 - maker_idx] == Some(taker.order_id)
        },
{
    makers_meet_another_user(maker_idx as int, ids@);
    assert(ids@[1 - maker_idx] is Some ==> (0 <= 1 - maker_idx < 2 && 1 - maker_idx != maker_idx));
}

/// A maker's counterparty is the other user, where that one has a pick.
pub proof fn takers_are_the_other_user(maker_idx: usize, ids: &Vec<Option<u32>>, r: Option<TakerOrder>)
    requires
        call_ensures(pick_taker, (maker_idx, ids), r),
        maker_idx < 2,
        ids@.len() == 2,
    ensures
        r is Some <==> ids@[1 - maker_idx] is Some,
        r matches Some(t) ==> t.taker_idx == 1 - maker_idx && ids@[1 - maker_idx] == Some(
            t.order_id,
        ),
{
    makers_meet_another_user(maker_idx as int, ids@);
    assert(ids@[1 - maker_idx] is Some ==> (0 <= 1 - maker_idx < 2 && 1 - maker_idx != maker_idx));
}

/// The next user of a pair is the other one, and its next is the first again.
pub proof fn next_is_the_other(i: usize, r: usize)
    requires
        call_ensures(next_user_index, (i,), r),
        i < 2,
    ensures
        r + i == 1,
{
}

/// A trigger order is placed one percent below the oracle's price, rounded in the
/// order's favour but never by less than a unit, so that it fires at once. There is
/// one wherever there is room for it below the price.
pub proof fn trigger_orders_fire_at_once(
    f: &Fixture,
    oracle_price: Option<i64>,
    r: Option<OrderParams>,
)
    requires
        call_ensures(Fixture::trigger_order_to_place, (f, oracle_price), r),
    ensures
        r is Some <==> oracle_price is Some && oracle_price->0 >= 2,
        r matches Some(o) ==> {
            let p = oracle_price->0;
            &&& o.trigger_condition is Above
            &&& o.trigger_price is Some && 0 < o.trigger_price->0 < p
            &&& p < 100 ==> p - o.trigger_price->0 == 1
            &&& p >= 100 ==> 100 * (p - o.trigger_price->0) <= p < 100 * (p - o.trigger_price->0)
                + 100
            &&& o.order_type is TriggerMarket && o.direction is Long
            &&& o.base_asset_amount == 10_000_000 && o.price == 0
            &&& !o.reduce_only && !o.immediate_or_cancel && o.post_only is NotPostOnly
            &&& o.user_order_id == 0
            &&& unadorned(o)
        },
{
}

// ---------------------------------------------------------------------------
// Picking orders
// ---------------------------------------------------------------------------

/// One where a slot can be picked, none where it cannot: an open order, and a
/// trigger order where only those are asked for.
pub open spec fn pick_weight(o: Order, trigger_only: bool) -> int {
    if o.status is Open && (trigger_only ==> o.order_type is TriggerLimit
        || o.order_type is TriggerMarket) {
        1
    } else {
        0
    }
}

proof fn ids_in_slot_order(orders: Seq<Order>, trigger_only: bool, k: int)
    requires
        0 <= k <= orders.len(),
    ensures
        open_ids(orders.take(k), trigger_only).len() == sum_to(
            k as nat,
            |i: int| pick_weight(orders[i], trigger_only),
        ),
        open_ids(orders.take(k), trigger_only).len() <= open_ids(orders, trigger_only).len(),
        open_ids(orders, trigger_only).take(
            open_ids(orders.take(k), trigger_only).len() as int,
        ) == open_ids(orders.take(k), trigger_only),
{
    prefix_of_ids(orders, trigger_only, k);
    count_of_ids(orders, trigger_only, k as nat);
}

proof fn count_of_ids(orders: Seq<Order>, trigger_only: bool, k: nat)
    requires
        k <= orders.len(),
    ensures
        open_ids(orders.take(k as int), trigger_only).len() == sum_to(
            k,
            |i: int| pick_weight(orders[i], trigger_only),
        ),
    decreases k,
{
    if k > 0 {
        count_of_ids(orders, trigger_only, (k - 1) as nat);
        assert(orders.take(k as int).drop_last() =~= orders.take(k - 1));
        assert(orders.take(k as int).last() == orders[k - 1]);
    }
}

proof fn prefix_of_ids(orders: Seq<Order>, trigger_only: bool, k: int)
    requires
        0 <= k <= orders.len(),
    ensures
        open_ids(orders.take(k), trigger_only).len() <= open_ids(orders, trigger_only).len(),
        open_ids(orders, trigger_only).take(
            open_ids(orders.take(k), trigger_only).len() as int,
        ) == open_ids(orders.take(k), trigger_only),
    decreases orders.len(),
{
    let all = open_ids(orders, trigger_only);
    if k == orders.len() {
        assert(orders.take(k) =~= orders);
        assert(all.take(all.len() as int) =~= all);
    } else {
        let rest = orders.drop_last();
        prefix_of_ids(rest, trigger_only, k);
        assert(rest.take(k) =~= orders.take(k));
        let n = open_ids(orders.take(k), trigger_only).len() as int;
        assert(all.take(n) =~= open_ids(rest, trigger_only).take(n));
    }
}

/// The orders that can be picked are numbered in the order of their slots: a pick
/// names the slot with as many pickable ones before it as the number says, after
/// going round.
pub proof fn picks_count_the_slots(
    user: &Option<User>,
    nth: usize,
    trigger_only: bool,
    r: Option<u32>,
    k: int,
)
    requires
        call_ensures(pick_order_id_filtered, (user, nth, trigger_only), r),
    ensures
        user is None ==> r is None,
        user is Some ==> ({
            let orders = user->0.orders@;
            let w = |i: int| pick_weight(orders[i], trigger_only);
            let all = sum_to(orders.len(), w);
            &&& all == 0 <==> r is None
            &&& 0 <= k < orders.len() && w(k) == 1 && all > 0 && sum_to(k as nat, w) == nth as int
                % all ==> r == Some(orders[k].order_id)
        }),
{
    if user is Some {
        let orders = user->0.orders@;
        let w = |i: int| pick_weight(orders[i], trigger_only);
        let ids = open_ids(orders, trigger_only);
        ids_in_slot_order(orders, trigger_only, orders.len() as int);
        assert(orders.take(orders.len() as int) =~= orders);
        assert(ids.len() == sum_to(orders.len(), w));
        if 0 <= k < orders.len() && w(k) == 1 {
            ids_in_slot_order(orders, trigger_only, k);
            ids_in_slot_order(orders, trigger_only, k + 1);
            assert(orders.take(k + 1).drop_last() =~= orders.take(k));
            assert(orders.take(k + 1).last() == orders[k]);
            let before = open_ids(orders.take(k), trigger_only);
            let upto = open_ids(orders.take(k + 1), trigger_only);
            assert(upto == before.push(orders[k].order_id));
            let n = before.len() as int;
            assert(upto[n] == orders[k].order_id);
            assert(ids.take(n + 1)[n] == ids[n]);
        }
    }
}

/// Picking without a filter picks among all open orders.
pub proof fn unfiltered_picks_are_picks(user: &Option<User>, nth: usize, r: Option<u32>, q: Option<u32>)
    requires
        call_ensures(pick_order_id, (user, nth), r),
        call_ensures(pick_order_id_filtered, (user, nth, false), q),
    ensures
        r == q,
{
}

// ---------------------------------------------------------------------------
// Funding
// ---------------------------------------------------------------------------

/// The funding crank is owed exactly on perp market 0, active, with a positive
/// period, once two periods have passed since the last update, and with a fresh
/// oracle. Amounts of time beyond a machine word count as the largest one.
pub proof fn funding_is_owed_after_two_periods(
    market_index: u16,
    perp: Option<FundingState>,
    now: i64,
    oracle_fresh: bool,
    r: bool,
)
    requires
        call_ensures(funding_update_must_work, (market_index, perp, now, oracle_fresh), r),
    ensures
        r ==> perp is Some && market_index == 0 && oracle_fresh && perp->0.active
            && perp->0.funding_period > 0,
        perp is Some && market_index == 0 && oracle_fresh && perp->0.active && perp->0.funding_period
            > 0 && perp->0.funding_period <= i64::MAX / 2 ==> (r <==> now
            - perp->0.last_funding_rate_ts >= perp->0.funding_period + perp->0.funding_period),
        perp is Some && market_index == 0 && oracle_fresh && perp->0.active && perp->0.funding_period
            > i64::MAX / 2 ==> (r <==> now - perp->0.last_funding_rate_ts >= i64::MAX),
{
}

/// Settling funding is owed to a live user of an active market with two fresh
/// oracles, and a missing one of the four excuses it.
pub proof fn settlements_are_owed(
    user_live: bool,
    perp_oracle_fresh: bool,
    spot_oracle_fresh: bool,
    perp: Option<FundingState>,
    r: bool,
)
    requires
        call_ensures(
            funding_settlement_must_work,
            (user_live, perp_oracle_fresh, spot_oracle_fresh, perp),
            r,
        ),
    ensures
        !user_live ==> !r,
        !perp_oracle_fresh ==> !r,
        !spot_oracle_fresh ==> !r,
        perp is None ==> !r,
        perp is Some && !perp->0.active ==> !r,
        user_live && perp_oracle_fresh && spot_oracle_fresh && perp is Some && perp->0.active ==> r,
{
}

/// A user that the exchange does not own, or that is shorter than its tag and its
/// fields, is not live; any other is.
pub proof fn live_users_are_whole(owned: Option<bool>, data_len: usize, user_size: usize, r: bool)
    requires
        call_ensures(user_is_live, (owned, data_len, user_size), r),
        user_size <= usize::MAX - 8,
    ensures
        r <==> owned is Some && owned->0 && data_len - user_size >= 8,
{
}

// ---------------------------------------------------------------------------
// Markets by index
// ---------------------------------------------------------------------------

/// An index finds the accounts of its own market: those of market 1 are used for
/// one and for no other, and a wallet goes with its market.
pub proof fn indices_find_their_market(
    f: &Fixture,
    market_index: u16,
    user: &UserAcct,
    side: SpotSide,
    market: Pubkey,
)
    requires
        call_ensures(Fixture::spot_of, (f, market_index, user), side),
        call_ensures(Fixture::spot_market_of, (f, market_index), market),
    ensures
        market_index == 1 ==> side.market == f.spot_market_1_pda && side.vault == f.spot_vault_1_pda
            && side.if_vault == f.if_vault_1_pda && side.wallet == user.token_account_1,
        market_index != 1 ==> side.market == f.spot_market_pda && side.vault == f.spot_vault_pda
            && side.if_vault == f.if_vault_pda && side.wallet == user.token_account,
        market_index < 2 ==> market == side.market,
        market_index == 2 ==> market == f.pool1_market_a_pda,
        market_index == 3 ==> market == f.pool1_market_b_pda,
        market_index > 3 ==> market == f.spot_market_pda,
{
}

} // verus!
