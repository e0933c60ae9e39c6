//! Whom the calls on the book concern, and what they carry.

use vstd::prelude::*;
use crate::book::{Book, BookOrder, ClobSide};
use crate::fixture::Fixture;
use crate::keys::{instructions_sysvar_id, AccountMeta, Instruction, Pubkey};
use crate::order_calls::{BookAccounts, OrderCall, OrderIx};
use crate::params::OrderParams;

verus! {

/// A call's book is the market's: its slab of quotes, its orders and its program.
pub open spec fn is_book(b: BookAccounts, book: Book) -> bool {
    b.quoter_slab == book.quoter_slab && b.clob_market == book.market && b.clob_program
        == book.program
}

/// An account that may be written and need not sign.
pub open spec fn open_to_writes(m: AccountMeta, key: Pubkey) -> bool {
    m.pubkey == key && m.is_writable && !m.is_signer
}

/// The markets come first among the accounts that follow a call's own: two oracles,
/// the two spot markets of the first pool, written or not, and the perp market.
pub open spec fn markets_first(rest: Seq<AccountMeta>, f: Fixture, spot_written: bool) -> bool {
    &&& rest.len() >= 5
    &&& open_to_writes(rest[0], f.perp_oracle_pda)
    &&& open_to_writes(rest[1], f.spot_1_oracle_pda)
    &&& rest[2].pubkey == f.spot_market_pda && rest[2].is_writable == spot_written
    &&& rest[3].pubkey == f.spot_market_1_pda && rest[3].is_writable == spot_written
    &&& !rest[2].is_signer && !rest[3].is_signer
    &&& open_to_writes(rest[4], f.perp_market_pda)
}

/// The accounts that trail every call on the markets.
pub proof fn markets_trail_in_order(f: &Fixture, spot_written: bool, r: Vec<AccountMeta>)
    requires
        call_ensures(Fixture::market_ras, (f, spot_written), r),
    ensures
        r@.len() == 5,
        markets_first(r@, *f, spot_written),
{
}

/// A take is its user's, carries its order and condition, and brings the markets, the
/// other user as its maker, and the route.
pub proof fn routed_takes_bring_their_makers(
    f: &Fixture,
    b: &Book,
    user_idx: usize,
    params: OrderParams,
    condition: Option<u8>,
    route: Vec<AccountMeta>,
    r: OrderIx,
)
    requires
        call_ensures(Fixture::place_and_take_ix, (f, b, user_idx, params, condition, route), r),
        f.wf(),
        user_idx < 2,
    ensures
        r.call matches OrderCall::PlaceAndTake { accounts: a, params: p, success_condition: c } && {
            let user = f.users@[user_idx as int];
            &&& a.state == f.state_pda && a.user == user.user_pda && a.user_stats == user.stats_pda
            &&& a.authority == user.authority() && a.flow_authority is None
            &&& is_book(a.book, *b)
            &&& p == params && c == condition
        },
        markets_first(r.remaining@, *f, true),
        r.remaining@.len() == 7 + route@.len(),
        open_to_writes(r.remaining@[5], f.users@[1 - user_idx].user_pda),
        open_to_writes(r.remaining@[6], f.users@[1 - user_idx].stats_pda),
        r.remaining@.skip(7) == route@,
{
    reveal_with_fuel(crate::book::makers, 3);
    assert(r.remaining@.skip(7) =~= route@);
}

/// A make is its user's and brings the markets alone.
pub proof fn makes_bring_the_markets(
    f: &Fixture,
    b: &Book,
    user_idx: usize,
    params: OrderParams,
    delay: Option<u32>,
    r: OrderIx,
)
    requires
        call_ensures(Fixture::place_and_make_ix, (f, b, user_idx, params, delay), r),
        f.wf(),
        user_idx < 2,
    ensures
        r.call matches OrderCall::PlaceAndMake {
            accounts: a,
            params: p,
            activation_delay_slots: d,
        } && {
            let user = f.users@[user_idx as int];
            &&& a.state == f.state_pda && a.user == user.user_pda && a.user_stats == user.stats_pda
            &&& a.authority == user.authority() && a.flow_authority is None
            &&& is_book(a.book, *b)
            &&& p == params && d == delay
        },
        markets_first(r.remaining@, *f, true) && r.remaining@.len() == 5,
{
}

/// Orders that wait are their user's; the spot markets are only read.
pub proof fn waiting_orders_are_their_users(
    f: &Fixture,
    user_idx: usize,
    params: Vec<OrderParams>,
    r: OrderIx,
)
    requires
        call_ensures(Fixture::place_trigger_orders_ix, (f, user_idx, params), r),
        f.wf(),
        user_idx < 2,
    ensures
        r.call matches OrderCall::PlaceTriggerOrders { state, user, authority, params: p } && state
            == f.state_pda && user == f.users@[user_idx as int].user_pda && authority
            == f.users@[user_idx as int].authority() && p == params,
        markets_first(r.remaining@, *f, false) && r.remaining@.len() == 5,
{
}

/// An order is cancelled or changed by its owner, by where it rests; a change leaves
/// everything alone but the price and the size, where they are given.
pub proof fn owners_cancel_and_change(
    f: &Fixture,
    b: &Book,
    order: BookOrder,
    price: Option<u64>,
    base_asset_amount: Option<u64>,
    cancel: OrderIx,
    change: OrderIx,
)
    requires
        call_ensures(Fixture::cancel_book_order_ix, (f, b, order), cancel),
        call_ensures(
            Fixture::modify_book_order_ix,
            (f, b, order, price, base_asset_amount),
            change,
        ),
        f.wf(),
        order.owner_idx < 2,
    ensures
        cancel.call matches OrderCall::CancelOrder {
            user,
            authority,
            perp_market,
            book,
            market_index,
            order_ref,
        } && {
            let owner = f.users@[order.owner_idx as int];
            &&& user == owner.user_pda && authority == owner.authority()
            &&& perp_market == f.perp_market_pda && is_book(book, *b)
            &&& market_index == b.market_index
            &&& order_ref.node_index == order.order_ref.node_index && order_ref.order_id
                == order.order_ref.order_id
        },
        change.call matches OrderCall::ModifyOrder {
            state,
            user,
            authority,
            book,
            flow_authority,
            market_index,
            order_ref,
            price: p,
            base_asset_amount: s,
            max_ts,
            activation_delay_slots,
            reject_if_crossed,
        } && {
            let owner = f.users@[order.owner_idx as int];
            &&& state == f.state_pda && user == owner.user_pda && authority == owner.authority()
            &&& is_book(book, *b) && market_index == b.market_index
            &&& order_ref == order.order_ref && p == price && s == base_asset_amount
            &&& flow_authority is None && max_ts is None && activation_delay_slots is None
            &&& !reject_if_crossed
        },
        markets_first(cancel.remaining@, *f, false) && cancel.remaining@.len() == 5,
        markets_first(change.remaining@, *f, true) && change.remaining@.len() == 5,
{
}

/// A user cancels its own orders on the sides it names.
pub proof fn users_cancel_their_sides(f: &Fixture, b: &Book, user_idx: usize, sides: u8, r: OrderIx)
    requires
        call_ensures(Fixture::cancel_book_side_ix, (f, b, user_idx, sides), r),
        f.wf(),
        user_idx < 2,
    ensures
        r.call matches OrderCall::CancelOrders { user, authority, book, market_index, sides: s }
            && user == f.users@[user_idx as int].user_pda && authority
            == f.users@[user_idx as int].authority() && is_book(book, *b) && market_index
            == b.market_index && s == sides,
        markets_first(r.remaining@, *f, false) && r.remaining@.len() == 5,
{
}

/// A filler removes, evicts and sweeps in its own name, for its own reward, from the
/// account of the one that it names; a sweep names no order.
pub proof fn fillers_remove_for_others(
    f: &Fixture,
    b: &Book,
    filler_idx: usize,
    order: BookOrder,
    side: ClobSide,
    expired: OrderIx,
    evicted: OrderIx,
    swept: OrderIx,
)
    requires
        call_ensures(Fixture::remove_expired_ix, (f, b, filler_idx, order), expired),
        call_ensures(Fixture::evict_ix, (f, b, filler_idx, order.owner_idx, side), evicted),
        call_ensures(Fixture::force_cancel_book_ix, (f, b, filler_idx, order.owner_idx), swept),
        f.wf(),
        filler_idx < 2,
        order.owner_idx < 2,
    ensures
        expired.call matches OrderCall::RemoveExpired { accounts: a, market_index, order_ref } && {
            let filler = f.users@[filler_idx as int];
            &&& a.state == f.state_pda && a.authority == filler.authority()
            &&& a.filler == filler.user_pda && a.filler_stats == filler.stats_pda
            &&& a.user == f.users@[order.owner_idx as int].user_pda
            &&& a.perp_market == f.perp_market_pda && is_book(a.book, *b)
            &&& a.crank_conditions is None
            &&& market_index == b.market_index && order_ref == order.order_ref
        },
        evicted.call matches OrderCall::Evict { accounts: a, market_index, side: s } && {
            let filler = f.users@[filler_idx as int];
            &&& a.state == f.state_pda && a.authority == filler.authority()
            &&& a.filler == filler.user_pda && a.filler_stats == filler.stats_pda
            &&& a.user == f.users@[order.owner_idx as int].user_pda
            &&& a.perp_market == f.perp_market_pda && is_book(a.book, *b)
            &&& a.crank_conditions is None
            &&& market_index == b.market_index && s == side
        },
        swept.call matches OrderCall::ForceCancel {
            state,
            authority,
            filler: own,
            filler_stats,
            user,
            book,
            crank_conditions,
            market_index,
            order_refs,
        } && {
            let filler = f.users@[filler_idx as int];
            &&& state == f.state_pda && authority == filler.authority()
            &&& own == filler.user_pda && filler_stats == filler.stats_pda
            &&& user == f.users@[order.owner_idx as int].user_pda
            &&& is_book(book, *b) && crank_conditions is None
            &&& market_index == b.market_index && order_refs@.len() == 0
        },
        markets_first(expired.remaining@, *f, true) && expired.remaining@.len() == 5,
        markets_first(evicted.remaining@, *f, true) && evicted.remaining@.len() == 5,
        markets_first(swept.remaining@, *f, true) && swept.remaining@.len() == 5,
{
}

/// A filler fires another's order by its number, in its own name. One that takes at
/// once brings the owner's makers, which are not the owner, and the route.
pub proof fn fillers_fire_for_others(
    f: &Fixture,
    b: &Book,
    filler_idx: usize,
    user_idx: usize,
    order_id: u32,
    route: Vec<AccountMeta>,
    take: OrderIx,
    rest: OrderIx,
)
    requires
        call_ensures(
            Fixture::trigger_market_ix,
            (f, b, filler_idx, user_idx, order_id, route),
            take,
        ),
        call_ensures(Fixture::trigger_limit_ix, (f, b, filler_idx, user_idx, order_id), rest),
        f.wf(),
        filler_idx < 2,
        user_idx < 2,
    ensures
        take.call matches OrderCall::TriggerMarket {
            accounts: a,
            ix_sysvar,
            market_index,
            order_id: id,
            signed_route,
        } && {
            let filler = f.users@[filler_idx as int];
            let user = f.users@[user_idx as int];
            &&& a.state == f.state_pda && a.authority == filler.authority()
            &&& a.filler == filler.user_pda && a.filler_stats == filler.stats_pda
            &&& a.user == user.user_pda && a.user_stats == user.stats_pda
            &&& is_book(a.book, *b)
            &&& a.crank_conditions is None && a.trigger_conditions is None
            &&& ix_sysvar == Some(instructions_sysvar_id())
            &&& market_index == b.market_index && id == order_id && signed_route@.len() == 0
        },
        rest.call matches OrderCall::TriggerLimit { accounts: a, market_index, order_id: id } && {
            let filler = f.users@[filler_idx as int];
            let user = f.users@[user_idx as int];
            &&& a.state == f.state_pda && a.authority == filler.authority()
            &&& a.filler == filler.user_pda && a.filler_stats == filler.stats_pda
            &&& a.user == user.user_pda && a.user_stats == user.stats_pda
            &&& is_book(a.book, *b)
            &&& a.crank_conditions is None && a.trigger_conditions is None
            &&& market_index == b.market_index && id == order_id
        },
        markets_first(rest.remaining@, *f, true) && rest.remaining@.len() == 5,
        markets_first(take.remaining@, *f, true),
        take.remaining@.len() == 7 + route@.len(),
        open_to_writes(take.remaining@[5], f.users@[1 - user_idx].user_pda),
        open_to_writes(take.remaining@[6], f.users@[1 - user_idx].stats_pda),
        take.remaining@.skip(7) == route@,
{
    reveal_with_fuel(crate::book::makers, 3);
    assert(take.remaining@.skip(7) =~= route@);
}

/// The accounts that follow a routed order's own: the markets, the other user as the
/// maker, and the route.
pub proof fn routes_follow_the_makers(
    f: &Fixture,
    taker_idx: usize,
    route: Vec<AccountMeta>,
    r: Vec<AccountMeta>,
)
    requires
        call_ensures(Fixture::route_remaining_accounts, (f, taker_idx, route), r),
        f.wf(),
        taker_idx < 2,
    ensures
        markets_first(r@, *f, true),
        r@.len() == 7 + route@.len(),
        open_to_writes(r@[5], f.users@[1 - taker_idx].user_pda),
        open_to_writes(r@[6], f.users@[1 - taker_idx].stats_pda),
        r@.skip(7) == route@,
{
    reveal_with_fuel(crate::book::makers, 3);
    assert(r@.skip(7) =~= route@);
}

/// An encoded call goes to the program with its own accounts first and its data
/// untouched.
pub proof fn own_accounts_come_first(
    o: OrderIx,
    program_id: Pubkey,
    own: Vec<AccountMeta>,
    data: Vec<u8>,
    r: Instruction,
)
    requires
        call_ensures(OrderIx::encoded, (o, program_id, own, data), r),
    ensures
        r@.program_id == program_id,
        r@.accounts.take(own@.len() as int) == own@,
        r@.accounts.skip(own@.len() as int) == o.remaining@,
        r@.data == data@,
{
    assert(r@.accounts.take(own@.len() as int) =~= own@);
    assert(r@.accounts.skip(own@.len() as int) =~= o.remaining@);
}

} // verus!
