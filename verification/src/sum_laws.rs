//! What the sums over an account's slots count, and how often.

use vstd::prelude::*;
use crate::invariants::{
    known_longs, known_shorts, long_base, reduce_only_filled, short_base, sum_u64,
};
use crate::margin::quote_deposits;
use crate::model::{
    find_perp, find_perp_in, net_claims, net_user_tokens, net_user_tokens_of, Order, PerpPosition,
    SpotPosition, User,
};

verus! {

/// The sum of a quantity over the first `n` places.
pub open spec fn sum_to(n: nat, f: spec_fn(int) -> int) -> int
    decreases n,
{
    if n == 0 {
        0
    } else {
        sum_to((n - 1) as nat, f) + f(n - 1)
    }
}

// ---------------------------------------------------------------------------
// One slot at a time
// ---------------------------------------------------------------------------

proof fn update_keeps_prefix<T>(s: Seq<T>, j: int, x: T)
    requires
        0 <= j < s.len(),
    ensures
        j == s.len() - 1 ==> s.update(j, x).drop_last() == s.drop_last() && s.update(j, x).last()
            == x,
        j < s.len() - 1 ==> s.update(j, x).drop_last() == s.drop_last().update(j, x) && s.update(
            j,
            x,
        ).last() == s.last(),
{
    if j == s.len() - 1 {
        assert(s.update(j, x).drop_last() =~= s.drop_last());
    } else {
        assert(s.update(j, x).drop_last() =~= s.drop_last().update(j, x));
    }
}

/// A balance counts in its own market and in no other: filling an empty slot adds
/// the tokens of a deposit to the net claim, takes those of a borrow from it, and
/// leaves every other market's alone. No slots, no claim.
pub proof fn a_balance_counts_once(
    positions: Seq<SpotPosition>,
    j: int,
    p: SpotPosition,
    market_index: u16,
)
    requires
        0 <= j < positions.len(),
        positions[j].scaled_balance == 0,
        p.scaled_balance != 0,
    ensures
        ({
            let change = net_claims(positions.update(j, p), market_index) - net_claims(
                positions,
                market_index,
            );
            &&& p.market_index != market_index ==> change == 0
            &&& p.market_index == market_index && p.balance_type is Deposit ==> change == p.tokens
            &&& p.market_index == market_index && p.balance_type is Borrow ==> change == -p.tokens
        }),
        net_claims(Seq::<SpotPosition>::empty(), market_index) == 0,
    decreases positions.len(),
{
    update_keeps_prefix(positions, j, p);
    if j < positions.len() - 1 {
        a_balance_counts_once(positions.drop_last(), j, p, market_index);
    }
}

/// An empty slot is nobody's claim, whatever else it says.
pub proof fn an_empty_balance_counts_nothing(
    positions: Seq<SpotPosition>,
    j: int,
    p: SpotPosition,
    market_index: u16,
)
    requires
        0 <= j < positions.len(),
        positions[j].scaled_balance == 0,
        p.scaled_balance == 0,
    ensures
        net_claims(positions.update(j, p), market_index) == net_claims(positions, market_index),
    decreases positions.len(),
{
    update_keeps_prefix(positions, j, p);
    if j < positions.len() - 1 {
        an_empty_balance_counts_nothing(positions.drop_last(), j, p, market_index);
    }
}

proof fn user_tokens_update(users: Seq<Option<User>>, i: int, u: Option<User>, market_index: u16)
    requires
        0 <= i < users.len(),
    ensures
        net_user_tokens(users.update(i, u), market_index) - net_user_tokens(users, market_index)
            == match u {
            Some(v) => net_claims(v.spot_positions@, market_index),
            None => 0,
        } - match users[i] {
            Some(v) => net_claims(v.spot_positions@, market_index),
            None => 0,
        },
    decreases users.len(),
{
    update_keeps_prefix(users, i, u);
    if i < users.len() - 1 {
        user_tokens_update(users.drop_last(), i, u, market_index);
    }
}

/// What the users of an exchange claim of a market: a user that cannot be read
/// claims nothing; a user whose slots are empty claims nothing; and a slot that one
/// user fills moves the whole by the tokens of that slot, up for a deposit and down
/// for a borrow, in its own market only.
pub proof fn users_claim_what_their_slots_hold(
    users: Seq<Option<User>>,
    i: int,
    filled: User,
    j: int,
    market_index: u16,
)
    requires
        0 <= i < users.len(),
        users[i] is Some,
        0 <= j < users[i]->0.spot_positions@.len(),
        users[i]->0.spot_positions@[j].scaled_balance == 0,
        filled.spot_positions@.len() == users[i]->0.spot_positions@.len(),
        filled.spot_positions@[j].scaled_balance != 0,
        forall|k: int|
            0 <= k < filled.spot_positions@.len() && k != j ==> #[trigger] filled.spot_positions@[k]
                == users[i]->0.spot_positions@[k],
    ensures
        ({
            let p = filled.spot_positions@[j];
            let change = net_user_tokens(users.update(i, Some(filled)), market_index)
                - net_user_tokens(users, market_index);
            &&& p.market_index != market_index ==> change == 0
            &&& p.market_index == market_index && p.balance_type is Deposit ==> change == p.tokens
            &&& p.market_index == market_index && p.balance_type is Borrow ==> change == -p.tokens
        }),
        net_user_tokens(users.update(i, None), market_index) == net_user_tokens(
            users,
            market_index,
        ) - net_claims(users[i]->0.spot_positions@, market_index),
        net_user_tokens(Seq::<Option<User>>::empty(), market_index) == 0,
{
    let before = users[i]->0.spot_positions@;
    let p = filled.spot_positions@[j];
    assert(filled.spot_positions@ =~= before.update(j, p));
    a_balance_counts_once(before, j, p, market_index);
    user_tokens_update(users, i, Some(filled), market_index);
    user_tokens_update(users, i, None, market_index);
}

/// The sum that is computed is the one that the laws above are about.
pub proof fn claims_are_summed(users: &Vec<Option<User>>, market_index: u16, r: i128)
    requires
        call_ensures(net_user_tokens_of, (users, market_index), r),
    ensures
        r == net_user_tokens(users@, market_index),
{
}

// ---------------------------------------------------------------------------
// Base
// ---------------------------------------------------------------------------

/// A position of the perp market counts on one side: its base is long where it is
/// positive and short where it is negative, and the base of another market is
/// neither.
pub proof fn a_position_has_one_side(positions: Seq<PerpPosition>, j: int, p: PerpPosition)
    requires
        0 <= j < positions.len(),
        positions[j].base_asset_amount == 0,
    ensures
        ({
            let longs = long_base(positions.update(j, p)) - long_base(positions);
            let shorts = short_base(positions.update(j, p)) - short_base(positions);
            &&& p.market_index == 0 ==> longs + shorts == p.base_asset_amount
            &&& p.market_index == 0 && p.base_asset_amount > 0 ==> shorts == 0
            &&& p.market_index == 0 && p.base_asset_amount < 0 ==> longs == 0
            &&& p.market_index != 0 ==> longs == 0 && shorts == 0
        }),
        long_base(Seq::<PerpPosition>::empty()) == 0,
        short_base(Seq::<PerpPosition>::empty()) == 0,
    decreases positions.len(),
{
    update_keeps_prefix(positions, j, p);
    if j < positions.len() - 1 {
        a_position_has_one_side(positions.drop_last(), j, p);
    }
}

proof fn known_base_update(users: Seq<Option<User>>, i: int, u: Option<User>)
    requires
        0 <= i < users.len(),
    ensures
        known_longs(users.update(i, u)) - known_longs(users) == match u {
            Some(v) => long_base(v.perp_positions@),
            None => 0,
        } - match users[i] {
            Some(v) => long_base(v.perp_positions@),
            None => 0,
        },
        known_shorts(users.update(i, u)) - known_shorts(users) == match u {
            Some(v) => short_base(v.perp_positions@),
            None => 0,
        } - match users[i] {
            Some(v) => short_base(v.perp_positions@),
            None => 0,
        },
    decreases users.len(),
{
    update_keeps_prefix(users, i, u);
    if i < users.len() - 1 {
        known_base_update(users.drop_last(), i, u);
    }
}

/// The known longs and shorts of an exchange move by the base that one user takes
/// on in the perp market, on the side of its sign; a user that cannot be read has
/// neither.
pub proof fn users_hold_what_their_positions_say(
    users: Seq<Option<User>>,
    i: int,
    filled: User,
    j: int,
)
    requires
        0 <= i < users.len(),
        users[i] is Some,
        0 <= j < users[i]->0.perp_positions@.len(),
        users[i]->0.perp_positions@[j].base_asset_amount == 0,
        filled.perp_positions@.len() == users[i]->0.perp_positions@.len(),
        forall|k: int|
            0 <= k < filled.perp_positions@.len() && k != j ==> #[trigger] filled.perp_positions@[k]
                == users[i]->0.perp_positions@[k],
    ensures
        ({
            let p = filled.perp_positions@[j];
            let longs = known_longs(users.update(i, Some(filled))) - known_longs(users);
            let shorts = known_shorts(users.update(i, Some(filled))) - known_shorts(users);
            &&& p.market_index == 0 ==> longs + shorts == p.base_asset_amount
            &&& p.market_index == 0 && p.base_asset_amount > 0 ==> shorts == 0
            &&& p.market_index == 0 && p.base_asset_amount < 0 ==> longs == 0
            &&& p.market_index != 0 ==> longs == 0 && shorts == 0
        }),
        known_longs(users.update(i, None)) == known_longs(users) - long_base(
            users[i]->0.perp_positions@,
        ),
        known_shorts(users.update(i, None)) == known_shorts(users) - short_base(
            users[i]->0.perp_positions@,
        ),
        known_longs(Seq::<Option<User>>::empty()) == 0,
        known_shorts(Seq::<Option<User>>::empty()) == 0,
{
    let before = users[i]->0.perp_positions@;
    let p = filled.perp_positions@[j];
    assert(filled.perp_positions@ =~= before.update(j, p));
    a_position_has_one_side(before, j, p);
    known_base_update(users, i, Some(filled));
    known_base_update(users, i, None);
}

// ---------------------------------------------------------------------------
// Tokens, fills and deposits
// ---------------------------------------------------------------------------

/// Every wallet counts in full: a token more in any of them is a token more in all.
pub proof fn every_wallet_counts(amounts: Seq<u64>, j: int, amount: u64)
    requires
        0 <= j < amounts.len(),
    ensures
        sum_u64(amounts.update(j, amount)) - sum_u64(amounts) == amount - amounts[j],
        sum_u64(Seq::<u64>::empty()) == 0,
    decreases amounts.len(),
{
    update_keeps_prefix(amounts, j, amount);
    if j < amounts.len() - 1 {
        every_wallet_counts(amounts.drop_last(), j, amount);
    }
}

/// What reduce-only orders have filled grows by the fill of each reduce-only order
/// of perp market 0, open or not, and by no other.
pub proof fn reduce_only_fills_count(orders: Seq<Order>, j: int, o: Order)
    requires
        0 <= j < orders.len(),
        !orders[j].reduce_only,
    ensures
        ({
            let change = reduce_only_filled(orders.update(j, o)) - reduce_only_filled(orders);
            &&& o.reduce_only && o.market_type is Perp && o.market_index == 0 ==> change
                == o.base_asset_amount_filled
            &&& !o.reduce_only || o.market_type is Spot || o.market_index != 0 ==> change == 0
        }),
        reduce_only_filled(Seq::<Order>::empty()) == 0,
    decreases orders.len(),
{
    update_keeps_prefix(orders, j, o);
    if j < orders.len() - 1 {
        reduce_only_fills_count(orders.drop_last(), j, o);
    }
}

/// The collateral of a borrow is what lies in the quote market: a deposit there
/// counts in full, a borrow or another market's balance not at all.
pub proof fn quote_deposits_are_collateral(positions: Seq<SpotPosition>, j: int, p: SpotPosition)
    requires
        0 <= j < positions.len(),
        positions[j].scaled_balance == 0,
    ensures
        ({
            let change = quote_deposits(positions.update(j, p)) - quote_deposits(positions);
            &&& p.market_index == 0 && p.balance_type is Deposit && p.scaled_balance != 0 ==> change
                == p.tokens
            &&& p.market_index != 0 || p.balance_type is Borrow || p.scaled_balance == 0 ==> change
                == 0
        }),
        quote_deposits(Seq::<SpotPosition>::empty()) == 0,
    decreases positions.len(),
{
    update_keeps_prefix(positions, j, p);
    if j < positions.len() - 1 {
        quote_deposits_are_collateral(positions.drop_last(), j, p);
    }
}

// ---------------------------------------------------------------------------
// Searches
// ---------------------------------------------------------------------------

/// The position of a market is the first slot that names it, and there is none
/// exactly where no slot does.
pub proof fn the_first_slot_is_the_position(positions: Seq<PerpPosition>, market_index: u16, k: int)
    ensures
        0 <= k < positions.len() && positions[k].market_index == market_index && (forall|j: int|
            0 <= j < k ==> (#[trigger] positions[j]).market_index != market_index) ==> find_perp(
            positions,
            market_index,
        ) == Some(positions[k]),
        (forall|j: int|
            0 <= j < positions.len() ==> (#[trigger] positions[j]).market_index != market_index)
            ==> find_perp(positions, market_index) is None,
    decreases positions.len(),
{
    if positions.len() > 0 && positions[0].market_index != market_index {
        let rest = positions.skip(1);
        the_first_slot_is_the_position(rest, market_index, k - 1);
        if 0 <= k < positions.len() && positions[k].market_index == market_index && (forall|j: int|
            0 <= j < k ==> (#[trigger] positions[j]).market_index != market_index) {
            assert(k > 0);
            assert(rest[k - 1] == positions[k]);
            assert forall|j: int| 0 <= j < k - 1 implies (#[trigger] rest[j]).market_index
                != market_index by {
                assert(rest[j] == positions[j + 1]);
            }
        }
        if forall|j: int|
            0 <= j < positions.len() ==> (#[trigger] positions[j]).market_index != market_index {
            assert forall|j: int| 0 <= j < rest.len() implies (#[trigger] rest[j]).market_index
                != market_index by {
                assert(rest[j] == positions[j + 1]);
            }
        }
    }
}

/// A search that names a slot names one of the market, with every slot before it
/// of another.
pub proof fn searches_stop_at_the_first(
    positions: &Vec<PerpPosition>,
    market_index: u16,
    k: int,
    r: Option<PerpPosition>,
)
    requires
        call_ensures(find_perp_in, (positions, market_index), r),
        0 <= k < positions@.len(),
        positions@[k].market_index == market_index,
        forall|j: int| 0 <= j < k ==> (#[trigger] positions@[j]).market_index != market_index,
    ensures
        r == Some(positions@[k]),
{
    the_first_slot_is_the_position(positions@, market_index, k);
}

} // verus!
