//! What the invariant checks promise as a whole.

use vstd::prelude::*;
use crate::invariants::{
    all_bad_debt_report, all_placement_report, backed_0, backed_1, bad_debt_report,
    borrow_index_fell, counted_sol, counted_usdc, crank_report, debt_shortfall, deposit_index_fell,
    derives, exposure_grew, exposure_of, exposure_report, exposure_report_of, exposures, finding,
    flags_report, flags_report_of, full_report, funding_after, funding_discarded, funding_report,
    if_shares_report, interest_after, interest_report, interest_sample, issuance_report, issued_sol,
    issued_usdc, known_longs, known_shorts, market_0_report, market_1_insolvent, market_1_report,
    market_address, open_interest_report, order_report_of, orders_report, orders_report_of,
    perp_aggregate_report, pool_claims, pools_report, reduce_only_grew, reduce_only_report,
    reduce_only_report_of, reduce_only_sample, reduce_only_samples, refusal_report,
    stale_margin_freed, unflagged_borrow, Exposure, History, Market, ReduceOnlySample, Snapshot,
    Violation, REPAY_ROUNDING_SLACK,
};
use crate::model::{OrderStatus, PerpMarket, SpotMarket, User};

verus! {

/// The checks that compare with an earlier snapshot, and those that report what
/// the actions recorded.
pub open spec fn silent_on_change(h: History, s: Snapshot) -> bool {
    &&& interest_report(h.interest_0, Market::Spot0, s.spot_0) == Seq::<Violation>::empty()
    &&& interest_report(h.interest_1, Market::Spot1, s.spot_1) == Seq::<Violation>::empty()
    &&& crank_report(h.crank_failures@) == Seq::<Violation>::empty()
    &&& refusal_report(h.liq_refusals@) == Seq::<Violation>::empty()
    &&& reduce_only_report(h.reduce_only@, s.users@, s.users@.len()) == Seq::<Violation>::empty()
    &&& exposure_report(h.exposure@, s.users@, s.users@.len()) == Seq::<Violation>::empty()
    &&& funding_report(h.funding, s.perp) == Seq::<Violation>::empty()
}

proof fn reduce_only_silent(
    prev: Seq<Option<ReduceOnlySample>>,
    users: Seq<Option<User>>,
    n: nat,
)
    requires
        n <= users.len(),
        forall|i: int|
            0 <= i < n ==> reduce_only_report_of(#[trigger] prev[i], users[i], i) == Seq::<
                Violation,
            >::empty(),
    ensures
        reduce_only_report(prev, users, n) == Seq::<Violation>::empty(),
    decreases n,
{
    if n > 0 {
        reduce_only_silent(prev, users, (n - 1) as nat);
        assert(reduce_only_report_of(prev[n - 1], users[n - 1], n - 1).len() == 0);
    }
}

proof fn exposure_silent(prev: Seq<Option<Exposure>>, users: Seq<Option<User>>, n: nat)
    requires
        n <= users.len(),
        forall|i: int|
            0 <= i < n ==> exposure_report_of(#[trigger] prev[i], users[i], i) == Seq::<
                Violation,
            >::empty(),
    ensures
        exposure_report(prev, users, n) == Seq::<Violation>::empty(),
    decreases n,
{
    if n > 0 {
        exposure_silent(prev, users, (n - 1) as nat);
        assert(exposure_report_of(prev[n - 1], users[n - 1], n - 1).len() == 0);
    }
}

/// The first snapshot is never blamed for a change: with nothing observed and
/// nothing recorded, no check that compares with the past reports anything.
pub proof fn first_snapshot_is_not_a_change(h: History, s: Snapshot)
    requires
        h.is_fresh(s.users@.len()),
    ensures
        silent_on_change(h, s),
{
    reduce_only_silent(h.reduce_only@, s.users@, s.users@.len());
    exposure_silent(h.exposure@, s.users@, s.users@.len());
}

/// Looking twice at an exchange that did not move reports no change.
pub proof fn standing_still_is_not_a_change(before: History, after: History, s: Snapshot)
    requires
        after.interest_0 == interest_after(before.interest_0, s.spot_0),
        after.interest_1 == interest_after(before.interest_1, s.spot_1),
        after.exposure@ == exposures(s.users@),
        after.reduce_only@ == reduce_only_samples(s.users@),
        after.funding == funding_after(before.funding, s.perp),
        after.crank_failures@.len() == 0,
        after.liq_refusals@.len() == 0,
    ensures
        silent_on_change(after, s),
{
    assert forall|i: int| 0 <= i < s.users@.len() implies reduce_only_report_of(
        #[trigger] after.reduce_only@[i],
        s.users@[i],
        i,
    ) == Seq::<Violation>::empty() by {
        assert(after.reduce_only@[i] == reduce_only_sample(s.users@[i]));
    }
    reduce_only_silent(after.reduce_only@, s.users@, s.users@.len());
    assert forall|i: int| 0 <= i < s.users@.len() implies exposure_report_of(
        #[trigger] after.exposure@[i],
        s.users@[i],
        i,
    ) == Seq::<Violation>::empty() by {
        assert(after.exposure@[i] == exposure_of(s.users@[i]));
    }
    exposure_silent(after.exposure@, s.users@, s.users@.len());
}

/// A deposit index that falls in a step that socializes a loss is lawful; one
/// that falls in any other step is reported.
pub proof fn socialized_loss_is_the_only_excuse(prev: SpotMarket, now: SpotMarket)
    requires
        now.cumulative_deposit_interest < prev.cumulative_deposit_interest,
    ensures
        deposit_index_fell(interest_sample(prev), interest_sample(now)) <==> now.total_social_loss
            <= prev.total_social_loss,
{
}

/// An account in liquidation may always reduce: a long that adds asks, or a
/// short that adds bids, is never reported.
pub proof fn reducing_risk_is_allowed(prev: Exposure, now: Exposure)
    requires
        (prev.base > 0 && now.bids <= prev.bids) || (prev.base < 0 && now.asks >= prev.asks),
    ensures
        !exposure_grew(prev, now),
{
}

/// A user that only just came into liquidation is not blamed for its orders.
pub proof fn newly_at_risk_is_not_blamed(prev: Exposure, now: Exposure)
    requires
        !prev.at_risk,
    ensures
        !exposure_grew(prev, now),
{
}

/// Funding that was worth nothing is not owed: a market at a zero rate, or with
/// no open interest, may stamp its clock and leave both rates alone.
pub proof fn zero_funding_is_not_discarded(
    prev: crate::invariants::FundingSample,
    m: PerpMarket,
)
    requires
        m.last_funding_rate == 0 || (m.base_asset_amount_with_amm == 0
            && m.base_asset_amount_long == 0 && m.base_asset_amount_short == 0),
    ensures
        !funding_discarded(prev, m),
{
}

proof fn concat_empty<T>(a: Seq<T>, b: Seq<T>)
    requires
        a + b == Seq::<T>::empty(),
    ensures
        a == Seq::<T>::empty(),
        b == Seq::<T>::empty(),
{
    assert((a + b).len() == a.len() + b.len());
    assert(a =~= Seq::<T>::empty());
    assert(b =~= Seq::<T>::empty());
}

proof fn flags_empty(users: Seq<Option<User>>, n: nat)
    requires
        n <= users.len(),
        flags_report(users, n) == Seq::<Violation>::empty(),
    ensures
        forall|i: int|
            0 <= i < n ==> (#[trigger] users[i] matches Some(u) ==> !unflagged_borrow(u)
                && !stale_margin_freed(u)),
    decreases n,
{
    if n > 0 {
        concat_empty(flags_report(users, (n - 1) as nat), flags_report_of(users[n - 1], n - 1));
        flags_empty(users, (n - 1) as nat);
        assert forall|i: int| 0 <= i < n implies (#[trigger] users[i] matches Some(u) ==> !unflagged_borrow(u)
            && !stale_margin_freed(u)) by {
            if i == n - 1 {
                if let Some(u) = users[i] {
                    concat_empty(
                        finding(
                            unflagged_borrow(u),
                            Violation::UnflaggedBorrow { user: i as usize },
                        ),
                        finding(
                            stale_margin_freed(u),
                            Violation::StaleMarginFreed {
                                user: i as usize,
                                freed: u.liquidation_margin_freed,
                            },
                        ),
                    );
                    assert(seq![Violation::UnflaggedBorrow { user: i as usize }].len() == 1);
                }
            }
        }
    }
}

/// What holds of an exchange whose sweep reports nothing: the vaults cover what
/// they back, the books agree with the positions, every pool and borrow is
/// backed, no tokens were conjured, no account hides from liquidation, and
/// every market lives where its index says, and every open order can be told from
/// the others and from those still to come.
pub open spec fn sound(s: Snapshot) -> bool {
    &&& s.spot_0 matches Some(m) ==> m.vault_accepted && s.vault_0 >= backed_0(m, s.perp, s.users@)
        && m.user_shares <= m.total_shares && debt_shortfall(m) <= REPAY_ROUNDING_SLACK
        && derives(market_address("spot_market", m.market_index, s.addresses.program_id), s.addresses.spot_0)
    &&& s.spot_1 matches Some(m) ==> !market_1_insolvent(m, s.vault_1) && s.vault_1
        + REPAY_ROUNDING_SLACK >= backed_1(m, s.users@) && debt_shortfall(m) <= REPAY_ROUNDING_SLACK
        && derives(market_address("spot_market", m.market_index, s.addresses.program_id), s.addresses.spot_1)
    &&& s.pool1_a matches Some(m) ==> debt_shortfall(m) <= REPAY_ROUNDING_SLACK
        && m.depositors_claim >= -REPAY_ROUNDING_SLACK && derives(
        market_address("spot_market", m.market_index, s.addresses.program_id),
        s.addresses.pool1_a,
    )
    &&& s.pool1_b matches Some(m) ==> debt_shortfall(m) <= REPAY_ROUNDING_SLACK
        && m.depositors_claim >= -REPAY_ROUNDING_SLACK && derives(
        market_address("spot_market", m.market_index, s.addresses.program_id),
        s.addresses.pool1_b,
    )
    &&& s.perp matches Some(p) ==> known_longs(s.users@) <= p.base_asset_amount_long
        && known_shorts(s.users@) >= p.base_asset_amount_short && p.base_asset_amount_long
        + p.base_asset_amount_short == p.base_asset_amount_with_amm && derives(
        market_address("perp_market", p.market_index, s.addresses.program_id),
        s.addresses.perp,
    )
    &&& (s.spot_0 matches Some(m) && s.perp matches Some(p)) ==> pool_claims(s.spot_0->0, s.perp->0)
        <= s.spot_0->0.deposit_tokens
    &&& counted_usdc(s) <= issued_usdc()
    &&& counted_sol(s) <= issued_sol()
    &&& forall|i: int|
        0 <= i < s.users@.len() ==> (#[trigger] s.users@[i] matches Some(u) ==> !unflagged_borrow(u)
            && !stale_margin_freed(u) && ids_sound(u))
}

/// The open orders of an account have numbers of their own, all of them issued.
pub open spec fn ids_sound(u: User) -> bool {
    &&& forall|i: int|
        0 <= i < u.orders@.len() && (#[trigger] u.orders@[i]).status == OrderStatus::Open
            ==> u.orders@[i].order_id < u.next_order_id
    &&& forall|i: int, j: int|
        0 <= i < j < u.orders@.len() && (#[trigger] u.orders@[i]).status == OrderStatus::Open && (
        #[trigger] u.orders@[j]).status == OrderStatus::Open ==> u.orders@[i].order_id
            != u.orders@[j].order_id
}

/// What holds of the step that led to an exchange whose sweep reports nothing: no
/// crank reverted that was owed, no liquidation was refused that was due, no index
/// fell without a socialized loss, no reduce-only fill enlarged a position, no
/// account in liquidation grew its exposure, and no funding was skipped.
pub open spec fn lawful(h: History, s: Snapshot) -> bool {
    &&& h.crank_failures@.len() == 0
    &&& h.liq_refusals@.len() == 0
    &&& (h.interest_0 is Some && s.spot_0 is Some) ==> {
        &&& !deposit_index_fell(h.interest_0->0, interest_sample(s.spot_0->0))
        &&& !borrow_index_fell(h.interest_0->0, interest_sample(s.spot_0->0))
    }
    &&& (h.interest_1 is Some && s.spot_1 is Some) ==> {
        &&& !deposit_index_fell(h.interest_1->0, interest_sample(s.spot_1->0))
        &&& !borrow_index_fell(h.interest_1->0, interest_sample(s.spot_1->0))
    }
    &&& (h.funding is Some && s.perp is Some) ==> !funding_discarded(h.funding->0, s.perp->0)
    &&& forall|i: int|
        0 <= i < s.users@.len() ==> (h.reduce_only@[i] is Some && reduce_only_sample(
            #[trigger] s.users@[i],
        ) is Some) ==> !reduce_only_grew(
            h.reduce_only@[i]->0,
            reduce_only_sample(s.users@[i])->0,
            s.users@[i]->0.orders@,
        )
    &&& forall|i: int|
        0 <= i < s.users@.len() ==> (h.exposure@[i] is Some && exposure_of(
            #[trigger] s.users@[i],
        ) is Some) ==> !exposure_grew(h.exposure@[i]->0, exposure_of(s.users@[i])->0)
}

/// The parts of a report that is empty are empty.
proof fn every_part_is_silent(h: History, s: Snapshot)
    requires
        full_report(h, s) == Seq::<Violation>::empty(),
    ensures
        market_1_report(s.spot_1, s.vault_1, s.users@) == Seq::<Violation>::empty(),
        market_0_report(s.spot_0, s.perp, s.vault_0, s.users@) == Seq::<Violation>::empty(),
        perp_aggregate_report(s.perp, s.users@) == Seq::<Violation>::empty(),
        if_shares_report(s.spot_0) == Seq::<Violation>::empty(),
        interest_report(h.interest_0, Market::Spot0, s.spot_0) == Seq::<Violation>::empty(),
        interest_report(h.interest_1, Market::Spot1, s.spot_1) == Seq::<Violation>::empty(),
        crank_report(h.crank_failures@) == Seq::<Violation>::empty(),
        open_interest_report(s.perp) == Seq::<Violation>::empty(),
        flags_report(s.users@, s.users@.len()) == Seq::<Violation>::empty(),
        pools_report(s.spot_0, s.perp) == Seq::<Violation>::empty(),
        all_bad_debt_report(s) == Seq::<Violation>::empty(),
        refusal_report(h.liq_refusals@) == Seq::<Violation>::empty(),
        issuance_report(s) == Seq::<Violation>::empty(),
        reduce_only_report(h.reduce_only@, s.users@, s.users@.len()) == Seq::<Violation>::empty(),
        orders_report(s.users@, s.users@.len()) == Seq::<Violation>::empty(),
        all_placement_report(s) == Seq::<Violation>::empty(),
        exposure_report(h.exposure@, s.users@, s.users@.len()) == Seq::<Violation>::empty(),
        funding_report(h.funding, s.perp) == Seq::<Violation>::empty(),
{
    let u = s.users@;
    let n = u.len();
    let r1 = market_1_report(s.spot_1, s.vault_1, u);
    let r2 = r1 + market_0_report(s.spot_0, s.perp, s.vault_0, u);
    let r3 = r2 + perp_aggregate_report(s.perp, u);
    let r4 = r3 + if_shares_report(s.spot_0);
    let r5 = r4 + interest_report(h.interest_0, Market::Spot0, s.spot_0);
    let r6 = r5 + interest_report(h.interest_1, Market::Spot1, s.spot_1);
    let r7 = r6 + crank_report(h.crank_failures@);
    let r8 = r7 + open_interest_report(s.perp);
    let r9 = r8 + flags_report(u, n);
    let r10 = r9 + pools_report(s.spot_0, s.perp);
    let r11 = r10 + all_bad_debt_report(s);
    let r12 = r11 + refusal_report(h.liq_refusals@);
    let r13 = r12 + issuance_report(s);
    let r14 = r13 + reduce_only_report(h.reduce_only@, u, n);
    let r15 = r14 + orders_report(u, n);
    let r16 = r15 + all_placement_report(s);
    let r17 = r16 + exposure_report(h.exposure@, u, n);
    concat_empty(r17, funding_report(h.funding, s.perp));
    concat_empty(r16, exposure_report(h.exposure@, u, n));
    concat_empty(r15, all_placement_report(s));
    concat_empty(r14, orders_report(u, n));
    concat_empty(r13, reduce_only_report(h.reduce_only@, u, n));
    concat_empty(r12, issuance_report(s));
    concat_empty(r11, refusal_report(h.liq_refusals@));
    concat_empty(r10, all_bad_debt_report(s));
    concat_empty(r9, pools_report(s.spot_0, s.perp));
    concat_empty(r8, flags_report(u, n));
    concat_empty(r7, open_interest_report(s.perp));
    concat_empty(r6, crank_report(h.crank_failures@));
    concat_empty(r5, interest_report(h.interest_1, Market::Spot1, s.spot_1));
    concat_empty(r4, interest_report(h.interest_0, Market::Spot0, s.spot_0));
    concat_empty(r3, if_shares_report(s.spot_0));
    concat_empty(r2, perp_aggregate_report(s.perp, u));
    concat_empty(r1, market_0_report(s.spot_0, s.perp, s.vault_0, u));
}

/// A sweep that reports nothing has shown the exchange sound.
pub proof fn silence_means_sound(h: History, s: Snapshot)
    requires
        full_report(h, s) == Seq::<Violation>::empty(),
    ensures
        sound(s),
{
    every_part_is_silent(h, s);
    flags_empty(s.users@, s.users@.len());
    ids_empty(s.users@, s.users@.len());
    spot_books_sound(s);
    debts_sound(s);
    placements_sound(s);
}

/// A sweep that reports nothing has shown the step before it lawful.
pub proof fn silence_means_lawful(h: History, s: Snapshot)
    requires
        full_report(h, s) == Seq::<Violation>::empty(),
    ensures
        lawful(h, s),
{
    every_part_is_silent(h, s);
    let n = s.users@.len();
    assert(interest_report(h.interest_0, Market::Spot0, s.spot_0).len() == 0);
    assert(interest_report(h.interest_1, Market::Spot1, s.spot_1).len() == 0);
    assert(crank_report(h.crank_failures@).len() == 0);
    assert(refusal_report(h.liq_refusals@).len() == 0);
    assert(funding_report(h.funding, s.perp).len() == 0);
    assert forall|i: int| 0 <= i < n implies (h.reduce_only@[i] is Some && reduce_only_sample(
        #[trigger] s.users@[i],
    ) is Some) ==> !reduce_only_grew(
        h.reduce_only@[i]->0,
        reduce_only_sample(s.users@[i])->0,
        s.users@[i]->0.orders@,
    ) by {
        reduce_only_part(h.reduce_only@, s.users@, n, i);
    }
    assert forall|i: int| 0 <= i < n implies (h.exposure@[i] is Some && exposure_of(
        #[trigger] s.users@[i],
    ) is Some) ==> !exposure_grew(h.exposure@[i]->0, exposure_of(s.users@[i])->0) by {
        exposure_part(h.exposure@, s.users@, n, i);
    }
}

proof fn reduce_only_part(
    prev: Seq<Option<ReduceOnlySample>>,
    users: Seq<Option<User>>,
    n: nat,
    i: int,
)
    requires
        0 <= i < n <= users.len(),
        reduce_only_report(prev, users, n).len() == 0,
    ensures
        reduce_only_report_of(prev[i], users[i], i).len() == 0,
    decreases n,
{
    if i < n - 1 {
        reduce_only_part(prev, users, (n - 1) as nat, i);
    }
}

proof fn exposure_part(prev: Seq<Option<Exposure>>, users: Seq<Option<User>>, n: nat, i: int)
    requires
        0 <= i < n <= users.len(),
        exposure_report(prev, users, n).len() == 0,
    ensures
        exposure_report_of(prev[i], users[i], i).len() == 0,
    decreases n,
{
    if i < n - 1 {
        exposure_part(prev, users, (n - 1) as nat, i);
    }
}

proof fn order_part(u: User, index: int, n: nat, i: int)
    requires
        0 <= i < n <= u.orders@.len(),
        orders_report_of(u, index, n).len() == 0,
    ensures
        order_report_of(u, i, index).len() == 0,
    decreases n,
{
    if i < n - 1 {
        order_part(u, index, (n - 1) as nat, i);
    }
}

proof fn ids_empty(users: Seq<Option<User>>, n: nat)
    requires
        n <= users.len(),
        orders_report(users, n) == Seq::<Violation>::empty(),
    ensures
        forall|i: int| 0 <= i < n ==> (#[trigger] users[i] matches Some(u) ==> ids_sound(u)),
    decreases n,
{
    if n > 0 {
        assert(orders_report(users, n).len() == 0);
        assert(orders_report(users, (n - 1) as nat) =~= Seq::<Violation>::empty());
        ids_empty(users, (n - 1) as nat);
        if let Some(u) = users[n - 1] {
            let len = u.orders@.len();
            assert forall|i: int|
                0 <= i < len && (#[trigger] u.orders@[i]).status == OrderStatus::Open implies u.orders@[i].order_id
                < u.next_order_id by {
                order_part(u, n - 1, len, i);
            }
            assert forall|i: int, j: int|
                0 <= i < j < len && (#[trigger] u.orders@[i]).status == OrderStatus::Open && (
                #[trigger] u.orders@[j]).status == OrderStatus::Open implies u.orders@[i].order_id
                != u.orders@[j].order_id by {
                order_part(u, n - 1, len, i);
            }
        }
    }
}

proof fn spot_books_sound(s: Snapshot)
    requires
        market_1_report(s.spot_1, s.vault_1, s.users@) == Seq::<Violation>::empty(),
        market_0_report(s.spot_0, s.perp, s.vault_0, s.users@) == Seq::<Violation>::empty(),
        perp_aggregate_report(s.perp, s.users@) == Seq::<Violation>::empty(),
        issuance_report(s) == Seq::<Violation>::empty(),
    ensures
        s.spot_0 matches Some(m) ==> m.vault_accepted && s.vault_0 >= backed_0(
            m,
            s.perp,
            s.users@,
        ),
        s.spot_1 matches Some(m) ==> !market_1_insolvent(m, s.vault_1) && s.vault_1
            + REPAY_ROUNDING_SLACK >= backed_1(m, s.users@),
        s.perp matches Some(p) ==> known_longs(s.users@) <= p.base_asset_amount_long
            && known_shorts(s.users@) >= p.base_asset_amount_short,
        counted_usdc(s) <= issued_usdc(),
        counted_sol(s) <= issued_sol(),
{
    assert(market_1_report(s.spot_1, s.vault_1, s.users@).len() == 0);
    assert(market_0_report(s.spot_0, s.perp, s.vault_0, s.users@).len() == 0);
    assert(perp_aggregate_report(s.perp, s.users@).len() == 0);
    assert(issuance_report(s).len() == 0);
}

proof fn debt_sound(id: Market, market: Option<SpotMarket>, check_claim: bool)
    requires
        bad_debt_report(id, market, check_claim) == Seq::<Violation>::empty(),
    ensures
        market matches Some(m) ==> debt_shortfall(m) <= REPAY_ROUNDING_SLACK && (check_claim
            ==> m.depositors_claim >= -REPAY_ROUNDING_SLACK),
{
    assert(bad_debt_report(id, market, check_claim).len() == 0);
}

proof fn debts_sound(s: Snapshot)
    requires
        all_bad_debt_report(s) == Seq::<Violation>::empty(),
    ensures
        s.spot_0 matches Some(m) ==> debt_shortfall(m) <= REPAY_ROUNDING_SLACK,
        s.spot_1 matches Some(m) ==> debt_shortfall(m) <= REPAY_ROUNDING_SLACK,
        s.pool1_a matches Some(m) ==> debt_shortfall(m) <= REPAY_ROUNDING_SLACK
            && m.depositors_claim >= -REPAY_ROUNDING_SLACK,
        s.pool1_b matches Some(m) ==> debt_shortfall(m) <= REPAY_ROUNDING_SLACK
            && m.depositors_claim >= -REPAY_ROUNDING_SLACK,
{
    let a = bad_debt_report(Market::Spot0, s.spot_0, false);
    let b = bad_debt_report(Market::Spot1, s.spot_1, false);
    let c = bad_debt_report(Market::Pool1A, s.pool1_a, true);
    let d = bad_debt_report(Market::Pool1B, s.pool1_b, true);
    concat_empty(a + b + c, d);
    concat_empty(a + b, c);
    concat_empty(a, b);
    debt_sound(Market::Spot0, s.spot_0, false);
    debt_sound(Market::Spot1, s.spot_1, false);
    debt_sound(Market::Pool1A, s.pool1_a, true);
    debt_sound(Market::Pool1B, s.pool1_b, true);
}

proof fn placements_sound(s: Snapshot)
    requires
        all_placement_report(s) == Seq::<Violation>::empty(),
    ensures
        s.spot_0 matches Some(m) ==> derives(
            market_address("spot_market", m.market_index, s.addresses.program_id),
            s.addresses.spot_0,
        ),
        s.spot_1 matches Some(m) ==> derives(
            market_address("spot_market", m.market_index, s.addresses.program_id),
            s.addresses.spot_1,
        ),
        s.pool1_a matches Some(m) ==> derives(
            market_address("spot_market", m.market_index, s.addresses.program_id),
            s.addresses.pool1_a,
        ),
        s.pool1_b matches Some(m) ==> derives(
            market_address("spot_market", m.market_index, s.addresses.program_id),
            s.addresses.pool1_b,
        ),
        s.perp matches Some(p) ==> derives(
            market_address("perp_market", p.market_index, s.addresses.program_id),
            s.addresses.perp,
        ),
{
    assert(all_placement_report(s).len() == 0);
}

} // verus!
