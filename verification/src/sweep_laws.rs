//! What each finding of a sweep says of the accounts, and when it is owed.
//!
//! Each law speaks of a sweep by what it leaves behind: the report `r` of a call on
//! a history and a snapshot. A finding stands in the report exactly where the
//! fields of the accounts call for it.

use vstd::prelude::*;
use crate::constants::{INITIAL_SOL, INITIAL_USDC, SEED_PER_VAULT_SOL, SEED_PER_VAULT_USDC};
use crate::invariants::{
    all_bad_debt_report, all_placement_report, backed_0, backed_1, bad_debt_report,
    borrow_index_fell, counted_sol, counted_usdc, crank_report, debt_shortfall, deposit_index_fell,
    derives, exposure_grew, exposure_of, exposure_report, exposure_report_of, finding, flags_report,
    flags_report_of, full_report, funding_discarded, funding_report, has_balance,
    has_isolated_collateral, id_repeats, if_shares_report, interest_report, interest_sample,
    invariant_solvency, issuance_report, issued_sol, issued_usdc, known_longs, known_shorts,
    market_0_report, market_1_insolvent, market_1_report, market_address, open_interest_report,
    order_report_of, orders_report, orders_report_of, perp_aggregate_report, placement_report,
    pool_claims, pools_report, reduce_only_filled, reduce_only_grew, reduce_only_report,
    reduce_only_report_of, reduce_only_sample, refusal_report, spot_index, stale_margin_freed,
    sum_u64, unflagged_borrow, Crank, Exposure, History, InterestSample, Market, Mint,
    ReduceOnlySample, Report, Snapshot, Violation, REPAY_ROUNDING_SLACK,
};
use crate::keys::{program_address, text, Pubkey};
use crate::model::{
    find_perp, net_user_tokens, BalanceType, PerpMarket, PerpPosition, SpotMarket, User,
};
use crate::sum_laws::the_first_slot_is_the_position;
use crate::wire::le;

verus! {

// ---------------------------------------------------------------------------
// Where a finding can come from
// ---------------------------------------------------------------------------

proof fn in_concat(a: Seq<Violation>, b: Seq<Violation>, v: Violation)
    ensures
        (a + b).contains(v) <==> a.contains(v) || b.contains(v),
{
    if a.contains(v) {
        let i = choose|i: int| 0 <= i < a.len() && a[i] == v;
        assert((a + b)[i] == v);
    }
    if b.contains(v) {
        let i = choose|i: int| 0 <= i < b.len() && b[i] == v;
        assert((a + b)[a.len() + i] == v);
    }
}

proof fn in_finding(found: bool, w: Violation, v: Violation)
    ensures
        finding(found, w).contains(v) <==> found && v == w,
{
    if found {
        assert(finding(found, w)[0] == w);
    }
}

proof fn in_two(f1: bool, w1: Violation, f2: bool, w2: Violation, v: Violation)
    ensures
        (finding(f1, w1) + finding(f2, w2)).contains(v) <==> (f1 && v == w1) || (f2 && v == w2),
{
    in_concat(finding(f1, w1), finding(f2, w2), v);
    in_finding(f1, w1, v);
    in_finding(f2, w2, v);
}

proof fn in_flags(users: Seq<Option<User>>, n: nat, v: Violation)
    requires
        n <= users.len(),
    ensures
        flags_report(users, n).contains(v) <==> exists|i: int|
            0 <= i < n && flags_report_of(#[trigger] users[i], i).contains(v),
    decreases n,
{
    if n > 0 {
        let m = (n - 1) as nat;
        in_flags(users, m, v);
        in_concat(flags_report(users, m), flags_report_of(users[n - 1], n - 1), v);
    }
}

proof fn in_reduce_only(
    prev: Seq<Option<ReduceOnlySample>>,
    users: Seq<Option<User>>,
    n: nat,
    v: Violation,
)
    requires
        n <= users.len(),
    ensures
        reduce_only_report(prev, users, n).contains(v) <==> exists|i: int|
            0 <= i < n && reduce_only_report_of(prev[i], #[trigger] users[i], i).contains(v),
    decreases n,
{
    if n > 0 {
        let m = (n - 1) as nat;
        in_reduce_only(prev, users, m, v);
        in_concat(
            reduce_only_report(prev, users, m),
            reduce_only_report_of(prev[n - 1], users[n - 1], n - 1),
            v,
        );
    }
}

proof fn in_exposure(prev: Seq<Option<Exposure>>, users: Seq<Option<User>>, n: nat, v: Violation)
    requires
        n <= users.len(),
    ensures
        exposure_report(prev, users, n).contains(v) <==> exists|i: int|
            0 <= i < n && exposure_report_of(prev[i], #[trigger] users[i], i).contains(v),
    decreases n,
{
    if n > 0 {
        let m = (n - 1) as nat;
        in_exposure(prev, users, m, v);
        in_concat(
            exposure_report(prev, users, m),
            exposure_report_of(prev[n - 1], users[n - 1], n - 1),
            v,
        );
    }
}

proof fn in_orders_of(u: User, index: int, n: nat, v: Violation)
    requires
        n <= u.orders@.len(),
    ensures
        orders_report_of(u, index, n).contains(v) <==> exists|k: int|
            0 <= k < n && #[trigger] order_report_of(u, k, index).contains(v),
    decreases n,
{
    if n > 0 {
        let m = (n - 1) as nat;
        in_orders_of(u, index, m, v);
        in_concat(orders_report_of(u, index, m), order_report_of(u, n - 1, index), v);
    }
}

spec fn orders_part(user: Option<User>, i: int) -> Seq<Violation> {
    match user {
        Some(u) => orders_report_of(u, i, u.orders@.len()),
        None => Seq::empty(),
    }
}

proof fn in_orders(users: Seq<Option<User>>, n: nat, v: Violation)
    requires
        n <= users.len(),
    ensures
        orders_report(users, n).contains(v) <==> exists|i: int|
            0 <= i < n && orders_part(#[trigger] users[i], i).contains(v),
    decreases n,
{
    if n > 0 {
        let m = (n - 1) as nat;
        in_orders(users, m, v);
        in_concat(orders_report(users, m), orders_part(users[n - 1], n - 1), v);
    }
}

/// The checks that may report a finding of this kind.
spec fn own_part(h: History, s: Snapshot, v: Violation) -> Seq<Violation> {
    match v {
        Violation::MarketInsolvent { .. } => market_1_report(s.spot_1, s.vault_1, s.users@)
            + market_0_report(s.spot_0, s.perp, s.vault_0, s.users@),
        Violation::ConservationBroken { .. } => market_1_report(s.spot_1, s.vault_1, s.users@)
            + market_0_report(s.spot_0, s.perp, s.vault_0, s.users@),
        Violation::LongsUnderstated { .. } => perp_aggregate_report(s.perp, s.users@),
        Violation::ShortsUnderstated { .. } => perp_aggregate_report(s.perp, s.users@),
        Violation::SharesExceedSupply { .. } => if_shares_report(s.spot_0),
        Violation::DepositIndexFell { .. } => interest_report(h.interest_0, Market::Spot0, s.spot_0)
            + interest_report(h.interest_1, Market::Spot1, s.spot_1),
        Violation::BorrowIndexFell { .. } => interest_report(h.interest_0, Market::Spot0, s.spot_0)
            + interest_report(h.interest_1, Market::Spot1, s.spot_1),
        Violation::CranksReverted { .. } => crank_report(h.crank_failures@),
        Violation::OpenInterestMismatch { .. } => open_interest_report(s.perp),
        Violation::UnflaggedBorrow { .. } => flags_report(s.users@, s.users@.len()),
        Violation::StaleMarginFreed { .. } => flags_report(s.users@, s.users@.len()),
        Violation::PoolsUnbacked { .. } => pools_report(s.spot_0, s.perp),
        Violation::BadDebt { .. } => all_bad_debt_report(s),
        Violation::NegativeClaim { .. } => all_bad_debt_report(s),
        Violation::LiquidationsRefused { .. } => refusal_report(h.liq_refusals@),
        Violation::TokensInflated { .. } => issuance_report(s),
        Violation::ReduceOnlyGrew { .. } => reduce_only_report(
            h.reduce_only@,
            s.users@,
            s.users@.len(),
        ),
        Violation::DuplicateOrderId { .. } => orders_report(s.users@, s.users@.len()),
        Violation::OrderIdAhead { .. } => orders_report(s.users@, s.users@.len()),
        Violation::MarketMisplaced { .. } => all_placement_report(s),
        Violation::AtRiskExposureGrew { .. } => exposure_report(
            h.exposure@,
            s.users@,
            s.users@.len(),
        ),
        Violation::FundingDiscarded { .. } => funding_report(h.funding, s.perp),
    }
}

proof fn in_full_report(h: History, s: Snapshot, v: Violation)
    ensures
        full_report(h, s).contains(v) <==> {
            ||| market_1_report(s.spot_1, s.vault_1, s.users@).contains(v)
            ||| market_0_report(s.spot_0, s.perp, s.vault_0, s.users@).contains(v)
            ||| perp_aggregate_report(s.perp, s.users@).contains(v)
            ||| if_shares_report(s.spot_0).contains(v)
            ||| interest_report(h.interest_0, Market::Spot0, s.spot_0).contains(v)
            ||| interest_report(h.interest_1, Market::Spot1, s.spot_1).contains(v)
            ||| crank_report(h.crank_failures@).contains(v)
            ||| open_interest_report(s.perp).contains(v)
            ||| flags_report(s.users@, s.users@.len()).contains(v)
            ||| pools_report(s.spot_0, s.perp).contains(v)
            ||| all_bad_debt_report(s).contains(v)
            ||| refusal_report(h.liq_refusals@).contains(v)
            ||| issuance_report(s).contains(v)
            ||| reduce_only_report(h.reduce_only@, s.users@, s.users@.len()).contains(v)
            ||| orders_report(s.users@, s.users@.len()).contains(v)
            ||| all_placement_report(s).contains(v)
            ||| exposure_report(h.exposure@, s.users@, s.users@.len()).contains(v)
            ||| funding_report(h.funding, s.perp).contains(v)
        },
{
    let u = s.users@;
    let n = u.len();
    let r1 = market_1_report(s.spot_1, s.vault_1, u);
    let r2 = r1 + market_0_report(s.spot_0, s.perp, s.vault_0, u);
    let r3 = r2 + perp_aggregate_report(s.perp, u);
    let r4 = r3 + if_shares_report(s.spot_0);
    let r5 = r4 + interest_report(h.interest_0, Market::Spot0, s.spot_0);
    let r6 = r5 + interest_report(h.interest_1, Market::Spot1, s.spot_1);
    let r7 = r6 + crank_report(h.crank_failures@);
    let r8 = r7 + open_interest_report(s.perp);
    let r9 = r8 + flags_report(u, n);
    let r10 = r9 + pools_report(s.spot_0, s.perp);
    let r11 = r10 + all_bad_debt_report(s);
    let r12 = r11 + refusal_report(h.liq_refusals@);
    let r13 = r12 + issuance_report(s);
    let r14 = r13 + reduce_only_report(h.reduce_only@, u, n);
    let r15 = r14 + orders_report(u, n);
    let r16 = r15 + all_placement_report(s);
    let r17 = r16 + exposure_report(h.exposure@, u, n);
    in_concat(r17, funding_report(h.funding, s.perp), v);
    in_concat(r16, exposure_report(h.exposure@, u, n), v);
    in_concat(r15, all_placement_report(s), v);
    in_concat(r14, orders_report(u, n), v);
    in_concat(r13, reduce_only_report(h.reduce_only@, u, n), v);
    in_concat(r12, issuance_report(s), v);
    in_concat(r11, refusal_report(h.liq_refusals@), v);
    in_concat(r10, all_bad_debt_report(s), v);
    in_concat(r9, pools_report(s.spot_0, s.perp), v);
    in_concat(r8, flags_report(u, n), v);
    in_concat(r7, open_interest_report(s.perp), v);
    in_concat(r6, crank_report(h.crank_failures@), v);
    in_concat(r5, interest_report(h.interest_1, Market::Spot1, s.spot_1), v);
    in_concat(r4, interest_report(h.interest_0, Market::Spot0, s.spot_0), v);
    in_concat(r3, if_shares_report(s.spot_0), v);
    in_concat(r2, perp_aggregate_report(s.perp, u), v);
    in_concat(r1, market_0_report(s.spot_0, s.perp, s.vault_0, u), v);
}

proof fn in_bad_debt(s: Snapshot, v: Violation)
    ensures
        all_bad_debt_report(s).contains(v) <==> {
            ||| bad_debt_report(Market::Spot0, s.spot_0, false).contains(v)
            ||| bad_debt_report(Market::Spot1, s.spot_1, false).contains(v)
            ||| bad_debt_report(Market::Pool1A, s.pool1_a, true).contains(v)
            ||| bad_debt_report(Market::Pool1B, s.pool1_b, true).contains(v)
        },
{
    let a = bad_debt_report(Market::Spot0, s.spot_0, false);
    let b = bad_debt_report(Market::Spot1, s.spot_1, false);
    let c = bad_debt_report(Market::Pool1A, s.pool1_a, true);
    let d = bad_debt_report(Market::Pool1B, s.pool1_b, true);
    in_concat(a + b + c, d, v);
    in_concat(a + b, c, v);
    in_concat(a, b, v);
}

proof fn in_placements(s: Snapshot, v: Violation)
    ensures
        all_placement_report(s).contains(v) <==> {
            let a = s.addresses;
            ||| placement_report("spot_market", spot_index(s.spot_0), Market::Spot0, a.spot_0, a.program_id).contains(v)
            ||| placement_report("spot_market", spot_index(s.spot_1), Market::Spot1, a.spot_1, a.program_id).contains(v)
            ||| placement_report("spot_market", spot_index(s.pool1_a), Market::Pool1A, a.pool1_a, a.program_id).contains(v)
            ||| placement_report("spot_market", spot_index(s.pool1_b), Market::Pool1B, a.pool1_b, a.program_id).contains(v)
            ||| placement_report("perp_market", perp_index(s), Market::Perp, a.perp, a.program_id).contains(v)
        },
{
    let a = s.addresses;
    let p1 = placement_report("spot_market", spot_index(s.spot_0), Market::Spot0, a.spot_0, a.program_id);
    let p2 = placement_report("spot_market", spot_index(s.spot_1), Market::Spot1, a.spot_1, a.program_id);
    let p3 = placement_report("spot_market", spot_index(s.pool1_a), Market::Pool1A, a.pool1_a, a.program_id);
    let p4 = placement_report("spot_market", spot_index(s.pool1_b), Market::Pool1B, a.pool1_b, a.program_id);
    let p5 = placement_report("perp_market", perp_index(s), Market::Perp, a.perp, a.program_id);
    in_concat(p1 + p2 + p3 + p4, p5, v);
    in_concat(p1 + p2 + p3, p4, v);
    in_concat(p1 + p2, p3, v);
    in_concat(p1, p2, v);
}

spec fn perp_index(s: Snapshot) -> Option<u16> {
    match s.perp {
        Some(m) => Some(m.market_index),
        None => None,
    }
}

proof fn kinds_of_markets(s: Snapshot, v: Violation)
    ensures
        market_1_report(s.spot_1, s.vault_1, s.users@).contains(v) ==> v is MarketInsolvent
            || v is ConservationBroken,
        market_0_report(s.spot_0, s.perp, s.vault_0, s.users@).contains(v) ==> v is MarketInsolvent
            || v is ConservationBroken,
{
}

proof fn kinds_of_books(h: History, s: Snapshot, v: Violation)
    ensures
        perp_aggregate_report(s.perp, s.users@).contains(v) ==> v is LongsUnderstated
            || v is ShortsUnderstated,
        if_shares_report(s.spot_0).contains(v) ==> v is SharesExceedSupply,
        crank_report(h.crank_failures@).contains(v) ==> v is CranksReverted,
        refusal_report(h.liq_refusals@).contains(v) ==> v is LiquidationsRefused,
        open_interest_report(s.perp).contains(v) ==> v is OpenInterestMismatch,
        pools_report(s.spot_0, s.perp).contains(v) ==> v is PoolsUnbacked,
        issuance_report(s).contains(v) ==> v is TokensInflated,
        funding_report(h.funding, s.perp).contains(v) ==> v is FundingDiscarded,
{
}

proof fn kinds_of_interest(h: History, s: Snapshot, v: Violation)
    ensures
        interest_report(h.interest_0, Market::Spot0, s.spot_0).contains(v) ==> v is DepositIndexFell
            || v is BorrowIndexFell,
        interest_report(h.interest_1, Market::Spot1, s.spot_1).contains(v) ==> v is DepositIndexFell
            || v is BorrowIndexFell,
{
}

proof fn kinds_of_debts(id: Market, market: Option<SpotMarket>, claim: bool, v: Violation)
    ensures
        bad_debt_report(id, market, claim).contains(v) ==> v is BadDebt || v is NegativeClaim,
{
}

proof fn kinds_of_users(h: History, s: Snapshot, v: Violation)
    ensures
        flags_report(s.users@, s.users@.len()).contains(v) ==> v is UnflaggedBorrow
            || v is StaleMarginFreed,
        reduce_only_report(h.reduce_only@, s.users@, s.users@.len()).contains(v)
            ==> v is ReduceOnlyGrew,
        exposure_report(h.exposure@, s.users@, s.users@.len()).contains(v)
            ==> v is AtRiskExposureGrew,
{
    in_flags(s.users@, s.users@.len(), v);
    in_reduce_only(h.reduce_only@, s.users@, s.users@.len(), v);
    in_exposure(h.exposure@, s.users@, s.users@.len(), v);
}

proof fn kinds_of_orders(s: Snapshot, v: Violation)
    ensures
        orders_report(s.users@, s.users@.len()).contains(v) ==> v is DuplicateOrderId
            || v is OrderIdAhead,
{
    let u = s.users@;
    in_orders(u, u.len(), v);
    if orders_report(u, u.len()).contains(v) {
        let i = choose|i: int| 0 <= i < u.len() && orders_part(#[trigger] u[i], i).contains(v);
        in_orders_of(u[i]->0, i, u[i]->0.orders@.len(), v);
    }
}

/// A finding comes from the checks of its kind and from no other.
proof fn reported_by_its_check(h: History, s: Snapshot, v: Violation)
    ensures
        full_report(h, s).contains(v) <==> own_part(h, s, v).contains(v),
{
    let u = s.users@;
    in_full_report(h, s, v);
    in_concat(
        market_1_report(s.spot_1, s.vault_1, u),
        market_0_report(s.spot_0, s.perp, s.vault_0, u),
        v,
    );
    in_concat(
        interest_report(h.interest_0, Market::Spot0, s.spot_0),
        interest_report(h.interest_1, Market::Spot1, s.spot_1),
        v,
    );
    kinds_of_markets(s, v);
    kinds_of_books(h, s, v);
    kinds_of_interest(h, s, v);
    kinds_of_users(h, s, v);
    kinds_of_orders(s, v);
    kinds_of_all_debts(s, v);
    kinds_of_placements(s, v);
}

proof fn kinds_of_all_debts(s: Snapshot, v: Violation)
    ensures
        all_bad_debt_report(s).contains(v) ==> v is BadDebt || v is NegativeClaim,
{
    in_bad_debt(s, v);
    kinds_of_debts(Market::Spot0, s.spot_0, false, v);
    kinds_of_debts(Market::Spot1, s.spot_1, false, v);
    kinds_of_debts(Market::Pool1A, s.pool1_a, true, v);
    kinds_of_debts(Market::Pool1B, s.pool1_b, true, v);
}

proof fn kinds_of_placements(s: Snapshot, v: Violation)
    ensures
        all_placement_report(s).contains(v) ==> v is MarketMisplaced,
{
    in_placements(s, v);
}

// ---------------------------------------------------------------------------
// Vaults
// ---------------------------------------------------------------------------

/// The quote vault covers what the users claim of it, net of what they owe, and
/// the tokens of the three pools that live in it. A sweep reports the vault exactly
/// where it holds less, and names both sums.
pub proof fn the_quote_vault_covers_its_claims(
    h: &mut History,
    s: &Snapshot,
    r: Report,
    vault: u64,
    backed: i128,
)
    requires
        call_ensures(invariant_solvency, (h, s), r),
    ensures
        r.violations@.contains(
            Violation::ConservationBroken { market: Market::Spot0, vault, backed },
        ) <==> s.spot_0 is Some && vault == s.vault_0 && ({
            let owed = net_user_tokens(s.users@, 0) + s.spot_0->0.revenue_pool_tokens + (
            if s.perp is Some {
                s.perp->0.pnl_pool_tokens + s.perp->0.fee_pool_tokens
            } else {
                0
            });
            s.vault_0 < owed && backed == owed as i128
        }),
        r.violations@.len() == 0 && s.spot_0 is Some && s.perp is Some ==> s.vault_0
            >= net_user_tokens(s.users@, 0) + s.spot_0->0.revenue_pool_tokens
            + s.perp->0.pnl_pool_tokens + s.perp->0.fee_pool_tokens,
        r.violations@.len() == 0 && s.spot_0 is Some && s.perp is None ==> s.vault_0
            >= net_user_tokens(s.users@, 0) + s.spot_0->0.revenue_pool_tokens,
{
    let v = Violation::ConservationBroken { market: Market::Spot0, vault, backed };
    quote_vault_finding(*old(h), *s, v);
    let owed = net_user_tokens(s.users@, 0) + s.spot_0->0.revenue_pool_tokens + (
    if s.perp is Some {
        s.perp->0.pnl_pool_tokens + s.perp->0.fee_pool_tokens
    } else {
        0
    });
    let w = Violation::ConservationBroken {
        market: Market::Spot0,
        vault: s.vault_0,
        backed: owed as i128,
    };
    quote_vault_finding(*old(h), *s, w);
}

proof fn quote_vault_finding(h: History, s: Snapshot, v: Violation)
    requires
        v matches Violation::ConservationBroken { market: m, .. } && m is Spot0,
    ensures
        full_report(h, s).contains(v) <==> s.spot_0 is Some && ({
            let owed = net_user_tokens(s.users@, 0) + s.spot_0->0.revenue_pool_tokens + (
            if s.perp is Some {
                s.perp->0.pnl_pool_tokens + s.perp->0.fee_pool_tokens
            } else {
                0
            });
            s.vault_0 < owed && v == (Violation::ConservationBroken {
                market: Market::Spot0,
                vault: s.vault_0,
                backed: owed as i128,
            })
        }),
{
    reported_by_its_check(h, s, v);
    in_concat(
        market_1_report(s.spot_1, s.vault_1, s.users@),
        market_0_report(s.spot_0, s.perp, s.vault_0, s.users@),
        v,
    );
    if let Some(m) = s.spot_0 {
        in_two(
            !m.vault_accepted,
            Violation::MarketInsolvent {
                market: Market::Spot0,
                claim: m.depositors_claim,
                vault: s.vault_0,
            },
            s.vault_0 < backed_0(m, s.perp, s.users@),
            Violation::ConservationBroken {
                market: Market::Spot0,
                vault: s.vault_0,
                backed: backed_0(m, s.perp, s.users@) as i128,
            },
            v,
        );
    }
}

/// One more token in a pool of the quote vault is one more token to cover: what is
/// reported at a vault before is reported at a vault of one more after.
pub proof fn a_pool_token_is_covered_by_a_vault_token(
    h: &mut History,
    k: &mut History,
    s: &Snapshot,
    t: &Snapshot,
    before: Report,
    after: Report,
)
    requires
        call_ensures(invariant_solvency, (h, s), before),
        call_ensures(invariant_solvency, (k, t), after),
        s.spot_0 is Some && t.spot_0 is Some && s.perp is Some && t.perp is Some,
        t.users@ == s.users@,
        t.vault_0 == s.vault_0 + 1,
        t.spot_0->0.revenue_pool_tokens + t.perp->0.pnl_pool_tokens + t.perp->0.fee_pool_tokens
            == s.spot_0->0.revenue_pool_tokens + s.perp->0.pnl_pool_tokens
            + s.perp->0.fee_pool_tokens + 1,
    ensures
        (exists|backed: i128|
            before.violations@.contains(
                Violation::ConservationBroken { market: Market::Spot0, vault: s.vault_0, backed },
            )) <==> (exists|backed: i128|
            after.violations@.contains(
                Violation::ConservationBroken { market: Market::Spot0, vault: t.vault_0, backed },
            )),
{
    let owed = net_user_tokens(s.users@, 0) + s.spot_0->0.revenue_pool_tokens
        + s.perp->0.pnl_pool_tokens + s.perp->0.fee_pool_tokens;
    let a = Violation::ConservationBroken {
        market: Market::Spot0,
        vault: s.vault_0,
        backed: owed as i128,
    };
    let b = Violation::ConservationBroken {
        market: Market::Spot0,
        vault: t.vault_0,
        backed: (owed + 1) as i128,
    };
    quote_vault_finding(*old(h), *s, a);
    quote_vault_finding(*old(k), *t, b);
    assert forall|backed: i128|
        before.violations@.contains(
            Violation::ConservationBroken { market: Market::Spot0, vault: s.vault_0, backed },
        ) implies s.vault_0 < owed by {
        quote_vault_finding(
            *old(h),
            *s,
            Violation::ConservationBroken { market: Market::Spot0, vault: s.vault_0, backed },
        );
    }
    assert forall|backed: i128|
        after.violations@.contains(
            Violation::ConservationBroken { market: Market::Spot0, vault: t.vault_0, backed },
        ) implies t.vault_0 < owed + 1 by {
        quote_vault_finding(
            *old(k),
            *t,
            Violation::ConservationBroken { market: Market::Spot0, vault: t.vault_0, backed },
        );
    }
}

/// The second vault covers its users and its two pools but for the dust that
/// repayments leave, sixteen units of it.
pub proof fn the_second_vault_covers_its_claims(
    h: &mut History,
    s: &Snapshot,
    r: Report,
    vault: u64,
    backed: i128,
)
    requires
        call_ensures(invariant_solvency, (h, s), r),
    ensures
        r.violations@.contains(
            Violation::ConservationBroken { market: Market::Spot1, vault, backed },
        ) <==> s.spot_1 is Some && vault == s.vault_1 && ({
            let owed = net_user_tokens(s.users@, 1) + s.spot_1->0.revenue_pool_tokens
                + s.spot_1->0.protocol_fee_pool_tokens;
            s.vault_1 + 16 < owed && backed == owed as i128
        }),
        r.violations@.len() == 0 && s.spot_1 is Some ==> s.vault_1 + 16 >= net_user_tokens(
            s.users@,
            1,
        ) + s.spot_1->0.revenue_pool_tokens + s.spot_1->0.protocol_fee_pool_tokens,
{
    let v = Violation::ConservationBroken { market: Market::Spot1, vault, backed };
    second_vault_finding(*old(h), *s, v);
    let owed = net_user_tokens(s.users@, 1) + s.spot_1->0.revenue_pool_tokens
        + s.spot_1->0.protocol_fee_pool_tokens;
    second_vault_finding(
        *old(h),
        *s,
        Violation::ConservationBroken {
            market: Market::Spot1,
            vault: s.vault_1,
            backed: owed as i128,
        },
    );
}

proof fn second_vault_finding(h: History, s: Snapshot, v: Violation)
    requires
        v matches Violation::ConservationBroken { market: m, .. } && m is Spot1,
    ensures
        full_report(h, s).contains(v) <==> s.spot_1 is Some && ({
            let owed = net_user_tokens(s.users@, 1) + s.spot_1->0.revenue_pool_tokens
                + s.spot_1->0.protocol_fee_pool_tokens;
            s.vault_1 + 16 < owed && v == (Violation::ConservationBroken {
                market: Market::Spot1,
                vault: s.vault_1,
                backed: owed as i128,
            })
        }),
{
    reported_by_its_check(h, s, v);
    in_concat(
        market_1_report(s.spot_1, s.vault_1, s.users@),
        market_0_report(s.spot_0, s.perp, s.vault_0, s.users@),
        v,
    );
    if let Some(m) = s.spot_1 {
        in_two(
            market_1_insolvent(m, s.vault_1),
            Violation::MarketInsolvent {
                market: Market::Spot1,
                claim: m.depositors_claim,
                vault: s.vault_1,
            },
            backed_1(m, s.users@) - s.vault_1 > REPAY_ROUNDING_SLACK,
            Violation::ConservationBroken {
                market: Market::Spot1,
                vault: s.vault_1,
                backed: backed_1(m, s.users@) as i128,
            },
            v,
        );
    }
}

/// A vault that the exchange itself rejects is reported: in the quote market
/// always, in the second one unless the depositors are short by one to sixteen
/// units. A vault that it accepts is not.
pub proof fn rejected_vaults_are_insolvent(
    h: &mut History,
    s: &Snapshot,
    r: Report,
    market: Market,
    claim: i64,
    vault: u64,
)
    requires
        call_ensures(invariant_solvency, (h, s), r),
    ensures
        r.violations@.contains(Violation::MarketInsolvent { market, claim, vault }) <==> {
            ||| market is Spot0 && s.spot_0 is Some && !s.spot_0->0.vault_accepted && claim
                == s.spot_0->0.depositors_claim && vault == s.vault_0
            ||| market is Spot1 && s.spot_1 is Some && !s.spot_1->0.vault_accepted && claim
                == s.spot_1->0.depositors_claim && vault == s.vault_1 && (claim <= vault || claim
                > vault + 16)
        },
{
    let v = Violation::MarketInsolvent { market, claim, vault };
    reported_by_its_check(*old(h), *s, v);
    in_concat(
        market_1_report(s.spot_1, s.vault_1, s.users@),
        market_0_report(s.spot_0, s.perp, s.vault_0, s.users@),
        v,
    );
    if let Some(m) = s.spot_1 {
        in_two(
            market_1_insolvent(m, s.vault_1),
            Violation::MarketInsolvent {
                market: Market::Spot1,
                claim: m.depositors_claim,
                vault: s.vault_1,
            },
            backed_1(m, s.users@) - s.vault_1 > REPAY_ROUNDING_SLACK,
            Violation::ConservationBroken {
                market: Market::Spot1,
                vault: s.vault_1,
                backed: backed_1(m, s.users@) as i128,
            },
            v,
        );
    }
    if let Some(m) = s.spot_0 {
        in_two(
            !m.vault_accepted,
            Violation::MarketInsolvent {
                market: Market::Spot0,
                claim: m.depositors_claim,
                vault: s.vault_0,
            },
            s.vault_0 < backed_0(m, s.perp, s.users@),
            Violation::ConservationBroken {
                market: Market::Spot0,
                vault: s.vault_0,
                backed: backed_0(m, s.perp, s.users@) as i128,
            },
            v,
        );
    }
}

/// The pools inside the quote market together claim no more than its deposits:
/// four pools, each counted in full.
pub proof fn deposits_back_the_pools(
    h: &mut History,
    s: &Snapshot,
    r: Report,
    claims: u128,
    deposits: u128,
)
    requires
        call_ensures(invariant_solvency, (h, s), r),
    ensures
        r.violations@.contains(Violation::PoolsUnbacked { claims, deposits }) <==> s.spot_0 is Some
            && s.perp is Some && deposits == s.spot_0->0.deposit_tokens && ({
            let sum = s.spot_0->0.revenue_pool_tokens + s.spot_0->0.protocol_fee_pool_tokens
                + s.perp->0.pnl_pool_tokens + s.perp->0.protocol_fee_pool_tokens;
            sum > s.spot_0->0.deposit_tokens && claims == sum as u128
        }),
{
    let v = Violation::PoolsUnbacked { claims, deposits };
    reported_by_its_check(*old(h), *s, v);
    if s.spot_0 is Some && s.perp is Some {
        in_finding(
            pool_claims(s.spot_0->0, s.perp->0) > s.spot_0->0.deposit_tokens,
            Violation::PoolsUnbacked {
                claims: pool_claims(s.spot_0->0, s.perp->0) as u128,
                deposits: s.spot_0->0.deposit_tokens,
            },
            v,
        );
    }
}

/// Borrows stay within deposits, up to sixteen units, in each of the four spot
/// markets; in tokens, in the two of the second pool.
pub proof fn borrows_stay_within_deposits(
    h: &mut History,
    s: &Snapshot,
    r: Report,
    market: Market,
    shortfall: u128,
    claim: i64,
)
    requires
        call_ensures(invariant_solvency, (h, s), r),
    ensures
        ({
            let books = match market {
                Market::Spot0 => s.spot_0,
                Market::Spot1 => s.spot_1,
                Market::Pool1A => s.pool1_a,
                Market::Pool1B => s.pool1_b,
                Market::Perp => None,
            };
            &&& r.violations@.contains(Violation::BadDebt { market, shortfall }) <==> books is Some
                && shortfall > 16 && books->0.borrow_balance == books->0.deposit_balance + shortfall
            &&& r.violations@.contains(Violation::NegativeClaim { market, claim })
                <==> books is Some && (market is Pool1A || market is Pool1B) && claim
                == books->0.depositors_claim && claim + 16 < 0
        }),
{
    let v = Violation::BadDebt { market, shortfall };
    let w = Violation::NegativeClaim { market, claim };
    reported_by_its_check(*old(h), *s, v);
    reported_by_its_check(*old(h), *s, w);
    in_bad_debt(*s, v);
    in_bad_debt(*s, w);
    debt_finding(Market::Spot0, s.spot_0, false, v);
    debt_finding(Market::Spot1, s.spot_1, false, v);
    debt_finding(Market::Pool1A, s.pool1_a, true, v);
    debt_finding(Market::Pool1B, s.pool1_b, true, v);
    debt_finding(Market::Spot0, s.spot_0, false, w);
    debt_finding(Market::Spot1, s.spot_1, false, w);
    debt_finding(Market::Pool1A, s.pool1_a, true, w);
    debt_finding(Market::Pool1B, s.pool1_b, true, w);
}

proof fn debt_finding(id: Market, market: Option<SpotMarket>, check_claim: bool, v: Violation)
    ensures
        bad_debt_report(id, market, check_claim).contains(v) <==> market is Some && {
            ||| debt_shortfall(market->0) > 16 && v == (Violation::BadDebt {
                market: id,
                shortfall: debt_shortfall(market->0) as u128,
            })
            ||| check_claim && market->0.depositors_claim < -16 && v == (Violation::NegativeClaim {
                market: id,
                claim: market->0.depositors_claim,
            })
        },
{
    if let Some(m) = market {
        in_two(
            debt_shortfall(m) > REPAY_ROUNDING_SLACK,
            Violation::BadDebt { market: id, shortfall: debt_shortfall(m) as u128 },
            check_claim && m.depositors_claim < -REPAY_ROUNDING_SLACK,
            Violation::NegativeClaim { market: id, claim: m.depositors_claim },
            v,
        );
    }
}

/// No more tokens of either mint are counted than were issued: two users' wallets
/// and two seeds of the quote token, two users' wallets and one seed of the other.
/// Every wallet counts, and every vault of the mint.
pub proof fn tokens_are_counted_against_the_issue(
    h: &mut History,
    s: &Snapshot,
    r: Report,
    counted: u128,
    issued: u128,
)
    requires
        call_ensures(invariant_solvency, (h, s), r),
    ensures
        r.violations@.contains(Violation::TokensInflated { mint: Mint::Usdc, counted, issued })
            <==> issued == 2 * INITIAL_USDC + SEED_PER_VAULT_USDC + SEED_PER_VAULT_USDC && ({
            let sum = sum_u64(s.usdc_wallets@) + s.vault_0 + s.if_vault_0 + s.pool1_vault_a;
            sum > issued && counted == sum as u128
        }),
        r.violations@.contains(Violation::TokensInflated { mint: Mint::Sol, counted, issued })
            <==> issued == 2 * INITIAL_SOL + SEED_PER_VAULT_SOL && ({
            let sum = sum_u64(s.sol_wallets@) + s.vault_1 + s.if_vault_1 + s.pool1_vault_b;
            sum > issued && counted == sum as u128
        }),
{
    let v = Violation::TokensInflated { mint: Mint::Usdc, counted, issued };
    let w = Violation::TokensInflated { mint: Mint::Sol, counted, issued };
    reported_by_its_check(*old(h), *s, v);
    reported_by_its_check(*old(h), *s, w);
    let a = Violation::TokensInflated {
        mint: Mint::Usdc,
        counted: counted_usdc(*s) as u128,
        issued: issued_usdc() as u128,
    };
    let b = Violation::TokensInflated {
        mint: Mint::Sol,
        counted: counted_sol(*s) as u128,
        issued: issued_sol() as u128,
    };
    in_two(counted_usdc(*s) > issued_usdc(), a, counted_sol(*s) > issued_sol(), b, v);
    in_two(counted_usdc(*s) > issued_usdc(), a, counted_sol(*s) > issued_sol(), b, w);
}

// ---------------------------------------------------------------------------
// Books
// ---------------------------------------------------------------------------

/// The perp market records at least the longs and shorts of the users at hand, and
/// its open interest nets out to what the AMM carries.
pub proof fn positions_are_recorded(
    h: &mut History,
    s: &Snapshot,
    r: Report,
    known: i128,
    recorded: i128,
)
    requires
        call_ensures(invariant_solvency, (h, s), r),
    ensures
        r.violations@.contains(Violation::LongsUnderstated { known, recorded }) <==> s.perp is Some
            && recorded == s.perp->0.base_asset_amount_long && known_longs(s.users@) > recorded
            && known == known_longs(s.users@) as i128,
        r.violations@.contains(Violation::ShortsUnderstated { known, recorded }) <==> s.perp is Some
            && recorded == s.perp->0.base_asset_amount_short && known_shorts(s.users@) < recorded
            && known == known_shorts(s.users@) as i128,
        r.violations@.contains(Violation::OpenInterestMismatch { users: known, amm: recorded })
            <==> s.perp is Some && recorded == s.perp->0.base_asset_amount_with_amm && ({
            let net = s.perp->0.base_asset_amount_long + s.perp->0.base_asset_amount_short;
            net != recorded && known == net as i128
        }),
{
    let v = Violation::LongsUnderstated { known, recorded };
    let w = Violation::ShortsUnderstated { known, recorded };
    let x = Violation::OpenInterestMismatch { users: known, amm: recorded };
    reported_by_its_check(*old(h), *s, v);
    reported_by_its_check(*old(h), *s, w);
    reported_by_its_check(*old(h), *s, x);
    if let Some(m) = s.perp {
        let longs = known_longs(s.users@);
        let shorts = known_shorts(s.users@);
        let a = Violation::LongsUnderstated {
            known: longs as i128,
            recorded: m.base_asset_amount_long,
        };
        let b = Violation::ShortsUnderstated {
            known: shorts as i128,
            recorded: m.base_asset_amount_short,
        };
        in_two(longs > m.base_asset_amount_long, a, shorts < m.base_asset_amount_short, b, v);
        in_two(longs > m.base_asset_amount_long, a, shorts < m.base_asset_amount_short, b, w);
        in_finding(
            m.base_asset_amount_long + m.base_asset_amount_short != m.base_asset_amount_with_amm,
            Violation::OpenInterestMismatch {
                users: (m.base_asset_amount_long + m.base_asset_amount_short) as i128,
                amm: m.base_asset_amount_with_amm,
            },
            x,
        );
    }
}

/// Shares beyond the supply are reported, whoever holds the rest.
pub proof fn shares_stay_within_the_supply(
    h: &mut History,
    s: &Snapshot,
    r: Report,
    user_shares: u128,
    total_shares: u128,
)
    requires
        call_ensures(invariant_solvency, (h, s), r),
    ensures
        r.violations@.contains(Violation::SharesExceedSupply { user_shares, total_shares })
            <==> s.spot_0 is Some && user_shares == s.spot_0->0.user_shares && total_shares
            == s.spot_0->0.total_shares && user_shares > total_shares,
{
    let v = Violation::SharesExceedSupply { user_shares, total_shares };
    reported_by_its_check(*old(h), *s, v);
    if let Some(m) = s.spot_0 {
        in_finding(
            m.user_shares > m.total_shares,
            Violation::SharesExceedSupply {
                user_shares: m.user_shares,
                total_shares: m.total_shares,
            },
            v,
        );
    }
}

/// Cranks that failed and liquidations that were refused are reported by their
/// number as soon as there is one. The failures are forgotten then; the refusals
/// are not.
pub proof fn recorded_failures_are_reported(
    h: &mut History,
    s: &Snapshot,
    r: Report,
    count: usize,
)
    requires
        call_ensures(invariant_solvency, (h, s), r),
    ensures
        r.violations@.contains(Violation::CranksReverted { count }) <==> old(h).crank_failures@.len() > 0 && count == old(h).crank_failures@.len() as usize,
        r.violations@.contains(Violation::LiquidationsRefused { count }) <==> old(h).liq_refusals@.len() > 0 && count == old(h).liq_refusals@.len() as usize,
        r.reverted_cranks@ == old(h).crank_failures@,
        final(h).crank_failures@.len() == 0,
        final(h).liq_refusals@ == old(h).liq_refusals@,
{
    let v = Violation::CranksReverted { count };
    let w = Violation::LiquidationsRefused { count };
    reported_by_its_check(*old(h), *s, v);
    reported_by_its_check(*old(h), *s, w);
    let c = old(h).crank_failures@.len();
    let l = old(h).liq_refusals@.len();
    in_finding(c > 0, Violation::CranksReverted { count: c as usize }, v);
    in_finding(l > 0, Violation::LiquidationsRefused { count: l as usize }, w);
}

/// A market sits where its own index says: a sweep reports one whose address is not
/// the derived one.
pub proof fn markets_sit_at_their_addresses(h: &mut History, s: &Snapshot, r: Report, market: Market)
    requires
        call_ensures(invariant_solvency, (h, s), r),
    ensures
        ({
            let (tag, index, address) = match market {
                Market::Spot0 => (
                    "spot_market",
                    if s.spot_0 is Some { Some(s.spot_0->0.market_index) } else { None },
                    s.addresses.spot_0,
                ),
                Market::Spot1 => (
                    "spot_market",
                    if s.spot_1 is Some { Some(s.spot_1->0.market_index) } else { None },
                    s.addresses.spot_1,
                ),
                Market::Pool1A => (
                    "spot_market",
                    if s.pool1_a is Some { Some(s.pool1_a->0.market_index) } else { None },
                    s.addresses.pool1_a,
                ),
                Market::Pool1B => (
                    "spot_market",
                    if s.pool1_b is Some { Some(s.pool1_b->0.market_index) } else { None },
                    s.addresses.pool1_b,
                ),
                Market::Perp => (
                    "perp_market",
                    if s.perp is Some { Some(s.perp->0.market_index) } else { None },
                    s.addresses.perp,
                ),
            };
            let derived = program_address(
                seq![text(tag), le(index->0 as int, 2)],
                s.addresses.program_id,
            );
            r.violations@.contains(Violation::MarketMisplaced { market }) <==> index is Some && !(
            derived matches Some(found) && found.0 == address)
        }),
{
    let v = Violation::MarketMisplaced { market };
    reported_by_its_check(*old(h), *s, v);
    in_placements(*s, v);
    let a = s.addresses;
    placement_finding("spot_market", spot_index(s.spot_0), Market::Spot0, a.spot_0, a.program_id, v);
    placement_finding("spot_market", spot_index(s.spot_1), Market::Spot1, a.spot_1, a.program_id, v);
    placement_finding("spot_market", spot_index(s.pool1_a), Market::Pool1A, a.pool1_a, a.program_id, v);
    placement_finding("spot_market", spot_index(s.pool1_b), Market::Pool1B, a.pool1_b, a.program_id, v);
    placement_finding("perp_market", perp_index(*s), Market::Perp, a.perp, a.program_id, v);
}

proof fn placement_finding(
    tag: &str,
    index: Option<u16>,
    id: Market,
    address: Pubkey,
    program_id: Pubkey,
    v: Violation,
)
    ensures
        placement_report(tag, index, id, address, program_id).contains(v) <==> index is Some
            && !derives(market_address(tag, index->0, program_id), address) && v
            == (Violation::MarketMisplaced { market: id }),
{
    if let Some(i) = index {
        in_finding(
            !derives(market_address(tag, i, program_id), address),
            Violation::MarketMisplaced { market: id },
            v,
        );
    }
}

// ---------------------------------------------------------------------------
// Samples: what one sweep remembers and the next one compares
// ---------------------------------------------------------------------------

/// An index that fell since the last sweep is reported: the borrow index always,
/// the deposit index unless more losses have been socialized since. An index that
/// did not fall is not, nor is a market that had not been seen.
pub proof fn fallen_indices_are_reported(
    h: &mut History,
    s: &Snapshot,
    r: Report,
    market: Market,
    before: u128,
    now: u128,
)
    requires
        call_ensures(invariant_solvency, (h, s), r),
    ensures
        ({
            let (prev, books) = match market {
                Market::Spot0 => (old(h).interest_0, s.spot_0),
                Market::Spot1 => (old(h).interest_1, s.spot_1),
                _ => (None, None),
            };
            &&& r.violations@.contains(Violation::DepositIndexFell { market, before, now })
                <==> prev is Some && books is Some && before == prev->0.deposit_index && now
                == books->0.cumulative_deposit_interest && now < before
                && books->0.total_social_loss <= prev->0.social_loss
            &&& r.violations@.contains(Violation::BorrowIndexFell { market, before, now })
                <==> prev is Some && books is Some && before == prev->0.borrow_index && now
                == books->0.cumulative_borrow_interest && now < before
        }),
{
    let v = Violation::DepositIndexFell { market, before, now };
    let w = Violation::BorrowIndexFell { market, before, now };
    index_findings(*old(h), *s, v);
    index_findings(*old(h), *s, w);
}

proof fn index_findings(h: History, s: Snapshot, v: Violation)
    requires
        v is DepositIndexFell || v is BorrowIndexFell,
    ensures
        full_report(h, s).contains(v) <==> index_finding_of(h.interest_0, Market::Spot0, s.spot_0, v)
            || index_finding_of(h.interest_1, Market::Spot1, s.spot_1, v),
{
    reported_by_its_check(h, s, v);
    in_concat(
        interest_report(h.interest_0, Market::Spot0, s.spot_0),
        interest_report(h.interest_1, Market::Spot1, s.spot_1),
        v,
    );
    index_finding(h.interest_0, Market::Spot0, s.spot_0, v);
    index_finding(h.interest_1, Market::Spot1, s.spot_1, v);
}

spec fn index_finding_of(
    prev: Option<InterestSample>,
    id: Market,
    market: Option<SpotMarket>,
    v: Violation,
) -> bool {
    prev is Some && market is Some && {
        ||| market->0.cumulative_deposit_interest < prev->0.deposit_index
            && market->0.total_social_loss <= prev->0.social_loss && v
            == (Violation::DepositIndexFell {
            market: id,
            before: prev->0.deposit_index,
            now: market->0.cumulative_deposit_interest,
        })
        ||| market->0.cumulative_borrow_interest < prev->0.borrow_index && v
            == (Violation::BorrowIndexFell {
            market: id,
            before: prev->0.borrow_index,
            now: market->0.cumulative_borrow_interest,
        })
    }
}

proof fn index_finding(
    prev: Option<InterestSample>,
    id: Market,
    market: Option<SpotMarket>,
    v: Violation,
)
    ensures
        interest_report(prev, id, market).contains(v) <==> index_finding_of(prev, id, market, v),
{
    if prev is Some && market is Some {
        let p = prev->0;
        let m = market->0;
        in_two(
            deposit_index_fell(p, interest_sample(m)),
            Violation::DepositIndexFell {
                market: id,
                before: p.deposit_index,
                now: m.cumulative_deposit_interest,
            },
            borrow_index_fell(p, interest_sample(m)),
            Violation::BorrowIndexFell {
                market: id,
                before: p.borrow_index,
                now: m.cumulative_borrow_interest,
            },
            v,
        );
    }
}

/// Funding that was skipped is reported: the clock moved on by a period or more (a
/// second, where the period is shorter) on a market in which anyone holds base,
/// the last rate is not zero, and neither cumulative rate has moved.
pub proof fn skipped_funding_is_reported(
    h: &mut History,
    s: &Snapshot,
    r: Report,
    before: i64,
    now: i64,
)
    requires
        call_ensures(invariant_solvency, (h, s), r),
    ensures
        r.violations@.contains(Violation::FundingDiscarded { before, now }) <==> old(h).funding is Some && s.perp is Some && before == old(h).funding->0.ts && now
            == s.perp->0.last_funding_rate_ts && now > before && now - before
            >= s.perp->0.funding_period && s.perp->0.last_funding_rate != 0 && !(
        s.perp->0.base_asset_amount_with_amm == 0 && s.perp->0.base_asset_amount_long == 0
            && s.perp->0.base_asset_amount_short == 0) && s.perp->0.cumulative_funding_rate_long
            == old(h).funding->0.long && s.perp->0.cumulative_funding_rate_short == old(h).funding->0.short,
{
    let v = Violation::FundingDiscarded { before, now };
    reported_by_its_check(*old(h), *s, v);
    if old(h).funding is Some && s.perp is Some {
        in_finding(
            funding_discarded(old(h).funding->0, s.perp->0),
            Violation::FundingDiscarded {
                before: old(h).funding->0.ts,
                now: s.perp->0.last_funding_rate_ts,
            },
            v,
        );
    }
}

/// What a sweep remembers is what it saw: the indices, losses, rates and clock of
/// the markets that could be read, and of each user that could be read the state
/// of its perp position. What could not be read of a market stays as it was; a user
/// that could not be read is forgotten.
pub proof fn a_sweep_remembers_what_it_saw(
    h: &mut History,
    s: &Snapshot,
    r: Report,
    user: int,
    p: PerpPosition,
)
    requires
        call_ensures(invariant_solvency, (h, s), r),
        0 <= user < s.users@.len(),
        s.users@[user] is Some ==> perp_slot(s.users@[user]->0, p),
    ensures
        s.spot_0 is None ==> final(h).interest_0 == old(h).interest_0,
        s.spot_1 is None ==> final(h).interest_1 == old(h).interest_1,
        s.perp is None ==> final(h).funding == old(h).funding,
        s.spot_0 is Some ==> final(h).interest_0 is Some && ({
            let kept = final(h).interest_0->0;
            &&& kept.deposit_index == s.spot_0->0.cumulative_deposit_interest
            &&& kept.borrow_index == s.spot_0->0.cumulative_borrow_interest
            &&& kept.social_loss == s.spot_0->0.total_social_loss
        }),
        s.spot_1 is Some ==> final(h).interest_1 is Some && ({
            let kept = final(h).interest_1->0;
            &&& kept.deposit_index == s.spot_1->0.cumulative_deposit_interest
            &&& kept.borrow_index == s.spot_1->0.cumulative_borrow_interest
            &&& kept.social_loss == s.spot_1->0.total_social_loss
        }),
        s.perp is Some ==> final(h).funding is Some && ({
            let kept = final(h).funding->0;
            &&& kept.long == s.perp->0.cumulative_funding_rate_long
            &&& kept.short == s.perp->0.cumulative_funding_rate_short
            &&& kept.ts == s.perp->0.last_funding_rate_ts
        }),
        final(h).exposure@.len() == s.users@.len(),
        final(h).reduce_only@.len() == s.users@.len(),
        s.users@[user] is None ==> final(h).exposure@[user] is None && final(h).reduce_only@[user] is None,
        s.users@[user] is Some ==> final(h).exposure@[user] is Some && ({
            let kept = final(h).exposure@[user]->0;
            &&& kept.bids == p.open_bids
            &&& kept.asks == p.open_asks
            &&& kept.base == p.base_asset_amount
            &&& kept.at_risk == s.users@[user]->0.being_liquidated
        }),
        s.users@[user] is Some ==> ({
            let kept = final(h).reduce_only@[user];
            &&& kept is Some <==> exists|k: int|
                0 <= k < s.users@[user]->0.perp_positions@.len() && (
                #[trigger] s.users@[user]->0.perp_positions@[k]).market_index == 0
            &&& kept is Some ==> kept->0.filled == reduce_only_filled(
                s.users@[user]->0.orders@,
            ) as u128
            &&& kept is Some && p.base_asset_amount >= 0 ==> kept->0.position == p.base_asset_amount
            &&& kept is Some && p.base_asset_amount < 0 ==> kept->0.position
                == -p.base_asset_amount
        }),
{
    if s.users@[user] is Some {
        slot_is_found(s.users@[user]->0, p);
    }
}

/// The state of an account in the perp market: the first of its positions there,
/// or nothing resting and nothing held.
pub open spec fn perp_slot(u: User, p: PerpPosition) -> bool {
    ||| exists|k: int|
        0 <= k < u.perp_positions@.len() && #[trigger] u.perp_positions@[k] == p && p.market_index
            == 0 && forall|j: int|
            0 <= j < k ==> (#[trigger] u.perp_positions@[j]).market_index != 0
    ||| (forall|j: int|
        0 <= j < u.perp_positions@.len() ==> (#[trigger] u.perp_positions@[j]).market_index != 0)
        && p.open_bids == 0 && p.open_asks == 0 && p.base_asset_amount == 0
}

proof fn slot_is_found(u: User, p: PerpPosition)
    requires
        perp_slot(u, p),
    ensures
        find_perp(u.perp_positions@, 0) is Some <==> exists|k: int|
            0 <= k < u.perp_positions@.len() && (#[trigger] u.perp_positions@[k]).market_index == 0,
        find_perp(u.perp_positions@, 0) is Some ==> find_perp(u.perp_positions@, 0)->0 == p,
        find_perp(u.perp_positions@, 0) is None ==> p.open_bids == 0 && p.open_asks == 0
            && p.base_asset_amount == 0,
{
    let positions = u.perp_positions@;
    if forall|j: int| 0 <= j < positions.len() ==> (#[trigger] positions[j]).market_index != 0 {
        the_first_slot_is_the_position(positions, 0, 0);
    } else {
        let k = choose|k: int|
            0 <= k < positions.len() && #[trigger] positions[k] == p && p.market_index == 0
                && forall|j: int| 0 <= j < k ==> (#[trigger] positions[j]).market_index != 0;
        the_first_slot_is_the_position(positions, 0, k);
    }
}

/// An account in liquidation before and after does not add exposure: orders that
/// would enlarge its position did not grow. Bids enlarge a long or flat one; asks,
/// which are negative and grow downwards, enlarge a short or flat one. Such growth
/// is reported, and nothing else is.
pub proof fn growing_exposure_is_reported(
    h: &mut History,
    s: &Snapshot,
    r: Report,
    user: usize,
    p: PerpPosition,
)
    requires
        call_ensures(invariant_solvency, (h, s), r),
        s.fits(),
    ensures
        user >= s.users@.len() || s.users@[user as int] is None || old(h).exposure@[user as int] is None ==> !r.violations@.contains(
            Violation::AtRiskExposureGrew { user },
        ),
        user < s.users@.len() && s.users@[user as int] is Some && old(h).exposure@[user as int] is Some && perp_slot(s.users@[user as int]->0, p) ==> ({
            let before = old(h).exposure@[user as int]->0;
            r.violations@.contains(Violation::AtRiskExposureGrew { user }) <==> before.at_risk
                && s.users@[user as int]->0.being_liquidated && {
                ||| before.base >= 0 && p.open_bids > before.bids
                ||| before.base <= 0 && p.open_asks < before.asks
            }
        }),
{
    let v = Violation::AtRiskExposureGrew { user };
    reported_by_its_check(*old(h), *s, v);
    in_exposure(old(h).exposure@, s.users@, s.users@.len(), v);
    assert forall|i: int| 0 <= i < s.users@.len() implies (exposure_report_of(
        old(h).exposure@[i],
        #[trigger] s.users@[i],
        i,
    ).contains(v) <==> i == user && old(h).exposure@[i] is Some && s.users@[i] is Some
        && exposure_grew(old(h).exposure@[i]->0, exposure_of(s.users@[i])->0)) by {
        if old(h).exposure@[i] is Some && s.users@[i] is Some {
            in_finding(
                exposure_grew(old(h).exposure@[i]->0, exposure_of(s.users@[i])->0),
                Violation::AtRiskExposureGrew { user: i as usize },
                v,
            );
        }
    }
    if user < s.users@.len() && s.users@[user as int] is Some && perp_slot(
        s.users@[user as int]->0,
        p,
    ) {
        slot_is_found(s.users@[user as int]->0, p);
    }
}

/// Two sweeps in a row, over the accounts alone: a user that is in liquidation at
/// both is reported by the second exactly where its bids rose while its base was
/// not short, or its asks fell while its base was not long.
pub proof fn exposure_between_two_sweeps(
    h: &mut History,
    g: &mut History,
    s: &Snapshot,
    t: &Snapshot,
    first: Report,
    second: Report,
    user: usize,
    earlier: PerpPosition,
    later: PerpPosition,
)
    requires
        call_ensures(invariant_solvency, (h, s), first),
        call_ensures(invariant_solvency, (g, t), second),
        *old(g) == *final(h),
        t.fits(),
        user < s.users@.len() == t.users@.len(),
        s.users@[user as int] is Some,
        t.users@[user as int] is Some,
        perp_slot(s.users@[user as int]->0, earlier),
        perp_slot(t.users@[user as int]->0, later),
    ensures
        ({
            let at_risk = s.users@[user as int]->0.being_liquidated
                && t.users@[user as int]->0.being_liquidated;
            let reported = second.violations@.contains(Violation::AtRiskExposureGrew { user });
            &&& at_risk && earlier.base_asset_amount <= 0 && later.open_asks < earlier.open_asks
                ==> reported
            &&& at_risk && earlier.base_asset_amount >= 0 && later.open_bids > earlier.open_bids
                ==> reported
            &&& reported ==> at_risk
            &&& reported && earlier.base_asset_amount > 0 ==> later.open_bids > earlier.open_bids
            &&& reported && earlier.base_asset_amount < 0 ==> later.open_asks < earlier.open_asks
            &&& reported && earlier.base_asset_amount == 0 ==> later.open_bids > earlier.open_bids
                || later.open_asks < earlier.open_asks
        }),
{
    a_sweep_remembers_what_it_saw(h, s, first, user as int, earlier);
    growing_exposure_is_reported(g, t, second, user, later);
}

/// A reduce-only order that filled more since the last sweep while the position
/// grew is reported, unless an open order of the market that is not reduce-only
/// may have caused it.
pub proof fn growing_by_reduction_is_reported(
    h: &mut History,
    s: &Snapshot,
    r: Report,
    user: usize,
    p: PerpPosition,
    before: u64,
    now: u64,
)
    requires
        call_ensures(invariant_solvency, (h, s), r),
        s.fits(),
    ensures
        user >= s.users@.len() || s.users@[user as int] is None || old(h).reduce_only@[user as int] is None ==> !r.violations@.contains(
            Violation::ReduceOnlyGrew { user, before, now },
        ),
        user < s.users@.len() && s.users@[user as int] is Some && old(h).reduce_only@[user as int] is Some && perp_slot(s.users@[user as int]->0, p) ==> ({
            let u = s.users@[user as int]->0;
            let kept = old(h).reduce_only@[user as int]->0;
            r.violations@.contains(Violation::ReduceOnlyGrew { user, before, now }) <==> {
                &&& before == kept.position
                &&& now == p.base_asset_amount || now == -p.base_asset_amount
                &&& now > before
                &&& reduce_only_filled(u.orders@) as u128 > kept.filled
                &&& exists|k: int|
                    0 <= k < u.perp_positions@.len() && (
                    #[trigger] u.perp_positions@[k]).market_index == 0
                &&& forall|k: int|
                    0 <= k < u.orders@.len() && (#[trigger] u.orders@[k]).status is Open
                        && u.orders@[k].market_type is Perp && u.orders@[k].market_index == 0
                        ==> u.orders@[k].reduce_only
            }
        }),
{
    let v = Violation::ReduceOnlyGrew { user, before, now };
    reported_by_its_check(*old(h), *s, v);
    in_reduce_only(old(h).reduce_only@, s.users@, s.users@.len(), v);
    assert forall|i: int| 0 <= i < s.users@.len() implies (reduce_only_report_of(
        old(h).reduce_only@[i],
        #[trigger] s.users@[i],
        i,
    ).contains(v) <==> i == user && old(h).reduce_only@[i] is Some && reduce_only_sample(
        s.users@[i],
    ) is Some && before == old(h).reduce_only@[i]->0.position && now == reduce_only_sample(
        s.users@[i],
    )->0.position && reduce_only_grew(
        old(h).reduce_only@[i]->0,
        reduce_only_sample(s.users@[i])->0,
        s.users@[i]->0.orders@,
    )) by {
        if old(h).reduce_only@[i] is Some && reduce_only_sample(s.users@[i]) is Some {
            let kept = old(h).reduce_only@[i]->0;
            let seen = reduce_only_sample(s.users@[i])->0;
            in_finding(
                reduce_only_grew(kept, seen, s.users@[i]->0.orders@),
                Violation::ReduceOnlyGrew {
                    user: i as usize,
                    before: kept.position,
                    now: seen.position,
                },
                v,
            );
        }
    }
    if user < s.users@.len() && s.users@[user as int] is Some && perp_slot(
        s.users@[user as int]->0,
        p,
    ) {
        slot_is_found(s.users@[user as int]->0, p);
    }
}

// ---------------------------------------------------------------------------
// Accounts
// ---------------------------------------------------------------------------

/// A borrower with nothing to liquidate for is flagged: a user with a borrow, no
/// deposit, no margin in an isolated position and no flag is reported, and one that
/// lacks any of the four is not. Freed margin on an account that is not flagged is
/// reported too.
pub proof fn naked_borrows_are_flagged(
    h: &mut History,
    s: &Snapshot,
    r: Report,
    user: usize,
    freed: u64,
)
    requires
        call_ensures(invariant_solvency, (h, s), r),
        s.fits(),
    ensures
        user >= s.users@.len() || s.users@[user as int] is None ==> !r.violations@.contains(
            Violation::UnflaggedBorrow { user },
        ) && !r.violations@.contains(Violation::StaleMarginFreed { user, freed }),
        user < s.users@.len() && s.users@[user as int] is Some ==> ({
            let u = s.users@[user as int]->0;
            &&& r.violations@.contains(Violation::UnflaggedBorrow { user }) <==> {
                &&& exists|k: int|
                    0 <= k < u.spot_positions@.len() && (
                    #[trigger] u.spot_positions@[k]).scaled_balance > 0
                        && u.spot_positions@[k].balance_type is Borrow
                &&& forall|k: int|
                    0 <= k < u.spot_positions@.len() && (
                    #[trigger] u.spot_positions@[k]).scaled_balance > 0
                        ==> u.spot_positions@[k].balance_type is Borrow
                &&& forall|k: int|
                    0 <= k < u.perp_positions@.len() ==> (
                    #[trigger] u.perp_positions@[k]).isolated_position_scaled_balance == 0
                &&& !u.being_liquidated
            }
            &&& r.violations@.contains(Violation::StaleMarginFreed { user, freed })
                <==> !u.being_liquidated && freed > 0 && freed == u.liquidation_margin_freed
        }),
{
    let v = Violation::UnflaggedBorrow { user };
    let w = Violation::StaleMarginFreed { user, freed };
    reported_by_its_check(*old(h), *s, v);
    reported_by_its_check(*old(h), *s, w);
    in_flags(s.users@, s.users@.len(), v);
    in_flags(s.users@, s.users@.len(), w);
    assert forall|i: int| 0 <= i < s.users@.len() implies (flags_report_of(
        #[trigger] s.users@[i],
        i,
    ).contains(v) <==> i == user && s.users@[i] is Some && unflagged_borrow(s.users@[i]->0)) && (
    flags_report_of(s.users@[i], i).contains(w) <==> i == user && s.users@[i] is Some
        && stale_margin_freed(s.users@[i]->0) && freed
        == s.users@[i]->0.liquidation_margin_freed) by {
        if let Some(u) = s.users@[i] {
            let a = Violation::UnflaggedBorrow { user: i as usize };
            let b = Violation::StaleMarginFreed {
                user: i as usize,
                freed: u.liquidation_margin_freed,
            };
            in_two(unflagged_borrow(u), a, stale_margin_freed(u), b, v);
            in_two(unflagged_borrow(u), a, stale_margin_freed(u), b, w);
        }
    }
    if user < s.users@.len() && s.users@[user as int] is Some {
        sides_of(s.users@[user as int]->0);
    }
}

proof fn sides_of(u: User)
    ensures
        has_balance(u.spot_positions@, BalanceType::Deposit) <==> !(forall|k: int|
            0 <= k < u.spot_positions@.len() && (#[trigger] u.spot_positions@[k]).scaled_balance
                > 0 ==> u.spot_positions@[k].balance_type is Borrow),
        has_balance(u.spot_positions@, BalanceType::Borrow) <==> exists|k: int|
            0 <= k < u.spot_positions@.len() && (#[trigger] u.spot_positions@[k]).scaled_balance
                > 0 && u.spot_positions@[k].balance_type is Borrow,
        has_isolated_collateral(u.perp_positions@) <==> !(forall|k: int|
            0 <= k < u.perp_positions@.len() ==> (
            #[trigger] u.perp_positions@[k]).isolated_position_scaled_balance == 0),
{
}

/// The numbers of a user's open orders are its own and below the next to be issued:
/// a sweep reports a number that two open orders share, and one that has not been
/// issued. Slots that are not open do not count.
pub proof fn order_numbers_are_sound(
    h: &mut History,
    s: &Snapshot,
    r: Report,
    user: usize,
    order_id: u32,
    next_order_id: u32,
)
    requires
        call_ensures(invariant_solvency, (h, s), r),
        s.fits(),
    ensures
        user >= s.users@.len() || s.users@[user as int] is None ==> !r.violations@.contains(
            Violation::DuplicateOrderId { user, order_id },
        ) && !r.violations@.contains(Violation::OrderIdAhead { user, order_id, next_order_id }),
        user < s.users@.len() && s.users@[user as int] is Some ==> ({
            let u = s.users@[user as int]->0;
            &&& r.violations@.contains(Violation::DuplicateOrderId { user, order_id })
                <==> exists|a: int, b: int|
                0 <= a < b < u.orders@.len() && (#[trigger] u.orders@[a]).status is Open && (
                #[trigger] u.orders@[b]).status is Open && u.orders@[a].order_id == order_id
                    && u.orders@[b].order_id == order_id
            &&& r.violations@.contains(Violation::OrderIdAhead { user, order_id, next_order_id })
                <==> next_order_id == u.next_order_id && order_id >= next_order_id && exists|k: int|
                0 <= k < u.orders@.len() && (#[trigger] u.orders@[k]).status is Open
                    && u.orders@[k].order_id == order_id
        }),
{
    let v = Violation::DuplicateOrderId { user, order_id };
    let w = Violation::OrderIdAhead { user, order_id, next_order_id };
    reported_by_its_check(*old(h), *s, v);
    reported_by_its_check(*old(h), *s, w);
    in_orders(s.users@, s.users@.len(), v);
    in_orders(s.users@, s.users@.len(), w);
    assert forall|i: int| 0 <= i < s.users@.len() implies (orders_part(
        #[trigger] s.users@[i],
        i,
    ).contains(v) ==> i == user && s.users@[i] is Some) && (orders_part(s.users@[i], i).contains(w)
        ==> i == user && s.users@[i] is Some) by {
        if let Some(u) = s.users@[i] {
            in_orders_of(u, i, u.orders@.len(), v);
            in_orders_of(u, i, u.orders@.len(), w);
        }
    }
    if user < s.users@.len() && s.users@[user as int] is Some {
        let u = s.users@[user as int]->0;
        in_orders_of(u, user as int, u.orders@.len(), v);
        in_orders_of(u, user as int, u.orders@.len(), w);
        order_findings(u, user, order_id, next_order_id);
        assert(orders_part(s.users@[user as int], user as int) == orders_report_of(
            u,
            user as int,
            u.orders@.len(),
        ));
    }
}

proof fn order_findings(u: User, user: usize, order_id: u32, next_order_id: u32)
    ensures
        (exists|k: int|
            0 <= k < u.orders@.len() && #[trigger] order_report_of(u, k, user as int).contains(
                Violation::DuplicateOrderId { user, order_id },
            )) <==> exists|a: int, b: int|
            0 <= a < b < u.orders@.len() && (#[trigger] u.orders@[a]).status is Open && (
            #[trigger] u.orders@[b]).status is Open && u.orders@[a].order_id == order_id
                && u.orders@[b].order_id == order_id,
        (exists|k: int|
            0 <= k < u.orders@.len() && #[trigger] order_report_of(u, k, user as int).contains(
                Violation::OrderIdAhead { user, order_id, next_order_id },
            )) <==> next_order_id == u.next_order_id && order_id >= next_order_id && exists|k: int|
            0 <= k < u.orders@.len() && (#[trigger] u.orders@[k]).status is Open
                && u.orders@[k].order_id == order_id,
{
    let v = Violation::DuplicateOrderId { user, order_id };
    let w = Violation::OrderIdAhead { user, order_id, next_order_id };
    assert forall|k: int| 0 <= k < u.orders@.len() implies (#[trigger] order_report_of(
        u,
        k,
        user as int,
    ).contains(v) <==> u.orders@[k].status is Open && u.orders@[k].order_id == order_id
        && id_repeats(u.orders@, k)) by {
        let o = u.orders@[k];
        let a = Violation::DuplicateOrderId { user, order_id: o.order_id };
        let b = Violation::OrderIdAhead {
            user,
            order_id: o.order_id,
            next_order_id: u.next_order_id,
        };
        in_two(id_repeats(u.orders@, k), a, o.order_id >= u.next_order_id, b, v);
    }
    assert forall|k: int| 0 <= k < u.orders@.len() implies (#[trigger] order_report_of(
        u,
        k,
        user as int,
    ).contains(w) <==> u.orders@[k].status is Open && u.orders@[k].order_id == order_id && order_id
        >= u.next_order_id && next_order_id == u.next_order_id) by {
        let o = u.orders@[k];
        let a = Violation::DuplicateOrderId { user, order_id: o.order_id };
        let b = Violation::OrderIdAhead {
            user,
            order_id: o.order_id,
            next_order_id: u.next_order_id,
        };
        in_two(id_repeats(u.orders@, k), a, o.order_id >= u.next_order_id, b, w);
    }
    if exists|a: int, b: int|
        0 <= a < b < u.orders@.len() && (#[trigger] u.orders@[a]).status is Open && (
        #[trigger] u.orders@[b]).status is Open && u.orders@[a].order_id == order_id
            && u.orders@[b].order_id == order_id {
        let (a, b) = choose|a: int, b: int|
            0 <= a < b < u.orders@.len() && (#[trigger] u.orders@[a]).status is Open && (
            #[trigger] u.orders@[b]).status is Open && u.orders@[a].order_id == order_id
                && u.orders@[b].order_id == order_id;
        assert(id_repeats(u.orders@, a));
        assert(order_report_of(u, a, user as int).contains(v));
    }
    if next_order_id == u.next_order_id && order_id >= next_order_id && exists|k: int|
        0 <= k < u.orders@.len() && (#[trigger] u.orders@[k]).status is Open
            && u.orders@[k].order_id == order_id {
        let k = choose|k: int|
            0 <= k < u.orders@.len() && (#[trigger] u.orders@[k]).status is Open
                && u.orders@[k].order_id == order_id;
        assert(order_report_of(u, k, user as int).contains(w));
    }
}

// ---------------------------------------------------------------------------
// Recording
// ---------------------------------------------------------------------------

/// A crank that failed is held against the exchange only where it should have
/// worked, and nothing else of the history changes.
pub proof fn only_owed_cranks_are_recorded(
    h: &mut History,
    crank: Crank,
    should_work: bool,
    worked: bool,
)
    requires
        call_ensures(History::record_crank, (h, crank, should_work, worked), ()),
    ensures
        should_work && !worked ==> final(h).crank_failures@.len() == old(h).crank_failures@.len()
            + 1 && final(h).crank_failures@.last() == crank,
        worked || !should_work ==> final(h).crank_failures@ == old(h).crank_failures@,
        forall|i: int|
            0 <= i < old(h).crank_failures@.len() ==> #[trigger] final(h).crank_failures@[i] == old(h).crank_failures@[i],
        final(h).liq_refusals == old(h).liq_refusals,
        final(h).exposure == old(h).exposure,
        final(h).reduce_only == old(h).reduce_only,
        final(h).interest_0 == old(h).interest_0,
        final(h).interest_1 == old(h).interest_1,
        final(h).funding == old(h).funding,
{
}

/// A new history holds nothing against anyone: a first sweep compares with nothing.
pub proof fn a_new_history_is_blank(users: usize, h: History)
    requires
        call_ensures(History::new, (users,), h),
    ensures
        h.interest_0 is None && h.interest_1 is None && h.funding is None,
        h.crank_failures@.len() == 0 && h.liq_refusals@.len() == 0,
        h.exposure@.len() == users && h.reduce_only@.len() == users,
        forall|i: int|
            0 <= i < users ==> #[trigger] h.exposure@[i] is None && h.reduce_only@[i] is None,
{
}

/// An exchange of ordinary size can be swept: up to sixty-four users with up to
/// sixty-four slots of each kind, every amount of tokens and base within the
/// exchange's own integers.
pub proof fn ordinary_exchanges_can_be_swept(s: Snapshot)
    requires
        s.users@.len() <= 64,
        s.usdc_wallets@.len() <= 64,
        s.sol_wallets@.len() <= 64,
        forall|i: int|
            0 <= i < s.users@.len() && (#[trigger] s.users@[i]) is Some
                ==> s.users@[i]->0.spot_positions@.len() <= 64
                && s.users@[i]->0.perp_positions@.len() <= 64 && s.users@[i]->0.orders@.len() <= 64,
        forall|i: int, j: int|
            0 <= i < s.users@.len() && (#[trigger] s.users@[i]) is Some && 0 <= j
                < s.users@[i]->0.spot_positions@.len() ==> (
            #[trigger] s.users@[i]->0.spot_positions@[j]).tokens <= 0xffff_ffff_ffff_ffff_ffff,
        s.spot_0 is Some ==> ordinary_spot(s.spot_0->0),
        s.spot_1 is Some ==> ordinary_spot(s.spot_1->0),
        s.perp is Some ==> ordinary_perp(s.perp->0),
    ensures
        s.fits(),
{
}

pub open spec fn ordinary_spot(m: SpotMarket) -> bool {
    &&& m.revenue_pool_tokens <= 0xffff_ffff_ffff_ffff_ffff
    &&& m.protocol_fee_pool_tokens <= 0xffff_ffff_ffff_ffff_ffff
    &&& m.revenue_receivable_tokens <= 0xffff_ffff_ffff_ffff_ffff
}

pub open spec fn ordinary_perp(m: PerpMarket) -> bool {
    &&& m.pnl_pool_tokens <= 0xffff_ffff_ffff_ffff_ffff
    &&& m.fee_pool_tokens <= 0xffff_ffff_ffff_ffff_ffff
    &&& m.protocol_fee_pool_tokens <= 0xffff_ffff_ffff_ffff_ffff
    &&& m.pending_if_fee <= 0xffff_ffff_ffff_ffff_ffff
    &&& m.bankruptcy_if_floor <= 0xffff_ffff_ffff_ffff_ffff
    &&& -0xffff_ffff_ffff_ffff_ffff <= m.base_asset_amount_long <= 0xffff_ffff_ffff_ffff_ffff
    &&& -0xffff_ffff_ffff_ffff_ffff <= m.base_asset_amount_short <= 0xffff_ffff_ffff_ffff_ffff
    &&& -0xffff_ffff_ffff_ffff_ffff <= m.base_asset_amount_with_amm <= 0xffff_ffff_ffff_ffff_ffff
}

} // verus!
