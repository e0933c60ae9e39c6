//! What each breach of the liquidation scenario says of its accounts, and when it
//! is owed.

use vstd::prelude::*;
use crate::liq::{
    action_warp, all_flags_report, backed, backing, breach, check_all_invariants, flags_report,
    full_report, has_side, oi_report, regr_255_floored_if_tranche, regr_267_perp_before_spot,
    regr_275_equity_floor_liq, regr_306_amm_phantom_funding, shares_report, solvency_report,
    tokens_to_scaled, tranche, tranche_is_backed, tranche_report, Breach, Snapshot, TrancheState,
};
use crate::model::{net_user_tokens, BalanceType, User};

verus! {

// ---------------------------------------------------------------------------
// Where a breach can come from
// ---------------------------------------------------------------------------

proof fn in_concat(a: Seq<Breach>, b: Seq<Breach>, v: Breach)
    ensures
        (a + b).contains(v) <==> a.contains(v) || b.contains(v),
{
    if a.contains(v) {
        let i = choose|i: int| 0 <= i < a.len() && a[i] == v;
        assert((a + b)[i] == v);
    }
    if b.contains(v) {
        let i = choose|i: int| 0 <= i < b.len() && b[i] == v;
        assert((a + b)[a.len() + i] == v);
    }
}

proof fn in_breach(found: bool, w: Breach, v: Breach)
    ensures
        breach(found, w).contains(v) <==> found && v == w,
{
    if found {
        assert(breach(found, w)[0] == w);
    }
}

proof fn in_two(f1: bool, w1: Breach, f2: bool, w2: Breach, v: Breach)
    ensures
        (breach(f1, w1) + breach(f2, w2)).contains(v) <==> (f1 && v == w1) || (f2 && v == w2),
{
    in_concat(breach(f1, w1), breach(f2, w2), v);
    in_breach(f1, w1, v);
    in_breach(f2, w2, v);
}

proof fn in_flags(users: Seq<Option<User>>, n: int, v: Breach)
    requires
        0 <= n <= users.len(),
    ensures
        all_flags_report(users, n).contains(v) <==> exists|i: int|
            0 <= i < n && flags_report(#[trigger] users[i], i).contains(v),
    decreases n,
{
    if n > 0 {
        in_flags(users, n - 1, v);
        in_concat(all_flags_report(users, n - 1), flags_report(users[n - 1], n - 1), v);
    }
}

spec fn own_part(s: Snapshot, v: Breach) -> Seq<Breach> {
    match v {
        Breach::Insolvent { .. } => solvency_report(s),
        Breach::ConservationBroken { .. } => solvency_report(s),
        Breach::OpenInterest { .. } => oi_report(s),
        Breach::TrancheUnbacked { .. } => tranche_report(s),
        Breach::InsuranceDrained => breach(s.if_vault == 0, Breach::InsuranceDrained),
        Breach::BorrowWithoutCollateral { .. } => all_flags_report(s.users@, s.users@.len() as int),
        Breach::BankruptUnflagged { .. } => all_flags_report(s.users@, s.users@.len() as int),
        Breach::SharesExceedSupply { .. } => shares_report(s),
        Breach::SharesWithoutSupply { .. } => shares_report(s),
    }
}

proof fn kinds(s: Snapshot, v: Breach)
    ensures
        solvency_report(s).contains(v) ==> v is Insolvent || v is ConservationBroken,
        oi_report(s).contains(v) ==> v is OpenInterest,
        tranche_report(s).contains(v) ==> v is TrancheUnbacked,
        breach(s.if_vault == 0, Breach::InsuranceDrained).contains(v) ==> v is InsuranceDrained,
        shares_report(s).contains(v) ==> v is SharesExceedSupply || v is SharesWithoutSupply,
        all_flags_report(s.users@, s.users@.len() as int).contains(v)
            ==> v is BorrowWithoutCollateral || v is BankruptUnflagged,
{
    in_flags(s.users@, s.users@.len() as int, v);
}

proof fn reported_by_its_check(s: Snapshot, v: Breach)
    ensures
        full_report(s).contains(v) <==> own_part(s, v).contains(v),
{
    let a = solvency_report(s);
    let b = oi_report(s);
    let c = tranche_report(s);
    let d = breach(s.if_vault == 0, Breach::InsuranceDrained);
    let e = all_flags_report(s.users@, s.users@.len() as int);
    in_concat(a + b + c + d + e, shares_report(s), v);
    in_concat(a + b + c + d, e, v);
    in_concat(a + b + c, d, v);
    in_concat(a + b, c, v);
    in_concat(a, b, v);
    kinds(s, v);
}

// ---------------------------------------------------------------------------
// Findings
// ---------------------------------------------------------------------------

/// The vault covers what the users claim of it, net of what they owe, and the
/// tokens of four pools: the revenue pool, the revenue that the insurance fund is
/// owed, the profits' pool and the fees' pool. A sweep reports it exactly where it
/// covers less, and one that finds nothing has shown that it covers them all.
pub proof fn the_vault_covers_users_and_pools(s: &Snapshot, r: Vec<Breach>, vault: u64, owed: i128)
    requires
        call_ensures(check_all_invariants, (s,), r),
    ensures
        r@.contains(Breach::ConservationBroken { vault, backed: owed }) <==> s.spot is Some && vault
            == s.vault && ({
            let sum = net_user_tokens(s.users@, 0) + s.spot->0.revenue_pool_tokens
                + s.spot->0.revenue_receivable_tokens + (if s.perp is Some {
                s.perp->0.pnl_pool_tokens + s.perp->0.fee_pool_tokens
            } else {
                0
            });
            s.vault < sum && owed == sum as i128
        }),
        r@.len() == 0 && s.spot is Some && s.perp is Some ==> s.vault >= net_user_tokens(
            s.users@,
            0,
        ) + s.spot->0.revenue_pool_tokens + s.spot->0.revenue_receivable_tokens
            + s.perp->0.pnl_pool_tokens + s.perp->0.fee_pool_tokens,
        r@.len() == 0 && s.spot is Some && s.perp is None ==> s.vault >= net_user_tokens(
            s.users@,
            0,
        ) + s.spot->0.revenue_pool_tokens + s.spot->0.revenue_receivable_tokens,
{
    conservation_finding(*s, Breach::ConservationBroken { vault, backed: owed });
    if let Some(m) = s.spot {
        conservation_finding(
            *s,
            Breach::ConservationBroken {
                vault: s.vault,
                backed: backed(m, s.perp, s.users@) as i128,
            },
        );
    }
}

proof fn conservation_finding(s: Snapshot, v: Breach)
    requires
        v is ConservationBroken,
    ensures
        full_report(s).contains(v) <==> s.spot is Some && s.vault < backed(
            s.spot->0,
            s.perp,
            s.users@,
        ) && v == (Breach::ConservationBroken {
            vault: s.vault,
            backed: backed(s.spot->0, s.perp, s.users@) as i128,
        }),
{
    reported_by_its_check(s, v);
    if let Some(m) = s.spot {
        in_two(
            !m.vault_accepted,
            Breach::Insolvent { vault: s.vault },
            s.vault < backed(m, s.perp, s.users@),
            Breach::ConservationBroken {
                vault: s.vault,
                backed: backed(m, s.perp, s.users@) as i128,
            },
            v,
        );
    }
}

/// One more token in any one of the four pools is one more token to cover: the
/// sweep of an exchange with that token more, in the pool and in the vault, finds
/// the vault short exactly where it did before.
pub proof fn a_pool_token_is_covered_by_a_vault_token(
    s: &Snapshot,
    t: &Snapshot,
    before: Vec<Breach>,
    after: Vec<Breach>,
)
    requires
        call_ensures(check_all_invariants, (s,), before),
        call_ensures(check_all_invariants, (t,), after),
        s.spot is Some && t.spot is Some && s.perp is Some && t.perp is Some,
        t.users@ == s.users@,
        t.vault == s.vault + 1,
        t.spot->0.revenue_pool_tokens + t.spot->0.revenue_receivable_tokens
            + t.perp->0.pnl_pool_tokens + t.perp->0.fee_pool_tokens
            == s.spot->0.revenue_pool_tokens + s.spot->0.revenue_receivable_tokens
            + s.perp->0.pnl_pool_tokens + s.perp->0.fee_pool_tokens + 1,
    ensures
        (exists|owed: i128|
            before@.contains(Breach::ConservationBroken { vault: s.vault, backed: owed })) <==> (
        exists|owed: i128|
            after@.contains(Breach::ConservationBroken { vault: t.vault, backed: owed })),
{
    let a = backed(s.spot->0, s.perp, s.users@);
    let b = backed(t.spot->0, t.perp, t.users@);
    conservation_finding(
        *s,
        Breach::ConservationBroken { vault: s.vault, backed: a as i128 },
    );
    conservation_finding(
        *t,
        Breach::ConservationBroken { vault: t.vault, backed: b as i128 },
    );
    assert forall|owed: i128|
        before@.contains(
            Breach::ConservationBroken { vault: s.vault, backed: owed },
        ) implies s.vault < a by {
        conservation_finding(*s, Breach::ConservationBroken { vault: s.vault, backed: owed });
    }
    assert forall|owed: i128|
        after@.contains(
            Breach::ConservationBroken { vault: t.vault, backed: owed },
        ) implies t.vault < b by {
        conservation_finding(*t, Breach::ConservationBroken { vault: t.vault, backed: owed });
    }
}

/// A vault that the exchange rejects is reported, one that it accepts is not; an
/// insurance vault is reported where it is empty.
pub proof fn rejected_and_empty_vaults_are_reported(s: &Snapshot, r: Vec<Breach>, vault: u64)
    requires
        call_ensures(check_all_invariants, (s,), r),
    ensures
        r@.contains(Breach::Insolvent { vault }) <==> s.spot is Some && vault == s.vault
            && !s.spot->0.vault_accepted,
        r@.contains(Breach::InsuranceDrained) <==> s.if_vault == 0,
{
    let v = Breach::Insolvent { vault };
    reported_by_its_check(*s, v);
    reported_by_its_check(*s, Breach::InsuranceDrained);
    in_breach(s.if_vault == 0, Breach::InsuranceDrained, Breach::InsuranceDrained);
    if let Some(m) = s.spot {
        in_two(
            !m.vault_accepted,
            Breach::Insolvent { vault: s.vault },
            s.vault < backed(m, s.perp, s.users@),
            Breach::ConservationBroken {
                vault: s.vault,
                backed: backed(m, s.perp, s.users@) as i128,
            },
            v,
        );
    }
}

/// Longs and shorts net out to what the AMM carries, or are reported.
pub proof fn open_interest_nets_out(s: &Snapshot, r: Vec<Breach>, net_users: i128, amm: i128)
    requires
        call_ensures(check_all_invariants, (s,), r),
    ensures
        r@.contains(Breach::OpenInterest { net_users, amm }) <==> s.perp is Some && amm
            == s.perp->0.base_asset_amount_with_amm && ({
            let net = s.perp->0.base_asset_amount_long + s.perp->0.base_asset_amount_short;
            net != amm && net_users == net as i128
        }),
{
    let v = Breach::OpenInterest { net_users, amm };
    reported_by_its_check(*s, v);
    if let Some(p) = s.perp {
        in_breach(
            p.base_asset_amount_long + p.base_asset_amount_short != p.base_asset_amount_with_amm,
            Breach::OpenInterest {
                net_users: (p.base_asset_amount_long + p.base_asset_amount_short) as i128,
                amm: p.base_asset_amount_with_amm,
            },
            v,
        );
    }
}

/// The pending insurance fee, up to the floor, is backed by the tokens of the
/// profits' and the fees' pools together. It is reported exactly where both the fee
/// and the floor exceed them.
pub proof fn the_insurance_tranche_is_backed(s: &Snapshot, r: Vec<Breach>)
    requires
        call_ensures(check_all_invariants, (s,), r),
        s.fits(),
    ensures
        (exists|tokens: u128, share: u128|
            r@.contains(Breach::TrancheUnbacked { backing: tokens, tranche: share })) <==> s.spot
            is Some && s.perp is Some && s.perp->0.pending_if_fee > s.perp->0.pnl_pool_tokens
            + s.perp->0.fee_pool_tokens && s.perp->0.bankruptcy_if_floor
            > s.perp->0.pnl_pool_tokens + s.perp->0.fee_pool_tokens,
        forall|tokens: u128, share: u128| #[trigger]
            r@.contains(Breach::TrancheUnbacked { backing: tokens, tranche: share }) ==> tokens
                == s.perp->0.pnl_pool_tokens + s.perp->0.fee_pool_tokens && (share
                == s.perp->0.pending_if_fee || share == s.perp->0.bankruptcy_if_floor) && share
                <= s.perp->0.pending_if_fee && share <= s.perp->0.bankruptcy_if_floor,
{
    assert forall|tokens: u128, share: u128| #[trigger]
        r@.contains(
            Breach::TrancheUnbacked { backing: tokens, tranche: share },
        ) implies s.spot is Some && s.perp is Some && tokens == backing(
        s.perp->0.pnl_pool_tokens,
        s.perp->0.fee_pool_tokens,
    ) && share == tranche(s.perp->0.pending_if_fee, s.perp->0.bankruptcy_if_floor) && tokens
        < share by {
        tranche_finding(*s, Breach::TrancheUnbacked { backing: tokens, tranche: share });
    }
    if s.spot is Some && s.perp is Some {
        let p = s.perp->0;
        tranche_finding(
            *s,
            Breach::TrancheUnbacked {
                backing: backing(p.pnl_pool_tokens, p.fee_pool_tokens) as u128,
                tranche: tranche(p.pending_if_fee, p.bankruptcy_if_floor),
            },
        );
    }
}

proof fn tranche_finding(s: Snapshot, v: Breach)
    requires
        v is TrancheUnbacked,
    ensures
        full_report(s).contains(v) <==> s.spot is Some && s.perp is Some && backing(
            s.perp->0.pnl_pool_tokens,
            s.perp->0.fee_pool_tokens,
        ) < tranche(s.perp->0.pending_if_fee, s.perp->0.bankruptcy_if_floor) && v
            == (Breach::TrancheUnbacked {
            backing: backing(s.perp->0.pnl_pool_tokens, s.perp->0.fee_pool_tokens) as u128,
            tranche: tranche(s.perp->0.pending_if_fee, s.perp->0.bankruptcy_if_floor),
        }),
{
    reported_by_its_check(s, v);
    if s.spot is Some && s.perp is Some {
        let p = s.perp->0;
        in_breach(
            backing(p.pnl_pool_tokens, p.fee_pool_tokens) < tranche(
                p.pending_if_fee,
                p.bankruptcy_if_floor,
            ),
            Breach::TrancheUnbacked {
                backing: backing(p.pnl_pool_tokens, p.fee_pool_tokens) as u128,
                tranche: tranche(p.pending_if_fee, p.bankruptcy_if_floor),
            },
            v,
        );
    }
}

/// A loan needs a deposit or a flag, and a bankruptcy needs a flag: a user is
/// reported exactly where it has neither.
pub proof fn loans_and_bankruptcies_are_flagged(s: &Snapshot, r: Vec<Breach>, user: usize)
    requires
        call_ensures(check_all_invariants, (s,), r),
        s.fits(),
    ensures
        user >= s.users@.len() || s.users@[user as int] is None ==> !r@.contains(
            Breach::BorrowWithoutCollateral { user },
        ) && !r@.contains(Breach::BankruptUnflagged { user }),
        user < s.users@.len() && s.users@[user as int] is Some ==> ({
            let u = s.users@[user as int]->0;
            &&& r@.contains(Breach::BankruptUnflagged { user }) <==> u.bankrupt
                && !u.being_liquidated
            &&& r@.contains(Breach::BorrowWithoutCollateral { user }) <==> {
                &&& exists|k: int|
                    0 <= k < u.spot_positions@.len() && (
                    #[trigger] u.spot_positions@[k]).scaled_balance > 0
                        && u.spot_positions@[k].balance_type is Borrow
                &&& forall|k: int|
                    0 <= k < u.spot_positions@.len() && (
                    #[trigger] u.spot_positions@[k]).scaled_balance > 0
                        ==> u.spot_positions@[k].balance_type is Borrow
                &&& !u.being_liquidated
            }
        }),
{
    naked_finding(*s, user);
    bankrupt_finding(*s, user);
    if user < s.users@.len() && s.users@[user as int] is Some {
        sides_of(s.users@[user as int]->0);
    }
}

proof fn naked_finding(s: Snapshot, user: usize)
    requires
        s.fits(),
    ensures
        full_report(s).contains(Breach::BorrowWithoutCollateral { user }) <==> user < s.users@.len()
            && s.users@[user as int] is Some && naked(s.users@[user as int]->0),
{
    let v = Breach::BorrowWithoutCollateral { user };
    reported_by_its_check(s, v);
    in_flags(s.users@, s.users@.len() as int, v);
    assert forall|i: int| 0 <= i < s.users@.len() implies (flags_report(
        #[trigger] s.users@[i],
        i,
    ).contains(v) <==> i == user && s.users@[i] is Some && naked(s.users@[i]->0)) by {
        if let Some(u) = s.users@[i] {
            in_two(
                naked(u),
                Breach::BorrowWithoutCollateral { user: i as usize },
                u.bankrupt && !u.being_liquidated,
                Breach::BankruptUnflagged { user: i as usize },
                v,
            );
        }
    }
}

proof fn bankrupt_finding(s: Snapshot, user: usize)
    requires
        s.fits(),
    ensures
        full_report(s).contains(Breach::BankruptUnflagged { user }) <==> user < s.users@.len()
            && s.users@[user as int] is Some && s.users@[user as int]->0.bankrupt
            && !s.users@[user as int]->0.being_liquidated,
{
    let w = Breach::BankruptUnflagged { user };
    reported_by_its_check(s, w);
    in_flags(s.users@, s.users@.len() as int, w);
    assert forall|i: int| 0 <= i < s.users@.len() implies (flags_report(
        #[trigger] s.users@[i],
        i,
    ).contains(w) <==> i == user && s.users@[i] is Some && s.users@[i]->0.bankrupt
        && !s.users@[i]->0.being_liquidated) by {
        if let Some(u) = s.users@[i] {
            in_two(
                naked(u),
                Breach::BorrowWithoutCollateral { user: i as usize },
                u.bankrupt && !u.being_liquidated,
                Breach::BankruptUnflagged { user: i as usize },
                w,
            );
        }
    }
}

spec fn naked(u: User) -> bool {
    has_side(u.spot_positions@, BalanceType::Borrow) && !has_side(
        u.spot_positions@,
        BalanceType::Deposit,
    ) && !u.being_liquidated
}

proof fn sides_of(u: User)
    ensures
        has_side(u.spot_positions@, BalanceType::Deposit) <==> !(forall|k: int|
            0 <= k < u.spot_positions@.len() && (#[trigger] u.spot_positions@[k]).scaled_balance
                > 0 ==> u.spot_positions@[k].balance_type is Borrow),
        has_side(u.spot_positions@, BalanceType::Borrow) <==> exists|k: int|
            0 <= k < u.spot_positions@.len() && (#[trigger] u.spot_positions@[k]).scaled_balance
                > 0 && u.spot_positions@[k].balance_type is Borrow,
{
}

/// Shares beyond the supply are reported, and once more where there is no supply.
pub proof fn shares_stay_within_the_supply(
    s: &Snapshot,
    r: Vec<Breach>,
    user_shares: u128,
    total_shares: u128,
)
    requires
        call_ensures(check_all_invariants, (s,), r),
    ensures
        r@.contains(Breach::SharesExceedSupply { user_shares, total_shares }) <==> s.spot is Some
            && user_shares == s.spot->0.user_shares && total_shares == s.spot->0.total_shares
            && user_shares > total_shares,
        r@.contains(Breach::SharesWithoutSupply { user_shares }) <==> s.spot is Some && user_shares
            == s.spot->0.user_shares && s.spot->0.total_shares == 0 && user_shares > 0,
{
    let v = Breach::SharesExceedSupply { user_shares, total_shares };
    let w = Breach::SharesWithoutSupply { user_shares };
    reported_by_its_check(*s, v);
    reported_by_its_check(*s, w);
    if let Some(m) = s.spot {
        let a = Breach::SharesExceedSupply {
            user_shares: m.user_shares,
            total_shares: m.total_shares,
        };
        let b = Breach::SharesWithoutSupply { user_shares: m.user_shares };
        in_two(m.user_shares > m.total_shares, a, m.total_shares == 0 && m.user_shares > 0, b, v);
        in_two(m.user_shares > m.total_shares, a, m.total_shares == 0 && m.user_shares > 0, b, w);
    }
}

// ---------------------------------------------------------------------------
// Verdicts
// ---------------------------------------------------------------------------

/// A tranche is backed where the pools hold the whole fee or the whole floor.
pub proof fn a_tranche_needs_the_lesser_of_fee_and_floor(
    pending_if_fee: u128,
    floor: u128,
    pnl_tokens: u128,
    fee_tokens: u128,
    r: bool,
)
    requires
        call_ensures(tranche_is_backed, (pending_if_fee, floor, pnl_tokens, fee_tokens), r),
    ensures
        r <==> pending_if_fee <= pnl_tokens + fee_tokens || floor <= pnl_tokens + fee_tokens,
{
}

/// A fee sweep fails exactly where it leaves a tranche that the pools do not back
/// and there was one before.
pub proof fn a_fee_sweep_leaves_the_tranche_backed(
    before: &TrancheState,
    after: &TrancheState,
    r: bool,
)
    requires
        call_ensures(regr_255_floored_if_tranche, (before, after), r),
    ensures
        !r <==> before.pending_if_fee > 0 && before.floor > 0 && after.pending_if_fee
            > after.pnl_tokens + after.fee_tokens && after.floor > after.pnl_tokens
            + after.fee_tokens,
{
}

/// The loss on the perp market is resolved first, and a tripped liquidator is
/// barred: the verdict fails exactly where the call got through.
pub proof fn what_must_be_refused_was_refused(worked: bool, r: bool)
    ensures
        call_ensures(regr_267_perp_before_spot, (worked,), r) ==> r != worked,
        call_ensures(regr_275_equity_floor_liq, (worked,), r) ==> r != worked,
{
}

/// A socialized loss pays the AMM nothing: the verdict holds only of a resolution
/// that worked and moved the funding, and fails where the AMM was paid.
pub proof fn socialized_losses_pay_the_amm_nothing(
    worked: bool,
    before: i128,
    after: i128,
    payment: i128,
    r: bool,
)
    requires
        call_ensures(regr_306_amm_phantom_funding, (worked, before, after, payment), r),
    ensures
        payment != 0 ==> !r,
        !worked ==> !r,
        before == after ==> !r,
        worked && before != after && payment == 0 ==> r,
{
}

/// A scaled balance is a thousand times its tokens, until the product leaves the
/// machine's integers; from there on it no longer grows.
pub proof fn tokens_are_scaled_by_a_thousand(tokens: u128, r: u128)
    requires
        call_ensures(tokens_to_scaled, (tokens,), r),
    ensures
        tokens * 1_000_000_000 <= u128::MAX ==> r == tokens * 1_000,
        tokens * 1_000_000_000 > u128::MAX ==> r == u128::MAX / 1_000_000,
{
}

/// A warp moves the slot on, by as much as was asked.
pub proof fn warps_move_on(slot: u64, slots: u64, r: u64)
    requires
        call_ensures(action_warp, (slot, slots), r),
    ensures
        r - slot == slots,
{
}

/// An exchange of ordinary size can be swept.
pub proof fn ordinary_exchanges_can_be_swept(s: Snapshot)
    requires
        s.users@.len() <= 64,
        forall|i: int|
            0 <= i < s.users@.len() && (#[trigger] s.users@[i]) is Some
                ==> s.users@[i]->0.spot_positions@.len() <= 64
                && s.users@[i]->0.perp_positions@.len() <= 64 && s.users@[i]->0.orders@.len() <= 64,
        forall|i: int, j: int|
            0 <= i < s.users@.len() && (#[trigger] s.users@[i]) is Some && 0 <= j
                < s.users@[i]->0.spot_positions@.len() ==> (
            #[trigger] s.users@[i]->0.spot_positions@[j]).tokens <= 0xffff_ffff_ffff_ffff_ffff,
        s.spot is Some ==> crate::sweep_laws::ordinary_spot(s.spot->0),
        s.perp is Some ==> crate::sweep_laws::ordinary_perp(s.perp->0),
    ensures
        s.fits(),
{
}

} // verus!
