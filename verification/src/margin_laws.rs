//! What a judgement of solvency weighs, and how much a borrow to the limit takes.

use vstd::prelude::*;
use crate::invariants::History;
use crate::margin::{
    borrow_limit, borrow_to_margin_limit, deposits_are_worth_something, deposits_within_limits,
    holdings, is_unconditionally_insolvent, isolated_collateral, perp_holding, perp_holdings,
    perp_net, quote_deposits, spot_holding, spot_holdings, total, total_of_both,
    valuation_within_limits,
};
use crate::model::{BalanceType, PerpPosition, SpotPosition, User};
use crate::sum_laws::sum_to;

verus! {

// ---------------------------------------------------------------------------
// Net equity
// ---------------------------------------------------------------------------

/// What an account is worth: the value of its deposits less that of its borrows,
/// the collateral inside its isolated positions, and of each perp position the base
/// at the live price, long or short, with the quote that was paid or is owed.
pub open spec fn net_equity(
    user: User,
    price_1: i64,
    price_perp: i64,
    deposit_interest: u128,
) -> int {
    sum_to(
        user.spot_positions@.len(),
        |i: int| spot_equity(user.spot_positions@[i], price_1),
    ) + sum_to(
        user.perp_positions@.len(),
        |i: int|
            user.perp_positions@[i].isolated_position_scaled_balance * deposit_interest
                / 10_000_000_000_000,
    ) + sum_to(
        user.perp_positions@.len(),
        |i: int|
            base_value(user.perp_positions@[i].base_asset_amount as int, price_perp as int)
                + user.perp_positions@[i].quote_asset_amount,
    )
}

/// A balance at the live price: market 1 at the price that is read, nine decimals;
/// market 3 at one, nine decimals; the others at one, six decimals.
pub open spec fn spot_equity(p: SpotPosition, price_1: i64) -> int {
    let value = if p.scaled_balance == 0 {
        0
    } else if p.market_index == 1 {
        p.tokens * price_1 / 1_000_000_000
    } else if p.market_index == 3 {
        p.tokens * 1_000_000 / 1_000_000_000
    } else {
        p.tokens as int
    };
    match p.balance_type {
        BalanceType::Deposit => value,
        BalanceType::Borrow => -value,
    }
}

/// Base at a price, toward zero: the same magnitude for a long as for a short.
pub open spec fn base_value(base: int, price: int) -> int {
    if base >= 0 {
        base * price / 1_000_000_000
    } else {
        -(-base * price / 1_000_000_000)
    }
}

/// An account is judged insolvent exactly where it is worth less than nothing, and
/// never without both prices.
pub proof fn net_equity_decides_solvency(
    user: &User,
    price_1: i64,
    price_perp: i64,
    deposit_interest: u128,
    r: bool,
)
    requires
        call_ensures(
            is_unconditionally_insolvent,
            (user, price_1, price_perp, deposit_interest),
            r,
        ),
    ensures
        price_1 > 0 && price_perp > 0 ==> (r <==> net_equity(
            *user,
            price_1,
            price_perp,
            deposit_interest,
        ) < 0),
        price_1 <= 0 || price_perp <= 0 ==> !r,
{
    if price_1 > 0 && price_perp > 0 {
        assets_less_debts(*user, price_1, price_perp, deposit_interest);
    }
}

/// Assets less debts are the net equity.
pub proof fn assets_less_debts(
    user: User,
    price_1: i64,
    price_perp: i64,
    deposit_interest: u128,
)
    requires
        price_1 > 0,
        price_perp > 0,
    ensures
        ({
            let held = holdings(user, price_1, price_perp, deposit_interest);
            total(held, false) - total(held, true) == net_equity(
                user,
                price_1,
                price_perp,
                deposit_interest,
            )
        }),
{
    let spot = user.spot_positions@;
    let perp = user.perp_positions@;
    let a = spot_holdings(spot, price_1);
    let b = perp_holdings(perp, price_perp, deposit_interest);
    total_of_both(a, b, false);
    total_of_both(a, b, true);
    spot_equity_adds_up(spot, price_1, spot.len());
    perp_equity_adds_up(perp, price_perp, deposit_interest, perp.len());
    assert(spot.take(spot.len() as int) =~= spot);
    assert(perp.take(perp.len() as int) =~= perp);
}

proof fn spot_equity_adds_up(positions: Seq<SpotPosition>, price_1: i64, n: nat)
    requires
        n <= positions.len(),
        price_1 > 0,
    ensures
        total(spot_holdings(positions.take(n as int), price_1), false) - total(
            spot_holdings(positions.take(n as int), price_1),
            true,
        ) == sum_to(n, |i: int| spot_equity(positions[i], price_1)),
    decreases n,
{
    let held = spot_holdings(positions.take(n as int), price_1);
    if n > 0 {
        spot_equity_adds_up(positions, price_1, (n - 1) as nat);
        assert(held.drop_last() =~= spot_holdings(positions.take(n - 1), price_1));
        assert(held.last() == spot_holding(positions[n - 1], price_1));
        let p = positions[n - 1];
        assert(p.tokens * 1_000_000int / 1_000_000 == p.tokens) by (nonlinear_arith);
    }
}

proof fn perp_equity_adds_up(
    positions: Seq<PerpPosition>,
    price: i64,
    deposit_interest: u128,
    n: nat,
)
    requires
        n <= positions.len(),
        price > 0,
    ensures
        total(perp_holdings(positions.take(n as int), price, deposit_interest), false) - total(
            perp_holdings(positions.take(n as int), price, deposit_interest),
            true,
        ) == sum_to(
            n,
            |i: int|
                positions[i].isolated_position_scaled_balance * deposit_interest
                    / 10_000_000_000_000,
        ) + sum_to(
            n,
            |i: int|
                base_value(positions[i].base_asset_amount as int, price as int)
                    + positions[i].quote_asset_amount,
        ),
    decreases n,
{
    if n > 0 {
        let p = positions[n - 1];
        let before = positions.take(n - 1);
        perp_equity_adds_up(positions, price, deposit_interest, (n - 1) as nat);
        assert(positions.take(n as int).drop_last() =~= before);
        assert(positions.take(n as int).last() == p);
        let earlier = perp_holdings(before, price, deposit_interest);
        let with_margin = earlier.push(isolated_collateral(p, deposit_interest));
        let all = with_margin.push(perp_holding(p, price));
        assert(perp_holdings(positions.take(n as int), price, deposit_interest) == all);
        assert(all.drop_last() =~= with_margin);
        assert(with_margin.drop_last() =~= earlier);
        assert(total(with_margin, false) == total(earlier, false) + isolated_collateral(
            p,
            deposit_interest,
        ).value);
        assert(total(with_margin, true) == total(earlier, true));
        signed_value(p, price);
    }
}

proof fn signed_value(p: PerpPosition, price: i64)
    requires
        price > 0,
    ensures
        perp_net(p, price) == base_value(p.base_asset_amount as int, price as int)
            + p.quote_asset_amount,
{
    let b = p.base_asset_amount as int;
    let c = price as int;
    assert(b >= 0 ==> b * c >= 0) by (nonlinear_arith)
        requires
            c > 0,
    ;
    assert(b < 0 ==> b * c < 0) by (nonlinear_arith)
        requires
            c > 0,
    ;
    assert(-(b * c) == -b * c) by (nonlinear_arith);
}

/// Closing a position at the live price leaves the judgement as it was: two
/// accounts that differ in one position only, where the one holds base that is
/// worth exactly what the other has been paid more, are judged alike. So it is for
/// a long and for a short.
pub proof fn closing_at_the_live_price_changes_nothing(
    open: &User,
    closed: &User,
    j: int,
    price_1: i64,
    price_perp: i64,
    deposit_interest: u128,
    r: bool,
    q: bool,
)
    requires
        call_ensures(
            is_unconditionally_insolvent,
            (open, price_1, price_perp, deposit_interest),
            r,
        ),
        call_ensures(
            is_unconditionally_insolvent,
            (closed, price_1, price_perp, deposit_interest),
            q,
        ),
        closed.spot_positions@ == open.spot_positions@,
        closed.perp_positions@.len() == open.perp_positions@.len(),
        0 <= j < open.perp_positions@.len(),
        forall|i: int|
            0 <= i < open.perp_positions@.len() && i != j ==> #[trigger] closed.perp_positions@[i]
                == open.perp_positions@[i],
        closed.perp_positions@[j].isolated_position_scaled_balance
            == open.perp_positions@[j].isolated_position_scaled_balance,
        closed.perp_positions@[j].base_asset_amount == 0,
        open.perp_positions@[j].base_asset_amount * price_perp == (
        closed.perp_positions@[j].quote_asset_amount - open.perp_positions@[j].quote_asset_amount)
            * 1_000_000_000,
    ensures
        r == q,
{
    if price_1 > 0 && price_perp > 0 {
        net_equity_decides_solvency(open, price_1, price_perp, deposit_interest, r);
        net_equity_decides_solvency(closed, price_1, price_perp, deposit_interest, q);
        let n = open.perp_positions@.len();
        let a = open.perp_positions@;
        let b = closed.perp_positions@;
        let base = a[j].base_asset_amount as int;
        let gain = b[j].quote_asset_amount - a[j].quote_asset_amount;
        assert(base_value(base, price_perp as int) == gain) by {
            if base >= 0 {
                assert(gain * 1_000_000_000 / 1_000_000_000 == gain);
            } else {
                assert(-base * price_perp == -(base * price_perp)) by (nonlinear_arith);
                assert(-gain * 1_000_000_000 / 1_000_000_000 == -gain);
            }
        }
        assert(base_value(0, price_perp as int) == 0) by {
            assert(0 * price_perp == 0);
        }
        same_sums(
            n,
            |i: int| a[i].isolated_position_scaled_balance * deposit_interest / 10_000_000_000_000,
            |i: int| b[i].isolated_position_scaled_balance * deposit_interest / 10_000_000_000_000,
        );
        same_sums(
            n,
            |i: int|
                base_value(a[i].base_asset_amount as int, price_perp as int)
                    + a[i].quote_asset_amount,
            |i: int|
                base_value(b[i].base_asset_amount as int, price_perp as int)
                    + b[i].quote_asset_amount,
        );
        same_sums(
            open.spot_positions@.len(),
            |i: int| spot_equity(open.spot_positions@[i], price_1),
            |i: int| spot_equity(closed.spot_positions@[i], price_1),
        );
    }
}

proof fn same_sums(n: nat, f: spec_fn(int) -> int, g: spec_fn(int) -> int)
    requires
        forall|i: int| 0 <= i < n ==> #[trigger] f(i) == g(i),
    ensures
        sum_to(n, f) == sum_to(n, g),
    decreases n,
{
    if n > 0 {
        same_sums((n - 1) as nat, f, g);
        assert(f(n - 1) == g(n - 1));
    }
}

/// What an account owes can be judged wherever each product of a balance and its
/// price fits: sixty-four slots of `u64` tokens at any price do.
pub proof fn ordinary_accounts_can_be_judged(user: &User, price_1: i64, deposit_interest: u128, r: bool)
    requires
        call_ensures(valuation_within_limits, (user, price_1, deposit_interest), r),
        user.spot_positions@.len() <= 64,
        user.perp_positions@.len() <= 64,
        price_1 > 0,
        deposit_interest <= 0x7fff_ffff_ffff_ffff,
        forall|i: int|
            0 <= i < user.spot_positions@.len() ==> (#[trigger] user.spot_positions@[i]).tokens
                <= u64::MAX,
    ensures
        r,
{
    assert forall|i: int| 0 <= i < user.spot_positions@.len() implies crate::margin::spot_fits(
        #[trigger] user.spot_positions@[i],
        price_1,
    ) by {
        let t = user.spot_positions@[i].tokens as int;
        let c = crate::margin::spot_price(user.spot_positions@[i].market_index, price_1);
        assert(t * c <= 0xffff_ffff_ffff_ffff * 0x7fff_ffff_ffff_ffff) by (nonlinear_arith)
            requires
                0 <= t <= 0xffff_ffff_ffff_ffff,
                0 < c <= 0x7fff_ffff_ffff_ffff,
        ;
    }
    assert forall|i: int| 0 <= i < user.perp_positions@.len() implies (
    #[trigger] user.perp_positions@[i]).isolated_position_scaled_balance * deposit_interest
        <= i128::MAX by {
        let t = user.perp_positions@[i].isolated_position_scaled_balance as int;
        assert(t * deposit_interest <= 0xffff_ffff_ffff_ffff * 0x7fff_ffff_ffff_ffff)
            by (nonlinear_arith)
            requires
                0 <= t <= 0xffff_ffff_ffff_ffff,
                0 <= deposit_interest <= 0x7fff_ffff_ffff_ffff,
        ;
    }
}

// ---------------------------------------------------------------------------
// Refusals
// ---------------------------------------------------------------------------

/// A refusal is held against the exchange exactly where it called a victim healthy
/// that was insolvent, and both oracles were fresh; nothing else of the history
/// changes.
pub proof fn only_wrong_refusals_are_recorded(
    h: &mut History,
    worked: bool,
    error_code: Option<u32>,
    insolvent_before: bool,
    spot_oracle_fresh: bool,
    perp_oracle_fresh: bool,
)
    requires
        call_ensures(
            History::record_liquidation,
            (h, worked, error_code, insolvent_before, spot_oracle_fresh, perp_oracle_fresh),
            (),
        ),
    ensures
        final(h).liq_refusals@.len() == old(h).liq_refusals@.len() || final(h).liq_refusals@.len()
            == old(h).liq_refusals@.len() + 1,
        final(h).liq_refusals@.len() > old(h).liq_refusals@.len() <==> !worked && error_code
            is Some && error_code->0 == 6004 && insolvent_before && spot_oracle_fresh
            && perp_oracle_fresh,
        forall|i: int|
            0 <= i < old(h).liq_refusals@.len() ==> #[trigger] final(h).liq_refusals@[i] == old(h).liq_refusals@[i],
        final(h).crank_failures == old(h).crank_failures,
        final(h).exposure == old(h).exposure,
        final(h).reduce_only == old(h).reduce_only,
        final(h).interest_0 == old(h).interest_0,
        final(h).interest_1 == old(h).interest_1,
        final(h).funding == old(h).funding,
{
}

// ---------------------------------------------------------------------------
// Borrowing to the limit
// ---------------------------------------------------------------------------

/// A borrow to the limit takes the share it was asked for and no more: its value at
/// a liability weight of 1.2 is that share of the collateral, but for what three
/// divisions round down.
pub proof fn a_borrow_takes_its_share_of_the_limit(user: &User, price: i64, pct: u64, r: Option<u64>)
    requires
        call_ensures(borrow_to_margin_limit, (user, price, pct), r),
        quote_deposits(user.spot_positions@) * 1_000_000_000 <= u128::MAX,
        quote_deposits(user.spot_positions@) * 1_000_000_000 * pct <= u128::MAX,
    ensures
        price <= 0 ==> r is None,
        quote_deposits(user.spot_positions@) == 0 ==> r is None,
        pct == 0 ==> r is None,
        r matches Some(amount) ==> {
            let collateral = quote_deposits(user.spot_positions@);
            let share = pct * collateral * 10_000 * 1_000_000_000;
            &&& amount * 100 * price * 12_000 <= share
            &&& (amount + 1) * 100 * price * 12_000 > share - pct * (12_000 * 1_000_000_000
                + 12_000 * price)
        },
{
    let c = quote_deposits(user.spot_positions@);
    deposits_are_worth_something(user.spot_positions@);
    if price > 0 && c > 0 {
        limit_is_tight(c, price as int, pct as int);
        assert(borrow_limit(c, price, pct) == c * 10_000 / 12_000 * 1_000_000_000 / price as int
            * pct / 100);
    }
}

proof fn limit_is_tight(c: int, price: int, pct: int)
    requires
        c > 0,
        price > 0,
        pct >= 0,
        c * 1_000_000_000 <= u128::MAX,
        c * 1_000_000_000 * pct <= u128::MAX,
    ensures
        ({
            let a = c * 10_000 / 12_000;
            let b = a * 1_000_000_000 / price;
            let amount = b * pct / 100;
            let share = pct * c * 10_000 * 1_000_000_000;
            &&& a * 1_000_000_000 <= u128::MAX
            &&& b * pct <= u128::MAX
            &&& b >= 0
            &&& pct == 0 ==> amount == 0
            &&& amount * 100 * price * 12_000 <= share
            &&& (amount + 1) * 100 * price * 12_000 > share - pct * (12_000 * 1_000_000_000
                + 12_000 * price)
        }),
{
    let a = c * 10_000 / 12_000;
    let b = a * 1_000_000_000 / price;
    let amount = b * pct / 100;
    let g = a * 1_000_000_000;
    assert(0 <= a <= c);
    assert(b * price <= g < (b + 1) * price) by {
        vstd::arithmetic::div_mod::lemma_fundamental_div_mod(g, price);
        vstd::arithmetic::div_mod::lemma_mod_bound(g, price);
        assert(g == price * b + g % price);
        assert(price * b == b * price && (b + 1) * price == b * price + price) by (nonlinear_arith);
    }
    assert(0 <= b <= g) by (nonlinear_arith)
        requires
            b * price <= g < (b + 1) * price,
            price > 0,
            g >= 0,
    ;
    assert(b * pct <= g * pct <= c * 1_000_000_000 * pct) by (nonlinear_arith)
        requires
            b <= g <= c * 1_000_000_000,
            pct >= 0,
    ;
    let p = b * pct;
    assert(amount * 100 <= p < (amount + 1) * 100);
    // One rounding at a time.
    assert(amount * 100 * price <= p * price < (amount + 1) * 100 * price) by (nonlinear_arith)
        requires
            amount * 100 <= p < (amount + 1) * 100,
            price > 0,
    ;
    assert(p * price == b * price * pct) by (nonlinear_arith)
        requires
            p == b * pct,
    ;
    assert(b * price * pct <= g * pct) by (nonlinear_arith)
        requires
            b * price <= g,
            pct >= 0,
    ;
    assert((b + 1) * price == b * price + price) by (nonlinear_arith);
    assert((g - price) * pct <= b * price * pct) by (nonlinear_arith)
        requires
            g - price <= b * price,
            pct >= 0,
    ;
    let k = c * 10_000;
    assert(g * 12_000 <= k * 1_000_000_000);
    assert(g * 12_000 >= (k - 12_000) * 1_000_000_000);
    assert(g * pct * 12_000 == (g * 12_000) * pct) by (nonlinear_arith);
    assert((g * 12_000) * pct <= (k * 1_000_000_000) * pct) by (nonlinear_arith)
        requires
            g * 12_000 <= k * 1_000_000_000,
            pct >= 0,
    ;
    assert((g * 12_000) * pct >= ((k - 12_000) * 1_000_000_000) * pct) by (nonlinear_arith)
        requires
            g * 12_000 >= (k - 12_000) * 1_000_000_000,
            pct >= 0,
    ;
    assert((k * 1_000_000_000) * pct == pct * c * 10_000 * 1_000_000_000) by (nonlinear_arith)
        requires
            k == c * 10_000,
    ;
    assert(((k - 12_000) * 1_000_000_000) * pct == (k * 1_000_000_000) * pct - pct * (12_000
        * 1_000_000_000)) by (nonlinear_arith);
    assert((g - price) * pct == g * pct - price * pct) by (nonlinear_arith);
    assert(pct * (12_000 * 1_000_000_000 + 12_000 * price) == pct * (12_000 * 1_000_000_000)
        + 12_000 * (price * pct)) by (nonlinear_arith);
    if pct == 0 {
        assert(b * pct == 0) by (nonlinear_arith)
            requires
                pct == 0,
        ;
    }
}

/// Deposits up to a ten-thousandth of what a `u128` holds can be weighted.
pub proof fn ordinary_deposits_can_be_weighted(user: &User, r: bool)
    requires
        call_ensures(deposits_within_limits, (user,), r),
    ensures
        quote_deposits(user.spot_positions@) <= 0x1_0000_0000_0000_0000_0000_0000_0000 ==> r,
{
}

} // verus!
