//! Judging solvency, and sizing a borrow against the margin limit.

use vstd::prelude::*;
use crate::constants::{BASE_PRECISION, NUM_USERS, PRICE_PRECISION};
use crate::fixture::Fixture;
use crate::invariants::{History, Refusal};
use crate::keys::Transaction;
use crate::model::{BalanceType, PerpPosition, SpotPosition, User};

verus! {

// ---------------------------------------------------------------------------
// What an account holds, at full weight
// ---------------------------------------------------------------------------

/// Something an account owns or owes, in quote units.
pub struct Holding {
    pub value: int,
    pub owed: bool,
}

/// The price of a spot market's token: that of market 1 is read, the others are
/// worth one.
pub open spec fn spot_price(market_index: u16, price_1: i64) -> int {
    if market_index == 1 {
        price_1 as int
    } else {
        PRICE_PRECISION as int
    }
}

/// One whole token of a spot market, in its smallest units: nine decimals for
/// markets 1 and 3, six for the others.
pub open spec fn token_unit(market_index: u16) -> int {
    if market_index == 1 || market_index == 3 {
        1_000_000_000
    } else {
        1_000_000
    }
}

/// A spot balance at the live price.
pub open spec fn spot_holding(p: SpotPosition, price_1: i64) -> Holding {
    Holding {
        value: if p.scaled_balance == 0 {
            0
        } else {
            p.tokens * spot_price(p.market_index, price_1) / token_unit(p.market_index)
        },
        owed: p.balance_type == BalanceType::Borrow,
    }
}

/// Division that rounds toward zero.
pub open spec fn toward_zero(a: int, b: int) -> int {
    if a >= 0 {
        a / b
    } else {
        -((-a) / b)
    }
}

/// What a perp position is worth at the live price: its base at that price and
/// the quote it was paid or owes.
pub open spec fn perp_net(p: PerpPosition, price: i64) -> int {
    toward_zero(p.base_asset_amount * price, BASE_PRECISION as int) + p.quote_asset_amount
}

/// The collateral of an isolated position, at the quote market's interest
/// index.
pub open spec fn isolated_collateral(p: PerpPosition, deposit_interest: u128) -> Holding {
    Holding {
        value: p.isolated_position_scaled_balance * deposit_interest / 10_000_000_000_000,
        owed: false,
    }
}

/// A perp position, owned where it is worth something and owed where it is not.
pub open spec fn perp_holding(p: PerpPosition, price: i64) -> Holding {
    let net = perp_net(p, price);
    Holding {
        value: if net > 0 {
            net
        } else {
            -net
        },
        owed: net <= 0,
    }
}

pub open spec fn spot_holdings(positions: Seq<SpotPosition>, price_1: i64) -> Seq<Holding> {
    Seq::new(positions.len(), |i: int| spot_holding(positions[i], price_1))
}

pub open spec fn perp_holdings(
    positions: Seq<PerpPosition>,
    price: i64,
    deposit_interest: u128,
) -> Seq<Holding>
    decreases positions.len(),
{
    if positions.len() == 0 {
        Seq::empty()
    } else {
        let p = positions.last();
        perp_holdings(positions.drop_last(), price, deposit_interest).push(
            isolated_collateral(p, deposit_interest),
        ).push(perp_holding(p, price))
    }
}

/// Everything an account holds.
pub open spec fn holdings(
    user: User,
    price_1: i64,
    price_perp: i64,
    deposit_interest: u128,
) -> Seq<Holding> {
    spot_holdings(user.spot_positions@, price_1) + perp_holdings(
        user.perp_positions@,
        price_perp,
        deposit_interest,
    )
}

/// The sum of what is owed, or of what is owned, each item at its own weight.
pub open spec fn weighed(held: Seq<Holding>, owed: bool, weight: spec_fn(int) -> int) -> int
    decreases held.len(),
{
    if held.len() == 0 {
        0
    } else {
        weighed(held.drop_last(), owed, weight) + if held.last().owed == owed {
            held.last().value * weight(held.len() - 1)
        } else {
            0
        }
    }
}

/// The sum at face value.
pub open spec fn total(held: Seq<Holding>, owed: bool) -> int
    decreases held.len(),
{
    if held.len() == 0 {
        0
    } else {
        total(held.drop_last(), owed) + if held.last().owed == owed {
            held.last().value
        } else {
            0
        }
    }
}

/// The account owes more than it owns at full weight. Without a price there is
/// no judgement.
pub open spec fn insolvent(
    user: User,
    price_1: i64,
    price_perp: i64,
    deposit_interest: u128,
) -> bool {
    let held = holdings(user, price_1, price_perp, deposit_interest);
    price_1 > 0 && price_perp > 0 && total(held, true) > total(held, false)
}

/// The products of the valuation stay within the machine's integers.
pub open spec fn valuation_fits(user: User, price_1: i64, deposit_interest: u128) -> bool {
    &&& user.spot_positions@.len() <= crate::model::MAX_SLOTS
    &&& user.perp_positions@.len() <= crate::model::MAX_SLOTS
    &&& forall|i: int|
        0 <= i < user.spot_positions@.len() ==> spot_fits(#[trigger] user.spot_positions@[i], price_1)
    &&& forall|i: int|
        0 <= i < user.perp_positions@.len() ==> (#[trigger] user.perp_positions@[i])
            .isolated_position_scaled_balance * deposit_interest <= i128::MAX
}

pub open spec fn spot_fits(p: SpotPosition, price_1: i64) -> bool {
    p.scaled_balance != 0 ==> p.tokens * spot_price(p.market_index, price_1) <= i128::MAX
}

/// Decides [`valuation_fits`].
pub fn valuation_within_limits(user: &User, price_1: i64, deposit_interest: u128) -> (r: bool)
    requires
        price_1 > 0,
    ensures
        r == valuation_fits(*user, price_1, deposit_interest),
{
    if user.spot_positions.len() > crate::model::MAX_SLOTS || user.perp_positions.len()
        > crate::model::MAX_SLOTS {
        return false;
    }
    let n = user.spot_positions.len();
    let mut i: usize = 0;
    while i < n
        invariant
            i <= n,
            n == user.spot_positions@.len(),
            price_1 > 0,
            forall|j: int| 0 <= j < i ==> spot_fits(#[trigger] user.spot_positions@[j], price_1),
        decreases n - i,
    {
        let p = user.spot_positions[i];
        let price: u128 = if p.market_index == 1 {
            price_1 as u128
        } else {
            PRICE_PRECISION as u128
        };
        if p.scaled_balance != 0 && !product_within(p.tokens, price) {
            assert(!spot_fits(user.spot_positions@[i as int], price_1));
            return false;
        }
        i = i + 1;
    }
    let m = user.perp_positions.len();
    let mut k: usize = 0;
    while k < m
        invariant
            k <= m,
            m == user.perp_positions@.len(),
            forall|j: int|
                0 <= j < k ==> (#[trigger] user.perp_positions@[j]).isolated_position_scaled_balance
                    * deposit_interest <= i128::MAX,
        decreases m - k,
    {
        let balance: u128 = user.perp_positions[k].isolated_position_scaled_balance as u128;
        if !product_within(balance, deposit_interest) {
            assert(user.perp_positions@[k as int].isolated_position_scaled_balance
                * deposit_interest > i128::MAX);
            return false;
        }
        k = k + 1;
    }
    true
}

fn product_within(a: u128, b: u128) -> (r: bool)
    ensures
        r == (a * b <= i128::MAX),
{
    match a.checked_mul(b) {
        Some(product) => product <= i128::MAX as u128,
        None => false,
    }
}

fn spot_value(p: &SpotPosition, price_1: i64) -> (r: i128)
    requires
        price_1 > 0,
        spot_fits(*p, price_1),
    ensures
        r == spot_holding(*p, price_1).value,
        0 <= r <= 0x10_0000_0000_0000_0000_0000_0000_0000,
{
    if p.scaled_balance == 0 {
        return 0;
    }
    let price: u128 = if p.market_index == 1 {
        price_1 as u128
    } else {
        PRICE_PRECISION as u128
    };
    let unit: u128 = if p.market_index == 1 || p.market_index == 3 {
        1_000_000_000
    } else {
        1_000_000
    };
    let worth: u128 = p.tokens * price;
    let value: u128 = worth / unit;
    assert(value <= 0x10_0000_0000_0000_0000_0000_0000_0000) by (nonlinear_arith)
        requires
            value == worth / unit,
            unit >= 1_000_000,
            worth <= i128::MAX,
    ;
    value as i128
}

fn isolated_value(p: &PerpPosition, deposit_interest: u128) -> (r: i128)
    requires
        p.isolated_position_scaled_balance * deposit_interest <= i128::MAX,
    ensures
        r == isolated_collateral(*p, deposit_interest).value,
        0 <= r <= 0x10_0000_0000_0000_0000_0000_0000_0000,
{
    let scaled: u128 = p.isolated_position_scaled_balance as u128;
    (scaled * deposit_interest / 10_000_000_000_000) as i128
}

fn perp_value(p: &PerpPosition, price: i64) -> (r: i128)
    requires
        price > 0,
    ensures
        r == perp_net(*p, price),
        -0x10_0000_0000_0000_0000_0000_0000_0000 <= r <= 0x10_0000_0000_0000_0000_0000_0000_0000,
{
    let base: i128 = p.base_asset_amount as i128;
    let magnitude: i128 = if base < 0 {
        -base
    } else {
        base
    };
    assert(0 <= magnitude * price <= 0x8000_0000_0000_0000 * 0x7fff_ffff_ffff_ffff) by (
    nonlinear_arith)
        requires
            0 <= magnitude <= 0x8000_0000_0000_0000,
            0 < price <= 0x7fff_ffff_ffff_ffff,
    ;
    let worth: u128 = (magnitude as u128) * (price as u128) / (BASE_PRECISION as u128);
    assert(worth <= 0x1_0000_0000_0000_0000_0000_0000_0000) by (nonlinear_arith)
        requires
            worth == magnitude * price / 1_000_000_000,
            0 <= magnitude * price <= 0x8000_0000_0000_0000 * 0x7fff_ffff_ffff_ffff,
    ;
    assert(base < 0 ==> base * price == -(magnitude * price)) by (nonlinear_arith)
        requires
            base < 0 ==> magnitude == -base,
    ;
    assert(base >= 0 ==> base * price >= 0) by (nonlinear_arith)
        requires
            price > 0,
    ;
    assert(base < 0 ==> base * price < 0) by (nonlinear_arith)
        requires
            price > 0,
    ;
    let signed: i128 = if base < 0 {
        -(worth as i128)
    } else {
        worth as i128
    };
    signed + p.quote_asset_amount as i128
}

/// Whether an account owes more than it owns when everything is counted at full
/// weight and at the live price: the kindest valuation there is.
pub fn is_unconditionally_insolvent(
    user: &User,
    price_1: i64,
    price_perp: i64,
    deposit_interest: u128,
) -> (r: bool)
    requires
        price_1 > 0 && price_perp > 0 ==> valuation_fits(*user, price_1, deposit_interest),
    ensures
        r == insolvent(*user, price_1, price_perp, deposit_interest),
{
    if price_1 <= 0 || price_perp <= 0 {
        return false;
    }
    let ghost spots = spot_holdings(user.spot_positions@, price_1);
    let mut assets: i128 = 0;
    let mut debts: i128 = 0;
    let n = user.spot_positions.len();
    let mut i: usize = 0;
    while i < n
        invariant
            i <= n <= crate::model::MAX_SLOTS,
            n == user.spot_positions@.len(),
            spots == spot_holdings(user.spot_positions@, price_1),
            price_1 > 0,
            valuation_fits(*user, price_1, deposit_interest),
            assets == total(spots.take(i as int), false),
            debts == total(spots.take(i as int), true),
            0 <= assets <= i * 0x10_0000_0000_0000_0000_0000_0000_0000,
            0 <= debts <= i * 0x10_0000_0000_0000_0000_0000_0000_0000,
        decreases n - i,
    {
        let p = user.spot_positions[i];
        let value = spot_value(&p, price_1);
        assert(spots.take(i + 1).drop_last() =~= spots.take(i as int));
        match p.balance_type {
            BalanceType::Deposit => {
                assets = assets + value;
            },
            BalanceType::Borrow => {
                debts = debts + value;
            },
        }
        i = i + 1;
    }
    assert(spots.take(n as int) =~= spots);
    let m = user.perp_positions.len();
    let ghost assets_0 = assets;
    let ghost debts_0 = debts;
    let mut j: usize = 0;
    while j < m
        invariant
            j <= m <= crate::model::MAX_SLOTS,
            m == user.perp_positions@.len(),
            price_perp > 0,
            valuation_fits(*user, price_1, deposit_interest),
            0 <= assets_0 <= 64 * 0x10_0000_0000_0000_0000_0000_0000_0000,
            0 <= debts_0 <= 64 * 0x10_0000_0000_0000_0000_0000_0000_0000,
            assets == assets_0 + total(
                perp_holdings(user.perp_positions@.take(j as int), price_perp, deposit_interest),
                false,
            ),
            debts == debts_0 + total(
                perp_holdings(user.perp_positions@.take(j as int), price_perp, deposit_interest),
                true,
            ),
            0 <= assets <= (64 + 2 * j) * 0x10_0000_0000_0000_0000_0000_0000_0000,
            0 <= debts <= (64 + 2 * j) * 0x10_0000_0000_0000_0000_0000_0000_0000,
        decreases m - j,
    {
        let p = user.perp_positions[j];
        let isolated = isolated_value(&p, deposit_interest);
        let net = perp_value(&p, price_perp);
        proof {
            let prefix = user.perp_positions@.take(j as int);
            let longer = user.perp_positions@.take(j + 1);
            assert(longer.drop_last() =~= prefix);
            assert(longer.last() == p);
            let before = perp_holdings(prefix, price_perp, deposit_interest);
            let held = isolated_collateral(p, deposit_interest);
            let position = perp_holding(p, price_perp);
            let after = perp_holdings(longer, price_perp, deposit_interest);
            assert(after == before.push(held).push(position));
            assert(after.drop_last() =~= before.push(held));
            assert(before.push(held).drop_last() =~= before);
            assert(before.push(held).last() == held);
            reveal_with_fuel(total, 3);
        }
        assets = assets + isolated;
        if net > 0 {
            assets = assets + net;
        } else {
            debts = debts + (-net);
        }
        j = j + 1;
    }
    proof {
        assert(user.perp_positions@.take(m as int) =~= user.perp_positions@);
        let perps = perp_holdings(user.perp_positions@, price_perp, deposit_interest);
        total_of_both(spots, perps, true);
        total_of_both(spots, perps, false);
    }
    debts > assets
}

/// What two lots hold adds up.
pub proof fn total_of_both(a: Seq<Holding>, b: Seq<Holding>, owed: bool)
    ensures
        total(a + b, owed) == total(a, owed) + total(b, owed),
    decreases b.len(),
{
    if b.len() == 0 {
        assert(a + b =~= a);
    } else {
        assert((a + b).drop_last() =~= a + b.drop_last());
        total_of_both(a, b.drop_last(), owed);
    }
}

proof fn perp_holdings_are_worth_something(
    positions: Seq<PerpPosition>,
    price: i64,
    deposit_interest: u128,
)
    requires
        price > 0,
    ensures
        forall|i: int|
            0 <= i < perp_holdings(positions, price, deposit_interest).len() ==> (
            #[trigger] perp_holdings(positions, price, deposit_interest)[i]).value >= 0,
    decreases positions.len(),
{
    if positions.len() > 0 {
        perp_holdings_are_worth_something(positions.drop_last(), price, deposit_interest);
        let p = positions.last();
        assert(p.isolated_position_scaled_balance * deposit_interest >= 0) by (nonlinear_arith);
        let before = perp_holdings(positions.drop_last(), price, deposit_interest);
        let all = perp_holdings(positions, price, deposit_interest);
        assert forall|i: int| 0 <= i < all.len() implies (#[trigger] all[i]).value >= 0 by {
            if i < before.len() {
                assert(all[i] == before[i]);
            }
        }
    }
}

proof fn weights_only_widen(
    held: Seq<Holding>,
    unit: int,
    asset_weight: spec_fn(int) -> int,
    debt_weight: spec_fn(int) -> int,
)
    requires
        unit > 0,
        forall|i: int| 0 <= i < held.len() ==> (#[trigger] held[i]).value >= 0,
        forall|i: int| #[trigger] asset_weight(i) <= unit,
        forall|i: int| #[trigger] debt_weight(i) >= unit,
    ensures
        weighed(held, false, asset_weight) <= total(held, false) * unit,
        weighed(held, true, debt_weight) >= total(held, true) * unit,
    decreases held.len(),
{
    if held.len() > 0 {
        weights_only_widen(held.drop_last(), unit, asset_weight, debt_weight);
        let h = held.last();
        let k = held.len() - 1;
        let wa = asset_weight(k);
        let wd = debt_weight(k);
        let v = h.value;
        assert(v * wa <= v * unit && v * wd >= v * unit) by (nonlinear_arith)
            requires
                v >= 0,
                wa <= unit,
                wd >= unit,
        ;
        let ta = total(held.drop_last(), false);
        let td = total(held.drop_last(), true);
        assert((ta + v) * unit == ta * unit + v * unit && (td + v) * unit == td * unit + v * unit)
            by (nonlinear_arith);
    }
}

/// An account that is insolvent at full weight fails every margin test that
/// counts each asset at most and each debt at least in full: whatever weights
/// such a test uses, the weighed debts exceed the weighed assets.
pub proof fn insolvency_is_unconditional(
    user: User,
    price_1: i64,
    price_perp: i64,
    deposit_interest: u128,
    unit: int,
    asset_weight: spec_fn(int) -> int,
    debt_weight: spec_fn(int) -> int,
)
    requires
        insolvent(user, price_1, price_perp, deposit_interest),
        unit > 0,
        forall|i: int| #[trigger] asset_weight(i) <= unit,
        forall|i: int| #[trigger] debt_weight(i) >= unit,
    ensures
        ({
            let held = holdings(user, price_1, price_perp, deposit_interest);
            weighed(held, true, debt_weight) > weighed(held, false, asset_weight)
        }),
{
    let held = holdings(user, price_1, price_perp, deposit_interest);
    perp_holdings_are_worth_something(user.perp_positions@, price_perp, deposit_interest);
    assert forall|i: int| 0 <= i < user.spot_positions@.len() implies (
    #[trigger] spot_holdings(user.spot_positions@, price_1)[i]).value >= 0 by {
        let p = user.spot_positions@[i];
        let price = spot_price(p.market_index, price_1);
        assert(p.tokens * price >= 0) by (nonlinear_arith)
            requires
                price > 0,
        ;
    }
    weights_only_widen(held, unit, asset_weight, debt_weight);
    let debts = total(held, true);
    let assets = total(held, false);
    assert(debts * unit > assets * unit) by (nonlinear_arith)
        requires
            debts > assets,
            unit > 0,
    ;
}

impl History {
    /// A liquidation that the exchange refuses because the victim is healthy is
    /// remembered where the victim cannot have been: it was insolvent at full
    /// weight before the call, and both oracles were fresh. A refusal on any
    /// other ground is not held against the exchange.
    pub fn record_liquidation(
        &mut self,
        worked: bool,
        error_code: Option<u32>,
        insolvent_before: bool,
        spot_oracle_fresh: bool,
        perp_oracle_fresh: bool,
    )
        ensures
            final(self).liq_refusals@ == if !worked && error_code == Some(SUFFICIENT_COLLATERAL)
                && insolvent_before && spot_oracle_fresh && perp_oracle_fresh {
                old(self).liq_refusals@.push(Refusal::LiquidateSpot)
            } else {
                old(self).liq_refusals@
            },
            *final(self) == (History { liq_refusals: final(self).liq_refusals, ..*old(self) }),
    {
        let refused = match error_code {
            Some(code) => !worked && code == SUFFICIENT_COLLATERAL,
            None => false,
        };
        if refused && insolvent_before && spot_oracle_fresh && perp_oracle_fresh {
            self.liq_refusals.push(Refusal::LiquidateSpot);
        }
    }
}

/// The exchange's refusal to liquidate a healthy account.
pub const SUFFICIENT_COLLATERAL: u32 = 6004;

// ---------------------------------------------------------------------------
// Borrowing to the limit
// ---------------------------------------------------------------------------

/// The quote deposits of an account, in tokens.
pub open spec fn quote_deposits(positions: Seq<SpotPosition>) -> int
    decreases positions.len(),
{
    if positions.len() == 0 {
        0
    } else {
        let p = positions.last();
        quote_deposits(positions.drop_last()) + if p.market_index == 0 && p.scaled_balance != 0
            && p.balance_type == BalanceType::Deposit {
            p.tokens as int
        } else {
            0
        }
    }
}

/// A number, cut off at the largest `u128`.
pub open spec fn capped(v: int) -> int {
    if v > u128::MAX {
        u128::MAX as int
    } else {
        v
    }
}

/// How many tokens of market 1 a percentage of the initial-margin limit buys:
/// the collateral at one part in 1.2, at the price.
pub open spec fn borrow_limit(collateral: int, price: i64, pct: u64) -> int {
    capped(capped(collateral * 10_000 / 12_000 * 1_000_000_000) / price as int * pct) / 100
}

fn capped_product(a: u128, b: u128) -> (r: u128)
    ensures
        r == capped(a * b),
{
    match a.checked_mul(b) {
        Some(product) => product,
        None => u128::MAX,
    }
}

fn quote_collateral(user: &User) -> (r: u128)
    ensures
        r == capped(quote_deposits(user.spot_positions@)),
{
    let mut sum: u128 = 0;
    let n = user.spot_positions.len();
    let mut i: usize = 0;
    while i < n
        invariant
            i <= n,
            n == user.spot_positions@.len(),
            sum == capped(quote_deposits(user.spot_positions@.take(i as int))),
            quote_deposits(user.spot_positions@.take(i as int)) >= 0,
        decreases n - i,
    {
        let p = user.spot_positions[i];
        assert(user.spot_positions@.take(i + 1).drop_last() =~= user.spot_positions@.take(
            i as int,
        ));
        if p.market_index == 0 && p.scaled_balance != 0 && p.balance_type == BalanceType::Deposit {
            sum = sum.saturating_add(p.tokens);
        }
        i = i + 1;
    }
    assert(user.spot_positions@.take(n as int) =~= user.spot_positions@);
    sum
}

/// Whether an account's quote deposits can be weighted within the machine's
/// integers.
pub fn deposits_within_limits(user: &User) -> (r: bool)
    ensures
        r == (quote_deposits(user.spot_positions@) * 10_000 <= u128::MAX),
{
    quote_collateral(user) <= u128::MAX / 10_000
}

/// The size of a borrow of market 1 at a percentage of the initial-margin limit;
/// `None` where there is no collateral, no price, or nothing that a `u64` can
/// name to borrow.
pub fn borrow_to_margin_limit(user: &User, price: i64, pct: u64) -> (r: Option<u64>)
    requires
        quote_deposits(user.spot_positions@) * 10_000 <= u128::MAX,
    ensures
        ({
            let collateral = quote_deposits(user.spot_positions@);
            let amount = borrow_limit(collateral, price, pct);
            &&& r is Some <==> collateral > 0 && price > 0 && 0 < amount <= u64::MAX
            &&& r matches Some(a) ==> a == amount
        }),
{
    let collateral = quote_collateral(user);
    proof {
        deposits_are_worth_something(user.spot_positions@);
    }
    if collateral == 0 || price <= 0 {
        return None;
    }
    let value: u128 = collateral * 10_000 / 12_000;
    let tokens: u128 = capped_product(value, 1_000_000_000) / (price as u128);
    let amount: u128 = capped_product(tokens, pct as u128) / 100;
    if amount == 0 || amount > u64::MAX as u128 {
        return None;
    }
    Some(amount as u64)
}

/// Quote deposits are never negative.
pub proof fn deposits_are_worth_something(positions: Seq<SpotPosition>)
    ensures
        quote_deposits(positions) >= 0,
    decreases positions.len(),
{
    if positions.len() > 0 {
        deposits_are_worth_something(positions.drop_last());
    }
}

/// A borrow at no more than the whole limit is one that initial margin allows:
/// its value at a liability weight of 1.2 does not exceed the collateral.
pub proof fn borrow_stays_inside_initial_margin(collateral: int, price: i64, pct: u64)
    requires
        collateral >= 0,
        price > 0,
        pct <= 100,
    ensures
        borrow_limit(collateral, price, pct) * price * 12_000 <= collateral * 10_000
            * 1_000_000_000,
{
    let value = collateral * 10_000 / 12_000;
    let scaled = capped(value * 1_000_000_000);
    let tokens = scaled / price as int;
    let p = price as int;
    let share = capped(tokens * pct);
    let amount = share / 100;
    assert(0 <= scaled <= value * 1_000_000_000);
    assert(tokens >= 0 && tokens * p <= scaled) by (nonlinear_arith)
        requires
            tokens == scaled / p,
            p > 0,
            scaled >= 0,
    ;
    assert(0 <= tokens * pct <= tokens * 100) by (nonlinear_arith)
        requires
            tokens >= 0,
            0 <= pct <= 100,
    ;
    assert(0 <= amount <= tokens);
    assert(amount * p <= tokens * p) by (nonlinear_arith)
        requires
            amount <= tokens,
            p > 0,
    ;
    assert(amount * p * 12_000 <= value * 1_000_000_000 * 12_000);
    assert(value * 12_000 <= collateral * 10_000);
}

impl Fixture {
    /// Borrows market 1 up to a percentage of the initial-margin limit: margin
    /// trading is turned on, then the tokens are withdrawn.
    pub fn action_borrow_to_margin_limit(
        &self,
        user_idx: usize,
        pct: u64,
        user: &User,
        price: i64,
    ) -> (r: Option<(Transaction, Transaction)>)
        requires
            self.wf(),
            user_idx < NUM_USERS,
            quote_deposits(user.spot_positions@) * 10_000 <= u128::MAX,
        ensures
            ({
                let collateral = quote_deposits(user.spot_positions@);
                let amount = borrow_limit(collateral, price, pct);
                &&& r is Some <==> collateral > 0 && price > 0 && 0 < amount <= u64::MAX
                &&& r matches Some((enable, withdraw)) ==> enable@ == self.margin_trading_call(
                    self.users@[user_idx as int],
                    true,
                ) && withdraw@ == self.withdraw_call(
                    self.users@[user_idx as int],
                    amount as u64,
                    1,
                    false,
                )
            }),
    {
        let amount = borrow_to_margin_limit(user, price, pct)?;
        let enable = self.action_update_user_margin_trading_enabled(user_idx, 1);
        let withdraw = self.action_withdraw(user_idx, amount, 1, 0);
        Some((enable, withdraw))
    }
}

} // verus!
