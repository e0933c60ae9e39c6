//! What the judgements on the pricing curve accept and what they turn down.

use vstd::prelude::*;
use crate::amm_pricing::{
    deeper, integer_sqrt, is_root, jit_curve, limit_curve, low_limit, picked_direction,
    priced_curve, product_above, projected_curve, prop_bid_ask_price_bounds, prop_cap_to_max_spread,
    prop_jit_clamped_bound, prop_k_conserved_swap, prop_repeg_k_cost, reduced_inventory,
    regr_269_jit_available_liquidity, regr_269_limit_cap_reserve_basis, regr_269_scalar_k_floor,
    repegged_curve, reserve_square, resized_curve, root, root_is_unique, shallower, swap_delta,
    throttled_curve, wide_product, Curve, Projection, Quotes, JIT_STEP,
};
use crate::model::PositionDirection;

verus! {

// ---------------------------------------------------------------------------
// Arithmetic
// ---------------------------------------------------------------------------

/// No part of a product is lost: the two digits write it in full.
pub proof fn products_are_full(a: u128, b: u128, r: (u128, u128))
    requires
        call_ensures(wide_product, (a, b), r),
    ensures
        r.0 * 0x1_0000_0000_0000_0000_0000_0000_0000_0000int + r.1 == a * b,
{
}

/// Products are compared in full, and one is not above itself.
pub proof fn products_are_ordered(a: u128, b: u128, c: u128, d: u128, r: bool)
    requires
        call_ensures(product_above, (a, b, c, d), r),
    ensures
        r <==> a * b > c * d,
{
}

/// A root is the largest number whose square fits.
pub proof fn roots_are_largest(n: u128, r: u128, s: int)
    requires
        call_ensures(integer_sqrt, (n,), r),
        s >= 0,
    ensures
        s * s <= n <==> s <= r,
{
    if s <= r {
        assert(s * s <= r * r) by (nonlinear_arith)
            requires
                0 <= s <= r,
        ;
    } else {
        assert(s * s >= (r + 1) * (r + 1)) by (nonlinear_arith)
            requires
                s >= r + 1,
                r >= 0,
        ;
    }
}

// ---------------------------------------------------------------------------
// Swaps
// ---------------------------------------------------------------------------

/// A swap takes the millionths it was asked for, rounded down, as long as that is at
/// least one and at most half the pool; outside of that it takes the nearer of the
/// two.
pub proof fn swaps_take_their_millionths(base: u64, millionths: u64, r: u128)
    requires
        call_ensures(swap_delta, (base, millionths), r),
        base >= 2,
    ensures
        1 <= r,
        2 * r <= base,
        base * millionths < 1_000_000 ==> r == 1,
        millionths >= 500_000 ==> 2 * r + 1 >= base,
        base * millionths >= 1_000_000 ==> r * 1_000_000 <= base * millionths,
        2 * r + 2 <= base ==> base * millionths < (r + 1) * 1_000_000,
{
    if millionths >= 500_000 {
        assert(base * millionths >= base * 500_000) by (nonlinear_arith)
            requires
                millionths >= 500_000,
        ;
    }
}

/// A swap is accepted exactly where the pool's product did not grow, one unit more
/// of output would have made it grow, and closing the position paid out no more
/// than opening it cost.
pub proof fn swaps_round_in_the_pools_favour(
    sqrt_k: u64,
    new_in: u128,
    new_out: u128,
    quote_paid: u64,
    quote_recv: u64,
    r: bool,
)
    requires
        call_ensures(prop_k_conserved_swap, (sqrt_k, new_in, new_out, quote_paid, quote_recv), r),
    ensures
        quote_recv > quote_paid ==> !r,
        new_in * new_out > sqrt_k * sqrt_k ==> !r,
        new_in * (new_out + 1) <= sqrt_k * sqrt_k ==> !r,
        quote_recv <= quote_paid && new_in * new_out <= sqrt_k * sqrt_k && new_in * (new_out + 1)
            > sqrt_k * sqrt_k ==> r,
{
}

// ---------------------------------------------------------------------------
// Spreads and prices
// ---------------------------------------------------------------------------

/// Spreads are accepted exactly where together they fit under the cap and a second
/// capping moves neither.
pub proof fn capped_spreads_fit_and_stay(
    long_spread: u64,
    short_spread: u64,
    long_again: u64,
    short_again: u64,
    max_spread: u64,
    r: bool,
)
    requires
        call_ensures(
            prop_cap_to_max_spread,
            (long_spread, short_spread, long_again, short_again, max_spread),
            r,
        ),
    ensures
        long_spread + short_spread > max_spread ==> !r,
        long_again != long_spread ==> !r,
        short_again != short_spread ==> !r,
        long_spread + short_spread <= max_spread && long_again == long_spread && short_again
            == short_spread ==> r,
{
}

/// Quotes are turned down for any one of these: a bound on the wrong side of the
/// pool's root; bounds whose product is off by more than a thousandth; a price that
/// falls with more quote or rises with more base; a bid above or an ask below the
/// reserve price; a new price out of its band. Otherwise they are accepted.
pub proof fn quotes_are_in_order(sqrt_k: u64, q: &Quotes, twap: i64, denom: i64, r: bool)
    requires
        call_ensures(prop_bid_ask_price_bounds, (sqrt_k, q, twap, denom), r),
        twap > 0,
        denom > 0,
    ensures
        q.bid_bound >= sqrt_k ==> !r,
        q.ask_bound <= sqrt_k ==> !r,
        1000 * (q.bid_bound * q.ask_bound - sqrt_k * sqrt_k) > sqrt_k * sqrt_k ==> !r,
        1000 * (sqrt_k * sqrt_k - q.bid_bound * q.ask_bound) > sqrt_k * sqrt_k ==> !r,
        q.price_more_quote < q.price ==> !r,
        q.price_more_base > q.price ==> !r,
        q.bid > q.reserve_price ==> !r,
        q.ask < q.reserve_price ==> !r,
        (q.sanitized - twap) * denom > twap ==> !r,
        (twap - q.sanitized) * denom > twap ==> !r,
        q.bid_bound < sqrt_k < q.ask_bound && 1000 * (q.bid_bound * q.ask_bound - sqrt_k * sqrt_k)
            <= sqrt_k * sqrt_k && 1000 * (sqrt_k * sqrt_k - q.bid_bound * q.ask_bound) <= sqrt_k
            * sqrt_k && q.price_more_base <= q.price <= q.price_more_quote && q.bid
            <= q.reserve_price <= q.ask && (q.sanitized - twap) * denom <= twap && (twap
            - q.sanitized) * denom <= twap ==> r,
{
    let k = sqrt_k * sqrt_k;
    let b = q.bid_bound * q.ask_bound;
    assert(k >= 0) by (nonlinear_arith)
        requires
            k == sqrt_k * sqrt_k,
    ;
    assert(1000 * (b - k) > k <==> b - k > k / 1000);
    assert(1000 * (k - b) > k <==> k - b > k / 1000);
    band(q.sanitized - twap, twap as int, denom as int);
    band(twap - q.sanitized, twap as int, denom as int);
}

proof fn band(d: int, twap: int, denom: int)
    requires
        denom > 0,
        twap > 0,
    ensures
        d * denom > twap <==> d > twap / denom,
{
    vstd::arithmetic::div_mod::lemma_fundamental_div_mod(twap, denom);
    vstd::arithmetic::div_mod::lemma_mod_bound(twap, denom);
    let t = twap / denom;
    assert(t * denom <= twap < (t + 1) * denom) by (nonlinear_arith)
        requires
            twap == denom * t + twap % denom,
            0 <= twap % denom < denom,
    ;
    if d > t {
        assert(d * denom >= (t + 1) * denom) by (nonlinear_arith)
            requires
                d >= t + 1,
                denom > 0,
        ;
    } else {
        assert(d * denom <= t * denom) by (nonlinear_arith)
            requires
                d <= t,
                denom > 0,
        ;
    }
}

// ---------------------------------------------------------------------------
// Moving the curve
// ---------------------------------------------------------------------------

/// The cost of a new peg goes with the product of the two moves: what the quote
/// reserve is above its terminal value, times what the peg is raised by. A judgement
/// that accepts a cost has seen one of that sign, and a cost of the other sign is
/// turned down. So is a deepening that pays, or a shallowing that costs.
pub proof fn costs_follow_the_moves(
    quote: u64,
    terminal: u64,
    peg: u64,
    new_peg: u64,
    cost: i128,
    cost_deeper: Option<i128>,
    cost_shallower: Option<i128>,
    r: bool,
)
    requires
        call_ensures(
            prop_repeg_k_cost,
            (quote, terminal, peg, new_peg, cost, cost_deeper, cost_shallower),
            r,
        ),
    ensures
        ({
            let moves = (quote - terminal) * (new_peg - peg);
            &&& r && moves < 0 ==> cost <= 0
            &&& r && moves > 0 ==> cost >= 0
            &&& r && moves == 0 ==> cost == 0
            &&& r && cost_deeper is Some ==> cost_deeper->0 >= 0
            &&& r && cost_shallower is Some ==> cost_shallower->0 <= 0
            &&& !r ==> {
                ||| moves < 0 && cost > 0
                ||| moves > 0 && cost < 0
                ||| moves == 0 && cost != 0
                ||| cost_deeper is Some && cost_deeper->0 < 0
                ||| cost_shallower is Some && cost_shallower->0 > 0
            }
        }),
{
    let a = quote - terminal;
    let b = new_peg - peg;
    assert(a > 0 && b > 0 ==> a * b > 0) by (nonlinear_arith);
    assert(a < 0 && b < 0 ==> a * b > 0) by (nonlinear_arith);
    assert(a > 0 && b < 0 ==> a * b < 0) by (nonlinear_arith);
    assert(a < 0 && b > 0 ==> a * b < 0) by (nonlinear_arith);
    assert(a == 0 || b == 0 ==> a * b == 0) by (nonlinear_arith);
}

/// An inventory is reduced by whole quarters of the pool, toward zero and never
/// past it.
pub proof fn inventories_shrink_by_quarters(inventory: i64, sqrt_k: u64, r: i128)
    requires
        call_ensures(reduced_inventory, (inventory, sqrt_k), r),
        sqrt_k >= 4,
    ensures
        inventory >= 0 ==> 0 <= r <= inventory,
        inventory <= 0 ==> inventory <= r <= 0,
        -(sqrt_k / 4) < r < sqrt_k / 4,
        (inventory - r) % (sqrt_k as int / 4) == 0,
{
    let q = sqrt_k as int / 4;
    let a = if inventory >= 0 {
        inventory as int
    } else {
        -inventory
    };
    vstd::arithmetic::div_mod::lemma_fundamental_div_mod(a, q);
    vstd::arithmetic::div_mod::lemma_mod_bound(a, q);
    vstd::arithmetic::div_mod::lemma_mod_decreases(a as nat, q as nat);
    let k = a / q;
    assert(a - a % q == k * q) by (nonlinear_arith)
        requires
            a == q * k + a % q,
    ;
    vstd::arithmetic::div_mod::lemma_mod_multiples_basic(k, q);
    vstd::arithmetic::div_mod::lemma_mod_multiples_basic(-k, q);
    assert(-k * q == -(k * q)) by (nonlinear_arith);
}

/// A pool is made deeper and shallower by the same amount, a tenth of it rounded
/// down.
pub proof fn depth_changes_by_a_tenth(sqrt_k: u64, d: u128, s: u128)
    requires
        call_ensures(deeper, (sqrt_k,), d),
        call_ensures(shallower, (sqrt_k,), s),
    ensures
        d - sqrt_k == sqrt_k - s,
        10 * (d - sqrt_k) <= sqrt_k < 10 * (d - sqrt_k) + 10,
{
}

// ---------------------------------------------------------------------------
// Slices
// ---------------------------------------------------------------------------

/// A slice is turned down where it is larger than what went in or than the AMM's
/// inventory on either side, and nowhere else.
pub proof fn slices_are_bounded(jit_in: u64, inventory: i64, clamped: u64, r: bool)
    requires
        call_ensures(prop_jit_clamped_bound, (jit_in, inventory, clamped), r),
    ensures
        clamped > jit_in ==> !r,
        -clamped < inventory < clamped ==> !r,
        clamped <= jit_in && (inventory >= clamped || inventory <= -clamped) ==> r,
{
}

/// A slice is turned down where it is more than what the AMM fills by itself.
pub proof fn slices_are_throttled(jit: u64, available: u64, r: bool)
    requires
        call_ensures(regr_269_jit_available_liquidity, (jit, available), r),
    ensures
        r <==> jit <= available,
{
}

// ---------------------------------------------------------------------------
// Trading to a limit price
// ---------------------------------------------------------------------------

/// The cached reserves lie on either side of the pool's, as far apart on both: the
/// ask's below and the bid's above.
pub proof fn cached_reserves_lie_either_side(sqrt_k: u64, peg: u64, offset: u64, r: Option<Curve>)
    requires
        call_ensures(limit_curve, (sqrt_k, peg, offset), r),
    ensures
        r is None <==> offset >= sqrt_k,
        r matches Some(c) ==> {
            &&& c.base_asset_reserve - c.ask_base_asset_reserve == offset
            &&& c.bid_base_asset_reserve - c.base_asset_reserve == offset
            &&& c.base_asset_reserve == sqrt_k && c.quote_asset_reserve == sqrt_k
            &&& c.base_asset_reserve * c.quote_asset_reserve == c.sqrt_k * c.sqrt_k
            &&& c.peg_multiplier == peg
            &&& c.base_spread == 0
        },
{
}

/// A limit is far below the price and never nothing.
pub proof fn low_limits_are_low(reserve_price: u64, r: u64)
    requires
        call_ensures(low_limit, (reserve_price,), r),
    ensures
        r >= 1,
        reserve_price >= 4 ==> 4 * r <= reserve_price < 4 * r + 4,
        reserve_price < 4 ==> r == 1,
{
}

/// Selector zero buys and every other sells.
pub proof fn selector_zero_is_long(selector: u8, r: PositionDirection)
    requires
        call_ensures(picked_direction, (selector,), r),
    ensures
        r is Long <==> selector == 0,
{
}

/// A capped order takes the reserve that it meets to the one at which the pool
/// quotes its limit. A long order meets the ask's reserve and a short one the
/// bid's; the cap is a sale where the target lies above it, a purchase where it
/// lies below, by the whole difference unless that is more than an order can hold.
/// The target `t` is the root of the pool's product over the limit, at the peg.
pub proof fn caps_reach_the_limit(
    c: &Curve,
    dir: PositionDirection,
    limit_price: u64,
    amount: u64,
    out_dir: PositionDirection,
    r: bool,
    t: int,
)
    requires
        call_ensures(
            regr_269_limit_cap_reserve_basis,
            (c, dir, limit_price, amount, out_dir),
            r,
        ),
        limit_price > 0,
        t >= 0,
        t * t <= (c.sqrt_k * c.sqrt_k * 1_000_000 / limit_price as int) * c.peg_multiplier
            / 1_000_000 < (t + 1) * (t + 1),
    ensures
        ({
            let met = match dir {
                PositionDirection::Long => c.ask_base_asset_reserve,
                PositionDirection::Short => c.bid_base_asset_reserve,
            };
            &&& t > met && t - met <= u64::MAX ==> (r <==> out_dir is Short && met + amount == t)
            &&& t <= met && met - t <= u64::MAX ==> (r <==> out_dir is Long && met - amount == t)
            &&& t > met && t - met > u64::MAX ==> (r <==> out_dir is Short && amount == u64::MAX)
            &&& t <= met && met - t > u64::MAX ==> (r <==> out_dir is Long && amount == u64::MAX)
        }),
{
    let n = reserve_square(c.sqrt_k as int, c.peg_multiplier as int, limit_price as int);
    assert(is_root(t, n));
    root_is_unique(t, root(n), n);
}

/// A short projection is turned down where it differs from the full one in
/// anything.
pub proof fn projections_agree_in_everything(scalar: &Projection, full: &Projection, r: bool)
    requires
        call_ensures(regr_269_scalar_k_floor, (scalar, full), r),
    ensures
        r <==> scalar.sqrt_k == full.sqrt_k && scalar.peg_multiplier == full.peg_multiplier
            && scalar.base_asset_reserve == full.base_asset_reserve && scalar.quote_asset_reserve
            == full.quote_asset_reserve && scalar.cost == full.cost,
{
}

// ---------------------------------------------------------------------------
// The curves
// ---------------------------------------------------------------------------

/// Nothing but the prices of a curve is set.
pub open spec fn plain(c: Curve) -> bool {
    &&& c.concentration_coef == 0
    &&& c.base_asset_amount_with_amm == 0
    &&& c.min_base_asset_reserve == 0 && c.max_base_asset_reserve == 0
    &&& c.ask_base_asset_reserve == 0 && c.bid_base_asset_reserve == 0
    &&& c.base_spread == 0 && c.max_spread == 0
    &&& c.curve_update_intensity == 0 && c.amm_jit_intensity == 0
    &&& c.max_fill_reserve_fraction == 0
    &&& c.total_fee_minus_distributions == 0
}

/// A priced curve has the reserves and the peg it was asked for; a repegged one the
/// quote, what it should be and the peg; neither has anything else.
pub proof fn curves_hold_what_they_were_given(base: u64, quote: u64, terminal: u64, peg: u64)
    ensures
        ({
            let c = priced_curve(base, quote, peg);
            &&& c.base_asset_reserve == base && c.quote_asset_reserve == quote
            &&& c.peg_multiplier == peg
            &&& c.terminal_quote_asset_reserve == 0 && c.sqrt_k == 0 && plain(c)
        }),
        ({
            let c = repegged_curve(quote, terminal, peg);
            &&& c.quote_asset_reserve == quote && c.terminal_quote_asset_reserve == terminal
            &&& c.peg_multiplier == peg
            &&& c.base_asset_reserve == 0 && c.sqrt_k == 0 && plain(c)
        }),
{
}

/// A resized curve is balanced on its own product, at a peg of one, as wide as a
/// curve may be, and carries the inventory.
pub proof fn resized_curves_are_balanced(sqrt_k: u64, inventory: i128)
    ensures
        ({
            let c = resized_curve(sqrt_k, inventory);
            &&& c.base_asset_reserve == sqrt_k && c.quote_asset_reserve == sqrt_k
            &&& c.terminal_quote_asset_reserve == c.quote_asset_reserve
            &&& c.sqrt_k * c.sqrt_k == c.base_asset_reserve * c.quote_asset_reserve
            &&& c.peg_multiplier == 1_000_000
            &&& c.concentration_coef == 1_414_200
            &&& c.base_asset_amount_with_amm == inventory
            &&& c.total_fee_minus_distributions == 0 && c.max_spread == 0 && c.base_spread == 0
        }),
{
}

/// A curve for a slice holds the intensity and the inventory, and a throttled one
/// is balanced at a peg of one, has room for two order steps of base, and lets a
/// single fill take a whole reserve at full intensity.
pub proof fn slice_curves_hold_the_inventory(intensity: u8, inventory: i64, stock: u64)
    ensures
        jit_curve(intensity, inventory).amm_jit_intensity == intensity,
        jit_curve(intensity, inventory).base_asset_amount_with_amm == inventory,
        jit_curve(intensity, inventory).base_asset_reserve == 0,
        ({
            let c = throttled_curve(stock);
            &&& c.base_asset_amount_with_amm == stock
            &&& c.base_asset_reserve == c.quote_asset_reserve == c.sqrt_k
            &&& c.sqrt_k == 100_000_000_000
            &&& c.max_base_asset_reserve - c.base_asset_reserve == 2 * JIT_STEP
            &&& JIT_STEP == 1_000_000
            &&& c.min_base_asset_reserve == 0
            &&& c.peg_multiplier == 1_000_000
            &&& c.amm_jit_intensity == 100
            &&& c.max_fill_reserve_fraction == 1
        }),
{
}

/// The projected curve is coherent: the AMM is short, closing its position brings
/// the quote reserve to the terminal one and the base reserve to balance, the base
/// lies within its bounds, the peg is the price of a balanced pool, and the spread
/// it starts from is below the one it may reach.
pub proof fn projected_curves_close_at_balance(curve_update_intensity: u8, fees: u64)
    ensures
        ({
            let c = projected_curve(curve_update_intensity, fees);
            let closed = c.base_asset_reserve + c.base_asset_amount_with_amm;
            &&& c.base_asset_amount_with_amm < 0
            &&& closed * c.terminal_quote_asset_reserve == c.sqrt_k * c.sqrt_k
            &&& closed == c.terminal_quote_asset_reserve == c.sqrt_k
            &&& c.base_asset_reserve * c.quote_asset_reserve <= c.sqrt_k * c.sqrt_k
            &&& c.base_asset_reserve * (c.quote_asset_reserve + 1) > c.sqrt_k * c.sqrt_k
            &&& c.min_base_asset_reserve < c.base_asset_reserve < c.max_base_asset_reserve
            &&& c.peg_multiplier == 19_400 * 1_000_000
            &&& c.concentration_coef == 1_414_200
            &&& c.base_spread == 250 && c.max_spread == 50_000
            &&& c.curve_update_intensity == curve_update_intensity
            &&& c.total_fee_minus_distributions == fees
        }),
{
}

} // verus!
