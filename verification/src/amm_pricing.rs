//! Properties of the AMM's pricing curve.
//!
//! Each property builds a curve, has the exchange price something on it, and
//! judges what came back. The curves and the judgements are here; pricing is the
//! exchange's.

use vstd::prelude::*;
use crate::constants::{
    AMM_RESERVE_PRECISION, MAX_CONCENTRATION_COEFFICIENT, PEG_PRECISION, PRICE_PRECISION,
};
use crate::model::PositionDirection;

verus! {

/// What sets a curve apart from a blank one.
#[derive(Clone, Copy, PartialEq, Eq, Debug)]
pub struct Curve {
    pub base_asset_reserve: u128,
    pub quote_asset_reserve: u128,
    pub terminal_quote_asset_reserve: u128,
    pub sqrt_k: u128,
    pub peg_multiplier: u128,
    pub concentration_coef: u128,
    pub base_asset_amount_with_amm: i128,
    pub min_base_asset_reserve: u128,
    pub max_base_asset_reserve: u128,
    pub ask_base_asset_reserve: u128,
    pub bid_base_asset_reserve: u128,
    pub base_spread: u32,
    pub max_spread: u32,
    pub curve_update_intensity: u8,
    pub amm_jit_intensity: u8,
    pub max_fill_reserve_fraction: u16,
    pub total_fee_minus_distributions: i128,
}

impl Curve {
    #[verifier::allow_in_spec]
    pub fn blank() -> Curve
        returns
            (Curve {
                base_asset_reserve: 0,
                quote_asset_reserve: 0,
                terminal_quote_asset_reserve: 0,
                sqrt_k: 0,
                peg_multiplier: 0,
                concentration_coef: 0,
                base_asset_amount_with_amm: 0,
                min_base_asset_reserve: 0,
                max_base_asset_reserve: 0,
                ask_base_asset_reserve: 0,
                bid_base_asset_reserve: 0,
                base_spread: 0,
                max_spread: 0,
                curve_update_intensity: 0,
                amm_jit_intensity: 0,
                max_fill_reserve_fraction: 0,
                total_fee_minus_distributions: 0,
            }),
    {
        Curve {
            base_asset_reserve: 0,
            quote_asset_reserve: 0,
            terminal_quote_asset_reserve: 0,
            sqrt_k: 0,
            peg_multiplier: 0,
            concentration_coef: 0,
            base_asset_amount_with_amm: 0,
            min_base_asset_reserve: 0,
            max_base_asset_reserve: 0,
            ask_base_asset_reserve: 0,
            bid_base_asset_reserve: 0,
            base_spread: 0,
            max_spread: 0,
            curve_update_intensity: 0,
            amm_jit_intensity: 0,
            max_fill_reserve_fraction: 0,
            total_fee_minus_distributions: 0,
        }
    }
}

// ---------------------------------------------------------------------------
// Wide arithmetic
// ---------------------------------------------------------------------------

/// Two to the sixty-fourth.
pub const HALF: u128 = 0x1_0000_0000_0000_0000;

/// The number that two 128-bit digits write.
pub open spec fn wide(high: u128, low: u128) -> int {
    high * 0x1_0000_0000_0000_0000_0000_0000_0000_0000int + low
}

/// The full product of two 128-bit numbers, as two digits.
pub fn wide_product(a: u128, b: u128) -> (r: (u128, u128))
    ensures
        wide(r.0, r.1) == a * b,
{
    let a1: u128 = a / HALF;
    let a0: u128 = a % HALF;
    let b1: u128 = b / HALF;
    let b0: u128 = b % HALF;
    proof {
        digit_product(a0, b0);
        digit_product(a0, b1);
        digit_product(a1, b0);
        digit_product(a1, b1);
    }
    let p00: u128 = a0 * b0;
    let t: u128 = a0 * b1 + p00 / HALF;
    let u: u128 = a1 * b0 + t % HALF;
    let high: u128 = a1 * b1 + t / HALF + u / HALF;
    let low: u128 = (u % HALF) * HALF + p00 % HALF;
    proof {
        let h = HALF as int;
        assert(h * h == 0x1_0000_0000_0000_0000_0000_0000_0000_0000int) by (nonlinear_arith)
            requires
                h == 0x1_0000_0000_0000_0000int,
        ;
        assert(a * b == a1 * b1 * (h * h) + (a0 * b1 + a1 * b0) * h + a0 * b0) by (nonlinear_arith)
            requires
                a == a1 * h + a0,
                b == b1 * h + b0,
        ;
        let q0 = (p00 / HALF) as int;
        let r0 = (p00 % HALF) as int;
        let q1 = (t / HALF) as int;
        let r1 = (t % HALF) as int;
        let q2 = (u / HALF) as int;
        let r2 = (u % HALF) as int;
        assert((a1 * b1 + q1 + q2) * (h * h) + (r2 * h + r0) == a1 * b1 * (h * h) + (a0 * b1 + a1
            * b0) * h + a0 * b0) by (nonlinear_arith)
            requires
                a0 * b0 == q0 * h + r0,
                a0 * b1 + q0 == q1 * h + r1,
                a1 * b0 + r1 == q2 * h + r2,
        ;
    }
    (high, low)
}

proof fn digit_product(x: u128, y: u128)
    requires
        x < HALF,
        y < HALF,
    ensures
        0 <= x * y <= (HALF - 1) * (HALF - 1),
{
    assert(0 <= x * y <= (HALF - 1) * (HALF - 1)) by (nonlinear_arith)
        requires
            0 <= x <= HALF - 1,
            0 <= y <= HALF - 1,
    ;
}

/// Whether one product is above another.
pub fn product_above(a: u128, b: u128, c: u128, d: u128) -> (r: bool)
    ensures
        r == (a * b > c * d),
{
    let (h1, l1) = wide_product(a, b);
    let (h2, l2) = wide_product(c, d);
    assert(wide(h1, l1) > wide(h2, l2) <==> h1 > h2 || (h1 == h2 && l1 > l2));
    h1 > h2 || (h1 == h2 && l1 > l2)
}

/// `r` is the root of `n`, rounded down.
pub open spec fn is_root(r: int, n: int) -> bool {
    0 <= r && r * r <= n < (r + 1) * (r + 1)
}

/// The root of a number, rounded down.
pub open spec fn root(n: int) -> int {
    choose|r: int| is_root(r, n)
}

pub fn integer_sqrt(n: u128) -> (r: u128)
    ensures
        is_root(r as int, n as int),
        r == root(n as int),
{
    let mut low: u128 = 0;
    let mut high: u128 = HALF;
    assert(low * low <= n < high * high);
    while high - low > 1
        invariant
            low < high <= HALF,
            low * low <= n < high * high,
        decreases high - low,
    {
        let mid: u128 = low + (high - low) / 2;
        proof {
            digit_product(mid, mid);
        }
        if mid * mid <= n {
            low = mid;
        } else {
            high = mid;
        }
    }
    assert(high == low + 1);
    proof {
        root_is_unique(low as int, root(n as int), n as int);
    }
    low
}

/// A number has one root: whatever squares to it from below, with a successor
/// that does not, is the same.
pub proof fn root_is_unique(r: int, s: int, n: int)
    requires
        is_root(r, n),
        is_root(s, n),
    ensures
        r == s,
{
    if r < s {
        assert((r + 1) * (r + 1) <= s * s) by (nonlinear_arith)
            requires
                0 <= r + 1 <= s,
        ;
    } else if s < r {
        assert((s + 1) * (s + 1) <= r * r) by (nonlinear_arith)
            requires
                0 <= s + 1 <= r,
        ;
    }
}

// ---------------------------------------------------------------------------
// Swaps
// ---------------------------------------------------------------------------

pub open spec fn least(a: int, b: int) -> int {
    if a <= b {
        a
    } else {
        b
    }
}

/// How much of a balanced pool's base is swapped: so many millionths of it, at
/// most half, and at least one.
pub open spec fn swapped(base: u64, millionths: u64) -> int {
    let delta = least((base * millionths) / 1_000_000, base as int / 2);
    if delta >= 1 {
        delta
    } else {
        1
    }
}

pub fn swap_delta(base: u64, millionths: u64) -> (r: u128)
    ensures
        r == swapped(base, millionths),
{
    assert(base * millionths <= u64::MAX * u64::MAX) by (nonlinear_arith)
        requires
            base <= u64::MAX,
            millionths <= u64::MAX,
    ;
    let part: u128 = (base as u128 * millionths as u128) / 1_000_000;
    let half: u128 = base as u128 / 2;
    let delta: u128 = if part <= half {
        part
    } else {
        half
    };
    if delta >= 1 {
        delta
    } else {
        1
    }
}

/// A swap takes something from a pool of two or more, and never more than half.
pub proof fn swaps_leave_half(base: u64, millionths: u64)
    requires
        base >= 2,
    ensures
        1 <= swapped(base, millionths) <= base / 2,
{
}

/// A swap on a pool with product `sqrt_k` squared, from which `new_in` and
/// `new_out` came out, favours the pool, and no more than rounding asks.
pub open spec fn keeps_k(sqrt_k: int, new_in: int, new_out: int) -> bool {
    new_in * new_out <= sqrt_k * sqrt_k < new_in * (new_out + 1)
}

/// Whether a swap kept the product, and whether opening and closing a position
/// returned no more than it cost.
pub fn prop_k_conserved_swap(
    sqrt_k: u64,
    new_in: u128,
    new_out: u128,
    quote_paid: u64,
    quote_recv: u64,
) -> (r: bool)
    requires
        new_out < u128::MAX,
    ensures
        r == (keeps_k(sqrt_k as int, new_in as int, new_out as int) && quote_recv <= quote_paid),
{
    let sk: u128 = sqrt_k as u128;
    !product_above(new_in, new_out, sk, sk) && product_above(new_in, new_out + 1, sk, sk)
        && quote_recv <= quote_paid
}

/// A swap keeps the product exactly when its output is the quotient, rounded
/// down.
pub proof fn kept_k_is_rounding_down(sqrt_k: int, new_in: int, new_out: int)
    requires
        new_in > 0,
    ensures
        keeps_k(sqrt_k, new_in, new_out) <==> new_out == (sqrt_k * sqrt_k) / new_in,
{
    let k = sqrt_k * sqrt_k;
    let q = k / new_in;
    assert(new_in * q <= k < new_in * (q + 1)) by (nonlinear_arith)
        requires
            new_in > 0,
            q == k / new_in,
    ;
    if keeps_k(sqrt_k, new_in, new_out) {
        assert(new_out == q) by (nonlinear_arith)
            requires
                new_in > 0,
                new_in * q <= k < new_in * (q + 1),
                new_in * new_out <= k < new_in * (new_out + 1),
        ;
    }
}

// ---------------------------------------------------------------------------
// Spreads and prices
// ---------------------------------------------------------------------------

/// Whether capped spreads fit under the cap, and capping them again changes
/// nothing.
pub fn prop_cap_to_max_spread(
    long_spread: u64,
    short_spread: u64,
    long_again: u64,
    short_again: u64,
    max_spread: u64,
) -> (r: bool)
    ensures
        r == (long_spread + short_spread <= max_spread && long_again == long_spread && short_again
            == short_spread),
{
    long_spread as u128 + short_spread as u128 <= max_spread as u128 && long_again == long_spread
        && short_again == short_spread
}

/// The bounds of a concentrated pool lie on either side of the root of its
/// product, and their own product is that product to within a thousandth.
pub open spec fn bounds_bracket(sqrt_k: int, bid: int, ask: int) -> bool {
    &&& bid < sqrt_k < ask
    &&& bid * ask <= sqrt_k * sqrt_k + (sqrt_k * sqrt_k) / 1000
    &&& bid * ask + (sqrt_k * sqrt_k) / 1000 >= sqrt_k * sqrt_k
}

fn brackets(sqrt_k: u64, bid: u128, ask: u128) -> (r: bool)
    ensures
        r == bounds_bracket(sqrt_k as int, bid as int, ask as int),
{
    let sk: u128 = sqrt_k as u128;
    assert(0 <= sqrt_k * sqrt_k <= u64::MAX * u64::MAX) by (nonlinear_arith)
        requires
            0 <= sqrt_k <= u64::MAX,
    ;
    let k: u128 = sk * sk;
    let slack: u128 = k / 1000;
    if !(bid < sk && sk < ask) {
        return false;
    }
    let (high, low) = wide_product(bid, ask);
    if high == 0 {
        if low >= k {
            low - k <= slack
        } else {
            k - low <= slack
        }
    } else {
        // The product is at least 2^128 and so above k, by one more than what k
        // lacks of the largest number, and the low digit.
        high == 1 && low <= slack && u128::MAX - k < slack - low
    }
}

/// Everything a concentrated, spread curve quotes.
#[derive(Clone, Copy, PartialEq, Eq, Debug)]
pub struct Quotes {
    /// The bounds of the base reserve.
    pub bid_bound: u128,
    pub ask_bound: u128,
    /// The price, the price with more quote, and the price with more base.
    pub price: u64,
    pub price_more_quote: u64,
    pub price_more_base: u64,
    /// The reserve price, and what is bid and asked around it.
    pub reserve_price: u64,
    pub bid: u64,
    pub ask: u64,
    /// A new price, held near the average price.
    pub sanitized: i64,
}

/// A price within the given fraction of the average price.
pub open spec fn in_band(price: i64, twap: i64, denom: i64) -> bool {
    -(twap / denom) <= price - twap <= twap / denom
}

/// Whether the bounds bracket the pool, the price rises with quote and falls with
/// base, the bid and the ask lie on either side of the reserve price, and a new
/// price is held in its band.
pub fn prop_bid_ask_price_bounds(sqrt_k: u64, q: &Quotes, twap: i64, denom: i64) -> (r: bool)
    requires
        twap > 0,
        denom > 0,
    ensures
        r == {
            &&& bounds_bracket(sqrt_k as int, q.bid_bound as int, q.ask_bound as int)
            &&& q.price_more_quote >= q.price
            &&& q.price_more_base <= q.price
            &&& q.bid <= q.reserve_price <= q.ask
            &&& in_band(q.sanitized, twap, denom)
        },
{
    let band: i128 = (twap / denom) as i128;
    let diff: i128 = q.sanitized as i128 - twap as i128;
    brackets(sqrt_k, q.bid_bound, q.ask_bound) && q.price_more_quote >= q.price
        && q.price_more_base <= q.price && q.bid <= q.reserve_price && q.reserve_price <= q.ask
        && -band <= diff && diff <= band
}

/// The curve whose price and spread are quoted.
#[verifier::allow_in_spec]
pub fn priced_curve(base: u64, quote: u64, peg: u64) -> Curve
    returns
        (Curve {
            base_asset_reserve: base as u128,
            quote_asset_reserve: quote as u128,
            peg_multiplier: peg as u128,
            ..Curve::blank()
        }),
{
    Curve {
        base_asset_reserve: base as u128,
        quote_asset_reserve: quote as u128,
        peg_multiplier: peg as u128,
        ..Curve::blank()
    }
}

// ---------------------------------------------------------------------------
// The cost of moving the curve
// ---------------------------------------------------------------------------

/// The remainder of a division that rounds toward zero.
pub open spec fn remainder(a: int, b: int) -> int {
    if a >= 0 {
        a % b
    } else {
        -((-a) % b)
    }
}

/// The AMM's inventory, reduced to less than a quarter of the pool.
pub fn reduced_inventory(inventory: i64, sqrt_k: u64) -> (r: i128)
    requires
        sqrt_k >= 4,
    ensures
        r == remainder(inventory as int, sqrt_k as int / 4),
{
    let quarter: u128 = sqrt_k as u128 / 4;
    if inventory >= 0 {
        ((inventory as u128) % quarter) as i128
    } else {
        let size: u128 = (-(inventory as i128)) as u128;
        -((size % quarter) as i128)
    }
}

/// A reduced inventory is less than a quarter of the pool, keeps its sign, and is
/// the inventory itself where that was small enough.
pub proof fn inventory_stays_small(inventory: i64, sqrt_k: u64)
    requires
        sqrt_k >= 4,
    ensures
        -(sqrt_k / 4) < remainder(inventory as int, sqrt_k as int / 4) < sqrt_k / 4,
        inventory >= 0 ==> remainder(inventory as int, sqrt_k as int / 4) >= 0,
        inventory <= 0 ==> remainder(inventory as int, sqrt_k as int / 4) <= 0,
        -(sqrt_k / 4) < inventory < sqrt_k / 4 ==> remainder(inventory as int, sqrt_k as int / 4)
            == inventory,
{
    let quarter = sqrt_k as int / 4;
    if inventory >= 0 {
        vstd::arithmetic::div_mod::lemma_mod_bound(inventory as int, quarter);
        if inventory < quarter {
            vstd::arithmetic::div_mod::lemma_small_mod(inventory as nat, quarter as nat);
        }
    } else {
        vstd::arithmetic::div_mod::lemma_mod_bound(-inventory, quarter);
        if -inventory < quarter {
            vstd::arithmetic::div_mod::lemma_small_mod((-inventory) as nat, quarter as nat);
        }
    }
}

/// The curve that is repegged.
#[verifier::allow_in_spec]
pub fn repegged_curve(quote: u64, terminal_quote: u64, peg: u64) -> Curve
    returns
        (Curve {
            quote_asset_reserve: quote as u128,
            terminal_quote_asset_reserve: terminal_quote as u128,
            peg_multiplier: peg as u128,
            ..Curve::blank()
        }),
{
    Curve {
        quote_asset_reserve: quote as u128,
        terminal_quote_asset_reserve: terminal_quote as u128,
        peg_multiplier: peg as u128,
        ..Curve::blank()
    }
}

/// The balanced curve whose depth is changed.
#[verifier::allow_in_spec]
pub fn resized_curve(sqrt_k: u64, inventory: i128) -> Curve
    returns
        (Curve {
            base_asset_reserve: sqrt_k as u128,
            quote_asset_reserve: sqrt_k as u128,
            sqrt_k: sqrt_k as u128,
            terminal_quote_asset_reserve: sqrt_k as u128,
            peg_multiplier: PEG_PRECISION,
            concentration_coef: MAX_CONCENTRATION_COEFFICIENT,
            base_asset_amount_with_amm: inventory,
            ..Curve::blank()
        }),
{
    Curve {
        base_asset_reserve: sqrt_k as u128,
        quote_asset_reserve: sqrt_k as u128,
        sqrt_k: sqrt_k as u128,
        terminal_quote_asset_reserve: sqrt_k as u128,
        peg_multiplier: PEG_PRECISION,
        concentration_coef: MAX_CONCENTRATION_COEFFICIENT,
        base_asset_amount_with_amm: inventory,
        ..Curve::blank()
    }
}

/// A tenth deeper.
pub fn deeper(sqrt_k: u64) -> (r: u128)
    ensures
        r == sqrt_k + sqrt_k / 10,
{
    sqrt_k as u128 + sqrt_k as u128 / 10
}

/// A tenth shallower.
pub fn shallower(sqrt_k: u64) -> (r: u128)
    ensures
        r == sqrt_k - sqrt_k / 10,
{
    sqrt_k as u128 - sqrt_k as u128 / 10
}

/// The cost of a new peg has the sign of what the quote reserve is above its
/// terminal value, times that of the move, and is nothing where either is
/// nothing.
pub open spec fn repeg_cost_sound(quote: int, terminal: int, peg: int, new_peg: int, cost: int) -> bool {
    if quote == terminal || peg == new_peg {
        cost == 0
    } else if (quote > terminal) == (new_peg > peg) {
        cost >= 0
    } else {
        cost <= 0
    }
}

/// Whether the cost of a new peg has the right sign, deepening the pool costs
/// something, and making it shallower relieves it. A change of depth that the
/// exchange refused has no cost to judge.
pub fn prop_repeg_k_cost(
    quote: u64,
    terminal: u64,
    peg: u64,
    new_peg: u64,
    cost: i128,
    cost_deeper: Option<i128>,
    cost_shallower: Option<i128>,
) -> (r: bool)
    ensures
        r == {
            &&& repeg_cost_sound(
                quote as int,
                terminal as int,
                peg as int,
                new_peg as int,
                cost as int,
            )
            &&& cost_deeper matches Some(c) ==> c >= 0
            &&& cost_shallower matches Some(c) ==> c <= 0
        },
{
    let repeg = if quote == terminal || peg == new_peg {
        cost == 0
    } else if (quote > terminal) == (new_peg > peg) {
        cost >= 0
    } else {
        cost <= 0
    };
    let deep = match cost_deeper {
        Some(c) => c >= 0,
        None => true,
    };
    let shallow = match cost_shallower {
        Some(c) => c <= 0,
        None => true,
    };
    repeg && deep && shallow
}

/// The product of the two differences is a sound cost: what a repeg is charged
/// has the sign that is asked for.
pub proof fn product_of_moves_is_sound(quote: int, terminal: int, peg: int, new_peg: int)
    ensures
        repeg_cost_sound(quote, terminal, peg, new_peg, (quote - terminal) * (new_peg - peg)),
{
    let a = quote - terminal;
    let b = new_peg - peg;
    assert((a == 0 || b == 0) ==> a * b == 0) by (nonlinear_arith);
    assert((a > 0) == (b > 0) && a != 0 && b != 0 ==> a * b >= 0) by (nonlinear_arith);
    assert((a > 0) != (b > 0) && a != 0 && b != 0 ==> a * b <= 0) by (nonlinear_arith);
}

// ---------------------------------------------------------------------------
// Just-in-time liquidity
// ---------------------------------------------------------------------------

/// The curve whose just-in-time liquidity is clamped.
#[verifier::allow_in_spec]
pub fn jit_curve(intensity: u8, inventory: i64) -> Curve
    returns
        (Curve {
            amm_jit_intensity: intensity,
            base_asset_amount_with_amm: inventory as i128,
            ..Curve::blank()
        }),
{
    Curve {
        amm_jit_intensity: intensity,
        base_asset_amount_with_amm: inventory as i128,
        ..Curve::blank()
    }
}

/// Whether a clamped slice is no larger than what went in, nor than the AMM's
/// inventory.
pub fn prop_jit_clamped_bound(jit_in: u64, inventory: i64, clamped: u64) -> (r: bool)
    ensures
        r == (clamped <= jit_in && clamped <= (if inventory >= 0 {
            inventory as int
        } else {
            -inventory
        })),
{
    let size: i128 = if inventory >= 0 {
        inventory as i128
    } else {
        -(inventory as i128)
    };
    clamped <= jit_in && clamped as i128 <= size
}

/// The order step of the market in which a slice is throttled.
pub const JIT_STEP: u64 = 1_000_000;

/// The balanced curve with two order steps of room on the ask side.
#[verifier::allow_in_spec]
pub fn throttled_curve(inventory: u64) -> Curve
    returns
        (Curve {
            base_asset_reserve: 100_000_000_000,
            quote_asset_reserve: 100_000_000_000,
            sqrt_k: 100_000_000_000,
            peg_multiplier: PEG_PRECISION,
            max_base_asset_reserve: 100_002_000_000,
            base_asset_amount_with_amm: inventory as i128,
            amm_jit_intensity: 100,
            max_fill_reserve_fraction: 1,
            ..Curve::blank()
        }),
{
    Curve {
        base_asset_reserve: 100_000_000_000,
        quote_asset_reserve: 100_000_000_000,
        sqrt_k: 100_000_000_000,
        peg_multiplier: PEG_PRECISION,
        max_base_asset_reserve: 100_002_000_000,
        base_asset_amount_with_amm: inventory as i128,
        amm_jit_intensity: 100,
        max_fill_reserve_fraction: 1,
        ..Curve::blank()
    }
}

/// The throttled curve is balanced, holds a hundred units, and its base can grow
/// by two order steps.
pub proof fn throttled_curve_has_little_room(inventory: u64)
    ensures
        throttled_curve(inventory).base_asset_reserve == 100 * AMM_RESERVE_PRECISION,
        throttled_curve(inventory).quote_asset_reserve == throttled_curve(
            inventory,
        ).base_asset_reserve,
        throttled_curve(inventory).max_base_asset_reserve == throttled_curve(
            inventory,
        ).base_asset_reserve + 2 * JIT_STEP,
{
}

/// Whether a slice sized from a match is throttled like one that the AMM fills
/// by itself.
pub fn regr_269_jit_available_liquidity(jit: u64, available: u64) -> (r: bool)
    ensures
        r == (jit <= available),
{
    jit <= available
}

// ---------------------------------------------------------------------------
// Trading to a limit price
// ---------------------------------------------------------------------------

/// The balanced curve whose cached ask and bid reserves lie `offset` below and
/// above its base reserve, though it has no base spread. `None` where the offset
/// takes up the whole reserve.
pub fn limit_curve(sqrt_k: u64, peg: u64, offset: u64) -> (r: Option<Curve>)
    ensures
        r is Some <==> offset < sqrt_k,
        r matches Some(c) ==> c == (Curve {
            sqrt_k: sqrt_k as u128,
            base_asset_reserve: sqrt_k as u128,
            quote_asset_reserve: sqrt_k as u128,
            peg_multiplier: peg as u128,
            ask_base_asset_reserve: (sqrt_k - offset) as u128,
            bid_base_asset_reserve: (sqrt_k + offset) as u128,
            ..Curve::blank()
        }),
{
    if offset >= sqrt_k {
        return None;
    }
    Some(
        Curve {
            sqrt_k: sqrt_k as u128,
            base_asset_reserve: sqrt_k as u128,
            quote_asset_reserve: sqrt_k as u128,
            peg_multiplier: peg as u128,
            ask_base_asset_reserve: sqrt_k as u128 - offset as u128,
            bid_base_asset_reserve: sqrt_k as u128 + offset as u128,
            ..Curve::blank()
        },
    )
}

/// The direction that a selector picks.
#[verifier::allow_in_spec]
pub fn picked_direction(selector: u8) -> PositionDirection
    returns
        (if selector == 0 {
            PositionDirection::Long
        } else {
            PositionDirection::Short
        }),
{
    if selector == 0 {
        PositionDirection::Long
    } else {
        PositionDirection::Short
    }
}

/// A limit far below the reserve price, and at least one.
pub fn low_limit(reserve_price: u64) -> (r: u64)
    ensures
        r == (if reserve_price / 4 >= 1 {
            reserve_price / 4
        } else {
            1
        }),
{
    if reserve_price / 4 >= 1 {
        reserve_price / 4
    } else {
        1
    }
}

/// The square of the base reserve at which a pool quotes a price: its product, at
/// that price and at its peg.
pub open spec fn reserve_square(sqrt_k: int, peg: int, limit_price: int) -> int {
    (sqrt_k * sqrt_k * PRICE_PRECISION / limit_price) * peg / PEG_PRECISION as int
}

/// The base reserve that an order meets: the ask's for a long one, the bid's for a
/// short one.
pub open spec fn met_reserve(c: Curve, dir: PositionDirection) -> u128 {
    match dir {
        PositionDirection::Long => c.ask_base_asset_reserve,
        PositionDirection::Short => c.bid_base_asset_reserve,
    }
}

/// The trade that takes a reserve to its target, as much as an order can hold.
pub open spec fn trade_to(before: int, target: int) -> (int, PositionDirection) {
    if target > before {
        (least(target - before, u64::MAX as int), PositionDirection::Short)
    } else {
        (least(before - target, u64::MAX as int), PositionDirection::Long)
    }
}

/// Unless it is too large for an order, the trade takes the reserve to its target:
/// selling base adds to it, and buying takes from it.
pub proof fn trades_reach_their_target(before: int, target: int)
    requires
        -u64::MAX <= target - before <= u64::MAX,
    ensures
        ({
            let (amount, dir) = trade_to(before, target);
            target == before + (if dir is Short {
                amount
            } else {
                -amount
            })
        }),
{
}

/// The pools that are traded on: less than a thousand units of either reserve, and
/// a peg below two.
pub open spec fn tradable(sqrt_k: u128, peg: u128) -> bool {
    sqrt_k < 1_000_000_000_000 && peg < 2_000_000
}

fn target_reserve(sqrt_k: u128, peg: u128, limit_price: u64) -> (r: u128)
    requires
        tradable(sqrt_k, peg),
        limit_price > 0,
    ensures
        r == root(reserve_square(sqrt_k as int, peg as int, limit_price as int)),
{
    assert(0 <= sqrt_k * sqrt_k <= 1_000_000_000_000 * 1_000_000_000_000) by (nonlinear_arith)
        requires
            0 <= sqrt_k < 1_000_000_000_000,
    ;
    let k: u128 = sqrt_k * sqrt_k;
    assert(k <= 1_000_000_000_000_000_000_000_000);
    let priced: u128 = k * 1_000_000;
    assert(priced == sqrt_k * sqrt_k * PRICE_PRECISION);
    let at_limit: u128 = priced / limit_price as u128;
    assert(at_limit <= priced) by (nonlinear_arith)
        requires
            at_limit == priced as int / limit_price as int,
            limit_price > 0,
            priced >= 0,
    ;
    assert(0 <= at_limit * peg <= 1_000_000_000_000_000_000_000_000_000_000 * 2_000_000)
        by (nonlinear_arith)
        requires
            0 <= at_limit <= 1_000_000_000_000_000_000_000_000_000_000,
            0 <= peg < 2_000_000,
    ;
    integer_sqrt(at_limit * peg / PEG_PRECISION)
}

/// Whether an order's cap at a limit price is sized by the reserve that the order
/// meets.
pub fn regr_269_limit_cap_reserve_basis(
    c: &Curve,
    dir: PositionDirection,
    limit_price: u64,
    amount: u64,
    out_dir: PositionDirection,
) -> (r: bool)
    requires
        tradable(c.sqrt_k, c.peg_multiplier),
        limit_price > 0,
    ensures
        r == ((amount as int, out_dir) == trade_to(
            met_reserve(*c, dir) as int,
            root(reserve_square(c.sqrt_k as int, c.peg_multiplier as int, limit_price as int)),
        )),
{
    let target = target_reserve(c.sqrt_k, c.peg_multiplier, limit_price);
    let before: u128 = match dir {
        PositionDirection::Long => c.ask_base_asset_reserve,
        PositionDirection::Short => c.bid_base_asset_reserve,
    };
    let (gap, expected_dir) = if target > before {
        (target - before, PositionDirection::Short)
    } else {
        (before - target, PositionDirection::Long)
    };
    let expected: u64 = if gap <= u64::MAX as u128 {
        gap as u64
    } else {
        u64::MAX
    };
    out_dir == expected_dir && amount == expected
}

// ---------------------------------------------------------------------------
// Projections
// ---------------------------------------------------------------------------

/// The curve whose refresh is projected: the AMM is short, its fees are few, and
/// the oracle is below its price.
#[verifier::allow_in_spec]
pub fn projected_curve(curve_update_intensity: u8, fees: u64) -> Curve
    returns
        (Curve {
            base_asset_reserve: 65_000_000_000,
            quote_asset_reserve: 63_015_384_615,
            terminal_quote_asset_reserve: 64_000_000_000,
            sqrt_k: 64_000_000_000,
            peg_multiplier: 19_400_000_000,
            base_asset_amount_with_amm: (-1_000_000_000) as i128,
            concentration_coef: MAX_CONCENTRATION_COEFFICIENT,
            min_base_asset_reserve: 45_000_000_000,
            max_base_asset_reserve: 90_000_000_000,
            base_spread: 250,
            max_spread: 50_000,
            curve_update_intensity,
            total_fee_minus_distributions: fees as i128,
            ..Curve::blank()
        }),
{
    Curve {
        base_asset_reserve: 65_000_000_000,
        quote_asset_reserve: 63_015_384_615,
        terminal_quote_asset_reserve: 64_000_000_000,
        sqrt_k: 64_000_000_000,
        peg_multiplier: 19_400_000_000,
        base_asset_amount_with_amm: (-1_000_000_000) as i128,
        concentration_coef: MAX_CONCENTRATION_COEFFICIENT,
        min_base_asset_reserve: 45_000_000_000,
        max_base_asset_reserve: 90_000_000_000,
        base_spread: 250,
        max_spread: 50_000,
        curve_update_intensity,
        total_fee_minus_distributions: fees as i128,
        ..Curve::blank()
    }
}

/// The projected curve lies on its own product, as far as whole units allow.
pub proof fn projected_curve_is_coherent(curve_update_intensity: u8, fees: u64)
    ensures
        ({
            let c = projected_curve(curve_update_intensity, fees);
            keeps_k(c.sqrt_k as int, c.base_asset_reserve as int, c.quote_asset_reserve as int)
        }),
{
}

/// A curve after a refresh, and what the refresh cost.
#[derive(Clone, Copy, PartialEq, Eq, Structural, Debug)]
pub struct Projection {
    pub sqrt_k: u128,
    pub peg_multiplier: u128,
    pub base_asset_reserve: u128,
    pub quote_asset_reserve: u128,
    pub cost: i128,
}

/// Whether the short projection agrees with the full one.
pub fn regr_269_scalar_k_floor(scalar: &Projection, full: &Projection) -> (r: bool)
    ensures
        r == (*scalar == *full),
{
    *scalar == *full
}

} // verus!
