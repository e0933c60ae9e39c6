use velocity_fuzz::amm_pricing::{
    deeper, integer_sqrt, jit_curve, limit_curve, low_limit, picked_direction, priced_curve,
    product_above, projected_curve, prop_bid_ask_price_bounds, prop_cap_to_max_spread,
    prop_jit_clamped_bound, prop_k_conserved_swap, prop_repeg_k_cost, reduced_inventory,
    regr_269_jit_available_liquidity, regr_269_limit_cap_reserve_basis, regr_269_scalar_k_floor,
    repegged_curve, resized_curve, shallower, swap_delta, throttled_curve, wide_product,
    Projection, Quotes,
};
use velocity_fuzz::model::PositionDirection;

#[test]
fn products_do_not_wrap() {
    assert_eq!(wide_product(0, u128::MAX), (0, 0));
    assert_eq!(wide_product(u128::MAX, u128::MAX), (u128::MAX - 1, 1));
    assert_eq!(wide_product(1 << 64, 1 << 64), (1, 0));
    assert_eq!(wide_product(3, 5), (0, 15));
    assert!(product_above(u128::MAX, 2, u128::MAX, 1));
    assert!(!product_above(6, 2, 4, 3));
}

#[test]
fn roots_are_rounded_down() {
    assert_eq!(integer_sqrt(0), 0);
    assert_eq!(integer_sqrt(15), 3);
    assert_eq!(integer_sqrt(16), 4);
    assert_eq!(integer_sqrt(u128::MAX), u64::MAX as u128);
}

#[test]
fn swaps_are_at_most_half_the_pool() {
    assert_eq!(swap_delta(1_000_000_000, 1), 1_000);
    assert_eq!(swap_delta(1_000_000_000, 900_000), 500_000_000);
    assert_eq!(swap_delta(10, 1), 1);
}

#[test]
fn swaps_round_for_the_pool() {
    // A pool of a thousand on either side, to which three hundred are added.
    let k = 1_000_000u128;
    let new_in = 1_300u128;
    let new_out = k / new_in;
    assert!(prop_k_conserved_swap(1_000, new_in, new_out, 10, 9));
    assert!(!prop_k_conserved_swap(1_000, new_in, new_out + 1, 10, 9));
    assert!(!prop_k_conserved_swap(1_000, new_in, new_out - 1, 10, 9));
    assert!(!prop_k_conserved_swap(1_000, new_in, new_out, 10, 11));
}

#[test]
fn caps_hold_and_settle() {
    assert!(prop_cap_to_max_spread(3, 4, 3, 4, 7));
    assert!(!prop_cap_to_max_spread(4, 4, 4, 4, 7));
    assert!(!prop_cap_to_max_spread(3, 4, 3, 3, 7));
    assert!(!prop_cap_to_max_spread(u64::MAX, u64::MAX, u64::MAX, u64::MAX, u64::MAX));
}

fn quotes() -> Quotes {
    Quotes {
        bid_bound: 800_000_000,
        ask_bound: 1_250_000_000,
        price: 100,
        price_more_quote: 101,
        price_more_base: 99,
        reserve_price: 100,
        bid: 95,
        ask: 105,
        sanitized: 1_010,
    }
}

#[test]
fn quotes_bracket_the_price() {
    assert!(prop_bid_ask_price_bounds(1_000_000_000, &quotes(), 1_000, 100));
    let wrong = [
        Quotes { bid_bound: 1_000_000_000, ..quotes() },
        Quotes { ask_bound: 1_252_000_000, ..quotes() },
        Quotes { ask_bound: u128::MAX, ..quotes() },
        Quotes { price_more_quote: 99, ..quotes() },
        Quotes { price_more_base: 101, ..quotes() },
        Quotes { bid: 101, ..quotes() },
        Quotes { ask: 99, ..quotes() },
        Quotes { sanitized: 1_011, ..quotes() },
        Quotes { sanitized: 989, ..quotes() },
    ];
    for q in &wrong {
        assert!(!prop_bid_ask_price_bounds(1_000_000_000, q, 1_000, 100));
    }
}

#[test]
fn bounds_are_judged_at_the_edge_of_the_machine() {
    // The pool's product is just below 2^128, and the bounds' product just above.
    let q = Quotes { bid_bound: u64::MAX as u128 - 1, ask_bound: (1u128 << 64) + 4, ..quotes() };
    assert!(prop_bid_ask_price_bounds(u64::MAX, &q, 1_000, 100));
}

#[test]
fn inventories_stay_below_a_quarter() {
    assert_eq!(reduced_inventory(10, 100), 10);
    assert_eq!(reduced_inventory(27, 100), 2);
    assert_eq!(reduced_inventory(-27, 100), -2);
    assert_eq!(reduced_inventory(i64::MIN, 4), 0);
}

#[test]
fn costs_have_the_sign_of_the_move() {
    assert!(prop_repeg_k_cost(10, 5, 1, 2, 7, Some(0), Some(0)));
    assert!(prop_repeg_k_cost(5, 10, 1, 2, -7, None, None));
    assert!(!prop_repeg_k_cost(10, 5, 1, 2, -7, None, None));
    assert!(prop_repeg_k_cost(5, 5, 1, 2, 0, None, None));
    assert!(!prop_repeg_k_cost(5, 5, 1, 2, 1, None, None));
    assert!(!prop_repeg_k_cost(5, 5, 1, 2, 0, Some(-1), None));
    assert!(!prop_repeg_k_cost(5, 5, 1, 2, 0, None, Some(1)));
    assert_eq!((deeper(1_005), shallower(1_005)), (1_105, 905));
}

#[test]
fn slices_are_clamped() {
    assert!(prop_jit_clamped_bound(10, -7, 7));
    assert!(!prop_jit_clamped_bound(10, -7, 8));
    assert!(!prop_jit_clamped_bound(5, 100, 6));
    assert!(prop_jit_clamped_bound(u64::MAX, i64::MIN, 1 << 63));
    assert!(regr_269_jit_available_liquidity(3, 3));
    assert!(!regr_269_jit_available_liquidity(4, 3));
}

#[test]
fn curves_set_what_their_property_needs() {
    assert_eq!(priced_curve(1, 2, 3).peg_multiplier, 3);
    assert_eq!(repegged_curve(1, 2, 3).terminal_quote_asset_reserve, 2);
    let c = resized_curve(9, -2);
    assert_eq!((c.sqrt_k, c.base_asset_amount_with_amm), (9, -2));
    assert_eq!(c.concentration_coef, 1_414_200);
    assert_eq!(jit_curve(50, -4).amm_jit_intensity, 50);
    assert_eq!(throttled_curve(8).max_base_asset_reserve, 100_002_000_000);
    let p = projected_curve(150, 12);
    assert_eq!((p.peg_multiplier, p.total_fee_minus_distributions), (19_400_000_000, 12));
    assert_eq!(p.base_asset_amount_with_amm, -1_000_000_000);
}

#[test]
fn limits_are_sized_by_the_reserve_that_is_met() {
    assert!(limit_curve(10, 1_000_000, 10).is_none());
    let c = limit_curve(1_000_000_000, 1_000_000, 5_000_000).unwrap();
    assert_eq!((c.ask_base_asset_reserve, c.bid_base_asset_reserve), (995_000_000, 1_005_000_000));
    let limit = low_limit(1_000_000);
    assert_eq!(limit, 250_000);
    assert_eq!(low_limit(3), 1);
    // A quarter of the price is met at twice the base.
    let long = picked_direction(0);
    let short = picked_direction(1);
    assert_eq!((long, short), (PositionDirection::Long, PositionDirection::Short));
    assert!(regr_269_limit_cap_reserve_basis(&c, long, limit, 1_005_000_000, short));
    assert!(regr_269_limit_cap_reserve_basis(&c, short, limit, 995_000_000, short));
    assert!(!regr_269_limit_cap_reserve_basis(&c, long, limit, 1_000_000_000, short));
    assert!(!regr_269_limit_cap_reserve_basis(&c, long, limit, 1_005_000_000, long));
}

#[test]
fn projections_agree_in_every_part() {
    let full = Projection {
        sqrt_k: 1,
        peg_multiplier: 2,
        base_asset_reserve: 3,
        quote_asset_reserve: 4,
        cost: -5,
    };
    assert!(regr_269_scalar_k_floor(&full, &full));
    assert!(!regr_269_scalar_k_floor(&Projection { cost: 5, ..full }, &full));
    assert!(!regr_269_scalar_k_floor(&Projection { sqrt_k: 2, ..full }, &full));
}
