//! How far prices move, when they are acted on, and how time passes.

use vstd::prelude::*;
use crate::accounts::LazerOracle;
use crate::fixture::Fixture;
use crate::keys::Pubkey;
use crate::lazer::{
    ask_of, bid_of, update_properties, update_time, updated_price, Property, UpdateChoices,
};
use crate::oracle::{
    at_least_one, confidence, months_in_slots, oracle_is_fresh, seconds, step_delta, step_price,
    step_size, stepped, Clock, GuardRails, MarketTolerance, OracleOwner, OracleWrite, Warp,
};

verus! {

// ---------------------------------------------------------------------------
// Steps
// ---------------------------------------------------------------------------

/// `size` is so many basis points of a price, rounded down, and at least one unless
/// there are none.
pub open spec fn is_step(size: int, price: int, bps: int) -> bool {
    if bps == 0 {
        size == 0
    } else if price * bps < 10_000 {
        size == 1
    } else {
        size * 10_000 <= price * bps < (size + 1) * 10_000
    }
}

proof fn steps_are_steps(price: int, bps: u64)
    requires
        price >= 1,
    ensures
        is_step(step_size(price, bps), price, bps as int),
        step_size(price, bps) >= 0,
{
    assert(price * bps >= 0) by (nonlinear_arith)
        requires
            price >= 1,
            bps >= 0,
    ;
    if bps == 0 {
        assert(price * bps == 0) by (nonlinear_arith)
            requires
                bps == 0,
        ;
    }
}

proof fn steps_have_one_size(a: int, b: int, price: int, bps: int)
    requires
        is_step(a, price, bps),
        is_step(b, price, bps),
    ensures
        a == b,
{
}

/// A step up adds its basis points of the price to it, and a step down takes them
/// away; the price stays positive and within a machine word. A price below one
/// counts as one.
pub proof fn steps_move_by_their_basis_points(
    price: i64,
    up: bool,
    bps: u64,
    r: i64,
    current: int,
    size: int,
)
    requires
        call_ensures(step_price, (price, up, bps), r),
        price >= 1 ==> current == price,
        price < 1 ==> current == 1,
        is_step(size, current, bps as int),
    ensures
        up && current + size <= i64::MAX ==> r == current + size,
        up && current + size > i64::MAX ==> r == i64::MAX,
        !up && current - size >= 1 ==> r == current - size,
        !up && current - size < 1 ==> r == 1,
{
    steps_are_steps(current, bps);
    steps_have_one_size(size, step_size(current, bps), current, bps as int);
}

/// The size of a step is its basis points of the price.
pub proof fn step_sizes_are_basis_points(current: i64, bps: u64, r: i128)
    requires
        call_ensures(step_delta, (current, bps), r),
        current >= 1,
    ensures
        is_step(r as int, current as int, bps as int),
{
    steps_are_steps(current as int, bps);
}

/// What is true of an oracle that was written by a step: the price moved as told,
/// the confidence is its parts per million of the new price, rounded down, it was
/// posted so many slots back, never before the first, and it carries the publish
/// time.
pub open spec fn written_by_step(
    o: LazerOracle,
    price: i64,
    up: bool,
    bps: u64,
    conf_ppm: u64,
    slot: u64,
    slot_lag: u64,
    publish_time: u64,
) -> bool {
    let current = if price >= 1 {
        price as int
    } else {
        1
    };
    &&& o.price >= 1
    &&& up && o.price < i64::MAX ==> is_step(o.price - current, current, bps as int)
    &&& !up && o.price > 1 ==> is_step(current - o.price, current, bps as int)
    &&& conf_ppm <= 1_000_000 ==> o.conf * 1_000_000 <= o.price * conf_ppm < (o.conf + 1)
        * 1_000_000
    &&& slot >= slot_lag ==> o.posted_slot + slot_lag == slot
    &&& slot < slot_lag ==> o.posted_slot == 0
    &&& o.publish_time == publish_time
    &&& o.exponent == -6
}

proof fn steps_write(
    price: i64,
    up: bool,
    bps: u64,
    conf_ppm: u64,
    slot: u64,
    slot_lag: u64,
    publish_time: u64,
)
    ensures
        written_by_step(
            crate::oracle::stepped_oracle(price, up, bps, conf_ppm, slot, slot_lag, publish_time),
            price,
            up,
            bps,
            conf_ppm,
            slot,
            slot_lag,
            publish_time,
        ),
{
    let current = at_least_one(price as int);
    steps_are_steps(current, bps);
    let next = stepped(price, up, bps) as i64;
    assert(next == stepped(price, up, bps));
    if conf_ppm <= 1_000_000 {
        crate::oracle::confidence_follows_the_price(next, conf_ppm);
        let p = next * conf_ppm;
        assert(0 <= p <= next * 1_000_000) by (nonlinear_arith)
            requires
                p == next * conf_ppm,
                next >= 1,
                0 <= conf_ppm <= 1_000_000,
        ;
        assert(0 <= confidence(next as int, conf_ppm) <= u64::MAX);
    }
}

/// A stepped oracle is the one that was named, and each write has a publish time of
/// its own, one later than the last; nothing else of the scenario changes.
pub proof fn oracles_step_as_told(
    f: &mut Fixture,
    address: Pubkey,
    price: i64,
    up: bool,
    bps: u64,
    conf_ppm: u64,
    slot: u64,
    slot_lag: u64,
    r: OracleWrite,
)
    requires
        call_ensures(
            Fixture::step_oracle,
            (f, address, price, up, bps, conf_ppm, slot, slot_lag),
            r,
        ),
        old(f).oracle_seq < u64::MAX,
    ensures
        r.address == address,
        written_by_step(
            r.oracle,
            price,
            up,
            bps,
            conf_ppm,
            slot,
            slot_lag,
            old(f).oracle_seq,
        ),
        final(f).oracle_seq == old(f).oracle_seq + 1,
        *final(f) == (Fixture { oracle_seq: final(f).oracle_seq, ..*old(f) }),
{
    steps_write(price, up, bps, conf_ppm, slot, slot_lag, old(f).oracle_seq);
}

/// The two oracles of a scenario move on their own: each action writes over its
/// market's oracle. Choice one moves up, any other down; a confidence is drawn only
/// where a wide one is asked for.
pub proof fn each_oracle_moves_on_its_own(
    f: &mut Fixture,
    g: &mut Fixture,
    up: u8,
    bps: u64,
    wide_conf: u8,
    conf_ppm: u64,
    slot_lag: u64,
    price: i64,
    slot: u64,
    perp: OracleWrite,
    spot: OracleWrite,
)
    requires
        call_ensures(
            Fixture::action_move_oracle_price,
            (f, up, bps, wide_conf, conf_ppm, slot_lag, price, slot),
            perp,
        ),
        call_ensures(
            Fixture::action_move_spot_1_oracle_price,
            (g, up, bps, wide_conf, conf_ppm, slot_lag, price, slot),
            spot,
        ),
        old(f).oracle_seq < u64::MAX,
        old(g).oracle_seq < u64::MAX,
    ensures
        perp.address == old(f).perp_oracle_pda,
        spot.address == old(g).spot_1_oracle_pda,
        wide_conf != 1 ==> perp.oracle.conf == 0 && spot.oracle.conf == 0,
        wide_conf == 1 ==> written_by_step(
            perp.oracle,
            price,
            up == 1,
            bps,
            conf_ppm,
            slot,
            slot_lag,
            old(f).oracle_seq,
        ),
        wide_conf != 1 ==> written_by_step(
            perp.oracle,
            price,
            up == 1,
            bps,
            0,
            slot,
            slot_lag,
            old(f).oracle_seq,
        ),
        old(f).oracle_seq == old(g).oracle_seq ==> perp.oracle == spot.oracle,
        final(f).oracle_seq == old(f).oracle_seq + 1,
        *final(f) == (Fixture { oracle_seq: final(f).oracle_seq, ..*old(f) }),
        final(g).oracle_seq == old(g).oracle_seq + 1,
        *final(g) == (Fixture { oracle_seq: final(g).oracle_seq, ..*old(g) }),
{
    steps_write(price, up == 1, bps, conf_ppm, slot, slot_lag, old(f).oracle_seq);
    steps_write(price, up == 1, bps, 0, slot, slot_lag, old(f).oracle_seq);
    steps_write(price, up == 1, bps, 0, slot, slot_lag, old(g).oracle_seq);
    assert(stepped(price, up == 1, bps) * 0 == 0);
}

/// A market's oracle and the market itself go together.
pub proof fn oracles_have_owners(f: &Fixture, owner: OracleOwner, r: (Pubkey, Pubkey))
    requires
        call_ensures(Fixture::owned_oracle, (f, owner), r),
    ensures
        owner is Perp ==> r.0 == f.perp_oracle_pda && r.1 == f.perp_market_pda,
        owner is Spot1 ==> r.0 == f.spot_1_oracle_pda && r.1 == f.spot_market_1_pda,
{
}

// ---------------------------------------------------------------------------
// Freshness
// ---------------------------------------------------------------------------

/// A price is acted on exactly where it is positive, was posted no more than two
/// slots ago, is known to within the market's share of it, and is not more than the
/// given number of times its average or the other way round. Each of the four
/// excuses alone is enough.
pub proof fn fresh_prices_pass_four_tests(
    o: &LazerOracle,
    rails: &GuardRails,
    market: &MarketTolerance,
    slot: u64,
    r: bool,
)
    requires
        call_ensures(oracle_is_fresh, (o, rails, market, slot), r),
    ensures
        r <==> {
            let admitted = rails.confidence_interval_max_size * market.confidence_multiplier;
            let times = rails.too_volatile_ratio;
            let average = if market.last_oracle_price_twap >= 1 {
                market.last_oracle_price_twap as int
            } else {
                1
            };
            &&& o.price >= 1
            &&& o.posted_slot + 2 >= slot
            &&& o.conf * 1_000_000 < (admitted + 1) * o.price
            &&& o.price >= market.last_oracle_price_twap ==> o.price < (times + 1) * average
            &&& o.price < market.last_oracle_price_twap ==> market.last_oracle_price_twap < (times
                + 1) * o.price
        },
{
    let admitted = rails.confidence_interval_max_size * market.confidence_multiplier;
    let average = at_least_one(market.last_oracle_price_twap as int);
    if o.price >= 1 {
        quotient_within(o.conf * 1_000_000, o.price as int, admitted);
        quotient_within(o.price as int, average, rails.too_volatile_ratio as int);
        quotient_within(
            market.last_oracle_price_twap as int,
            o.price as int,
            rails.too_volatile_ratio as int,
        );
    }
}

proof fn quotient_within(a: int, b: int, limit: int)
    requires
        b >= 1,
    ensures
        a / b <= limit <==> a < (limit + 1) * b,
{
    vstd::arithmetic::div_mod::lemma_fundamental_div_mod(a, b);
    vstd::arithmetic::div_mod::lemma_mod_bound(a, b);
    let q = a / b;
    assert(q * b <= a < (q + 1) * b) by (nonlinear_arith)
        requires
            a == b * q + a % b,
            0 <= a % b < b,
    ;
    if q <= limit {
        assert((q + 1) * b <= (limit + 1) * b) by (nonlinear_arith)
            requires
                q <= limit,
                b >= 1,
        ;
    } else {
        assert(q * b >= (limit + 1) * b) by (nonlinear_arith)
            requires
                q >= limit + 1,
                b >= 1,
        ;
    }
}

// ---------------------------------------------------------------------------
// Time
// ---------------------------------------------------------------------------

/// What a warp reposts: each oracle at its own price, or one where it has none, with
/// no uncertainty, at the new slot, and under publish times of their own.
pub open spec fn reposts_prices(
    r: Warp,
    f: Fixture,
    price_perp: Option<i64>,
    price_spot: Option<i64>,
) -> bool {
    r.reposts is Some && {
        let (perp, spot) = r.reposts->0;
        &&& perp.address == f.perp_oracle_pda && spot.address == f.spot_1_oracle_pda
        &&& price_perp is Some ==> perp.oracle.price == price_perp->0
        &&& price_perp is None ==> perp.oracle.price == 1_000_000
        &&& price_spot is Some ==> spot.oracle.price == price_spot->0
        &&& price_spot is None ==> spot.oracle.price == 1_000_000
        &&& perp.oracle.conf == 0 && spot.oracle.conf == 0
        &&& perp.oracle.posted_slot == r.clock.slot && spot.oracle.posted_slot == r.clock.slot
        &&& perp.oracle.publish_time == f.oracle_seq && spot.oracle.publish_time == f.oracle_seq + 1
        &&& perp.oracle.exponent == -6 && spot.oracle.exponent == -6
    }
}

/// A warp moves the slot on by as much as was asked and the time by two fifths of a
/// second for each; the oracles are reposted at the new slot, or left to go stale.
/// Nothing else of the scenario changes.
pub proof fn warps_move_slots_and_seconds(
    f: &mut Fixture,
    slots: u64,
    repost: u8,
    clock: Clock,
    price_perp: Option<i64>,
    price_spot: Option<i64>,
    r: Warp,
)
    requires
        call_ensures(Fixture::action_warp, (f, slots, repost, clock, price_perp, price_spot), r),
        clock.slot + slots <= u64::MAX,
        repost != 0 ==> old(f).oracle_seq + 2 <= u64::MAX,
    ensures
        r.clock.slot - clock.slot == slots,
        slots <= 0x1_0000_0000_0000 && clock.unix_timestamp <= 0x1_0000_0000_0000 ==> ({
            let passed = r.clock.unix_timestamp - clock.unix_timestamp;
            5 * passed <= 2 * slots < 5 * (passed + 1)
        }),
        repost == 0 ==> r.reposts is None && *final(f) == *old(f),
        repost != 0 ==> reposts_prices(r, *old(f), price_perp, price_spot) && final(f).oracle_seq
            == old(f).oracle_seq + 2,
        *final(f) == (Fixture { oracle_seq: final(f).oracle_seq, ..*old(f) }),
{
    if slots <= 0x1_0000_0000_0000 {
        crate::oracle::time_follows_the_slots(clock, slots, slots);
    }
}

/// A month is thirty days, in slots of four hundred milliseconds: a long warp moves
/// the slot and the time on by so many of them.
pub proof fn months_are_thirty_days(
    f: &mut Fixture,
    months: u64,
    repost: u8,
    clock: Clock,
    price_perp: Option<i64>,
    price_spot: Option<i64>,
    r: Warp,
)
    requires
        call_ensures(Fixture::action_warp_long, (f, months, repost, clock, price_perp, price_spot), r),
        months <= 1_000_000,
        clock.slot + months_in_slots(months) <= u64::MAX,
        clock.unix_timestamp <= 0x1_0000_0000_0000,
        repost != 0 ==> old(f).oracle_seq + 2 <= u64::MAX,
    ensures
        r.clock.slot - clock.slot == months * (30 * 24 * 3600 * 1000 / 400),
        r.clock.unix_timestamp - clock.unix_timestamp == months * (30 * 24 * 3600),
        repost == 0 ==> r.reposts is None && *final(f) == *old(f),
        repost != 0 ==> reposts_prices(r, *old(f), price_perp, price_spot) && final(f).oracle_seq
            == old(f).oracle_seq + 2,
        *final(f) == (Fixture { oracle_seq: final(f).oracle_seq, ..*old(f) }),
{
    let slots = months_in_slots(months) as u64;
    assert(months_in_slots(months) == months * 6_480_000);
    crate::oracle::time_follows_the_slots(clock, slots, slots);
    assert(seconds(slots) == months * 2_592_000);
}

// ---------------------------------------------------------------------------
// The hedger
// ---------------------------------------------------------------------------

/// A grant writes the status and a revocation clears it, on the user that was named.
pub proof fn hedgers_are_granted_and_revoked(
    f: &Fixture,
    user_idx: usize,
    grant: u8,
    vamm_hedger: u8,
    r: (Pubkey, u8),
)
    requires
        call_ensures(Fixture::action_set_vamm_hedger, (f, user_idx, grant, vamm_hedger), r),
        user_idx < f.users@.len(),
    ensures
        r.0 == f.users@[user_idx as int].user_pda,
        grant == 1 ==> r.1 == vamm_hedger,
        grant != 1 ==> r.1 == 0,
{
}

// ---------------------------------------------------------------------------
// Signed updates
// ---------------------------------------------------------------------------

/// An update moves the price as a step does.
pub proof fn updates_move_by_their_basis_points(
    price: i64,
    up: bool,
    bps: u64,
    current: int,
    size: int,
)
    requires
        price >= 1 ==> current == price,
        price < 1 ==> current == 1,
        is_step(size, current, bps as int),
    ensures
        up && current + size <= i64::MAX ==> updated_price(price, up, bps) == current + size,
        !up && current - size >= 1 ==> updated_price(price, up, bps) == current - size,
        !up && current - size < 1 ==> updated_price(price, up, bps) == 1,
{
    steps_are_steps(current, bps);
    steps_have_one_size(size, step_size(current, bps), current, bps as int);
}

/// The time of an update. In the first mode it is the clock's, unless the oracle
/// already holds that or a later one, and then one past the oracle's. In the second
/// it is an hour behind the clock. In any other it is before every update.
pub proof fn update_times_are_fresh_stale_or_first(
    ts_mode: u8,
    unix_timestamp: i64,
    last_publish_time: u64,
)
    requires
        0 <= unix_timestamp <= 0x100_0000_0000,
        last_publish_time < u64::MAX,
    ensures
        ({
            let at = update_time(ts_mode, unix_timestamp, last_publish_time);
            let now = unix_timestamp * 1_000_000;
            &&& ts_mode == 0 && last_publish_time < now ==> at == now
            &&& ts_mode == 0 && last_publish_time >= now ==> at == last_publish_time + 1
            &&& ts_mode == 1 && unix_timestamp >= 3600 ==> at == (unix_timestamp - 3600) * 1_000_000
            &&& ts_mode == 1 && unix_timestamp < 3600 ==> at == 0
            &&& ts_mode > 1 ==> at == 0
        }),
{
}

/// The bid and the ask of an update lie a thousandth of the price below and above
/// it, rounded toward the price.
pub proof fn quotes_straddle_the_price(price: int)
    requires
        1 <= price <= 0x7f00_0000_0000_0000,
    ensures
        1 <= bid_of(price) <= price <= ask_of(price),
        price >= 2 ==> ask_of(price) - price == price - bid_of(price),
        (ask_of(price) - price) * 1000 <= price < (ask_of(price) - price + 1) * 1000,
{
}

/// An update carries its price first, with six decimals and the time; a bid and an
/// ask only where they are asked for; a confidence only where it is asked for, the
/// last of all, and never below one.
pub proof fn updates_carry_what_was_chosen(price: i64, c: UpdateChoices)
    ensures
        ({
            let sent = update_properties(price as int, c);
            &&& sent[0] == Property::Mid(price)
            &&& sent[1] == Property::Decimals((-6) as i16)
            &&& sent[2] is UpdatedAt
            &&& sent.len() == 3 + (if c.with_bid_ask { 2int } else { 0 }) + (
            if c.with_confidence { 1int } else { 0 })
            &&& c.with_bid_ask ==> sent[3] == Property::Bid(bid_of(price as int) as i64) && sent[4]
                == Property::Ask(ask_of(price as int) as i64)
            &&& c.with_confidence && c.confidence >= 1 ==> sent.last() == Property::Certainty(
                c.confidence,
            )
            &&& c.with_confidence && c.confidence < 1 ==> sent.last() == Property::Certainty(1)
        }),
{
}

/// Feed zero is the perp market's and every other is spot market 1's, each with the
/// oracle of its market.
pub proof fn feeds_have_oracles(f: &Fixture, which_feed: u8, r: (u32, Pubkey))
    requires
        call_ensures(Fixture::feed_of, (f, which_feed), r),
    ensures
        which_feed == 0 ==> r.0 == crate::fixture::PERP_FEED_ID && r.1 == f.perp_oracle_pda,
        which_feed != 0 ==> r.0 == crate::fixture::SPOT_1_FEED_ID && r.1 == f.spot_1_oracle_pda,
        crate::fixture::PERP_FEED_ID != crate::fixture::SPOT_1_FEED_ID,
{
}

} // verus!
