//! Moving prices and time.

use vstd::prelude::*;
use crate::accounts::{build_pyth_lazer_oracle, LazerOracle};
use crate::constants::{NUM_USERS, PERCENTAGE_PRECISION, PRICE_PRECISION};
use crate::fixture::{addr, Fixture};
use crate::keys::{call, clock_sysvar_id, send, AccountMeta, Pubkey, Transaction};
use crate::margin::toward_zero;
use crate::trading::saturated;
use crate::wire::{le, le_signed, push_i64, push_u64};

verus! {

// ---------------------------------------------------------------------------
// Price steps
// ---------------------------------------------------------------------------

/// A price of at least one.
pub open spec fn at_least_one(price: int) -> int {
    if price < 1 {
        1
    } else {
        price
    }
}

/// The size of a step of so many basis points: at least one, unless there is to
/// be no step at all.
pub open spec fn step_size(current: int, bps: u64) -> int {
    let share = current * bps / 10_000;
    if bps > 0 && share < 1 {
        1
    } else {
        share
    }
}

/// The price after a step from the current one.
pub open spec fn stepped(price: i64, up: bool, bps: u64) -> int {
    let current = at_least_one(price as int);
    let next = at_least_one(
        if up {
            current + step_size(current, bps)
        } else {
            current - step_size(current, bps)
        },
    );
    if next > i64::MAX {
        i64::MAX as int
    } else {
        next
    }
}

pub fn step_delta(current: i64, bps: u64) -> (r: i128)
    requires
        current >= 1,
    ensures
        r == step_size(current as int, bps),
        0 <= r <= 0x10_0000_0000_0000_0000_0000_0000_0000,
{
    assert(0 <= current * bps <= 0x7fff_ffff_ffff_ffff * 0xffff_ffff_ffff_ffff) by (nonlinear_arith)
        requires
            1 <= current <= 0x7fff_ffff_ffff_ffff,
            0 <= bps <= 0xffff_ffff_ffff_ffff,
    ;
    let share: u128 = (current as u128) * (bps as u128) / 10_000;
    if bps > 0 && share < 1 {
        1
    } else {
        share as i128
    }
}

/// The price after a bounded step from the current one.
pub fn step_price(price: i64, up: bool, bps: u64) -> (r: i64)
    ensures
        r == stepped(price, up, bps),
{
    let current: i64 = if price < 1 {
        1
    } else {
        price
    };
    let delta = step_delta(current, bps);
    let next: i128 = if up {
        current as i128 + delta
    } else {
        current as i128 - delta
    };
    if next < 1 {
        1
    } else if next > i64::MAX as i128 {
        i64::MAX
    } else {
        next as i64
    }
}

/// A step keeps the price positive, goes the way it is told, and moves it by no
/// more than its basis points, or by one where those come to less.
pub proof fn steps_are_bounded(price: i64, up: bool, bps: u64)
    requires
        price >= 1,
    ensures
        1 <= stepped(price, up, bps) <= i64::MAX,
        up ==> stepped(price, up, bps) >= price,
        !up ==> stepped(price, up, bps) <= price,
        stepped(price, up, bps) - price <= step_size(price as int, bps),
        price - stepped(price, up, bps) <= step_size(price as int, bps),
        step_size(price as int, bps) <= 1 || step_size(price as int, bps) * 10_000 <= price * bps,
        bps == 0 ==> stepped(price, up, bps) == price,
{
    assert(price * bps >= 0) by (nonlinear_arith)
        requires
            price >= 1,
    ;
}

/// The confidence that is so many parts per million of a price, in a machine
/// word.
pub open spec fn confidence(price: int, conf_ppm: u64) -> int {
    price * conf_ppm / 1_000_000 % 0x1_0000_0000_0000_0000
}

fn confidence_of(price: i64, conf_ppm: u64) -> (r: u64)
    requires
        price >= 1,
    ensures
        r == confidence(price as int, conf_ppm),
{
    assert(0 <= price * conf_ppm <= 0x7fff_ffff_ffff_ffff * 0xffff_ffff_ffff_ffff) by (
    nonlinear_arith)
        requires
            1 <= price <= 0x7fff_ffff_ffff_ffff,
            0 <= conf_ppm <= 0xffff_ffff_ffff_ffff,
    ;
    let wide: u128 = (price as u128) * (conf_ppm as u128) / 1_000_000;
    (wide % 0x1_0000_0000_0000_0000) as u64
}

/// A confidence drawn as a part of the price, the whole price at most, is that
/// part of the price to the last unit.
pub proof fn confidence_follows_the_price(price: i64, conf_ppm: u64)
    requires
        price >= 1,
        conf_ppm <= 1_000_000,
    ensures
        confidence(price as int, conf_ppm) * 1_000_000 <= price * conf_ppm,
        price * conf_ppm < (confidence(price as int, conf_ppm) + 1) * 1_000_000,
{
    assert(0 <= price * conf_ppm <= price * 1_000_000) by (nonlinear_arith)
        requires
            price >= 1,
            0 <= conf_ppm <= 1_000_000,
    ;
}

/// An oracle to write over the one at an address.
#[derive(Clone, Copy, PartialEq, Eq, Debug)]
pub struct OracleWrite {
    pub address: Pubkey,
    pub oracle: LazerOracle,
}

/// What a step writes.
pub open spec fn stepped_oracle(
    price: i64,
    up: bool,
    bps: u64,
    conf_ppm: u64,
    slot: u64,
    slot_lag: u64,
    publish_time: u64,
) -> LazerOracle {
    build_pyth_lazer_oracle(
        stepped(price, up, bps) as i64,
        confidence(stepped(price, up, bps), conf_ppm) as u64,
        if slot >= slot_lag {
            (slot - slot_lag) as u64
        } else {
            0
        },
        publish_time,
    )
}

/// The drawn confidence counts only where a wide one is asked for.
pub open spec fn drawn_confidence(wide_conf: u8, conf_ppm: u64) -> u64 {
    if wide_conf == 1 {
        conf_ppm
    } else {
        0
    }
}

impl Fixture {
    /// Steps an oracle from its current price, posted so many slots back. Each
    /// write has a publish time of its own.
    pub fn step_oracle(
        &mut self,
        address: Pubkey,
        price: i64,
        up: bool,
        bps: u64,
        conf_ppm: u64,
        slot: u64,
        slot_lag: u64,
    ) -> (r: OracleWrite)
        requires
            old(self).oracle_seq < u64::MAX,
        ensures
            r == (OracleWrite {
                address,
                oracle: stepped_oracle(
                    price,
                    up,
                    bps,
                    conf_ppm,
                    slot,
                    slot_lag,
                    old(self).oracle_seq,
                ),
            }),
            *final(self) == (Fixture { oracle_seq: (old(self).oracle_seq + 1) as u64, ..*old(self) }),
    {
        let next = step_price(price, up, bps);
        let conf = confidence_of(next, conf_ppm);
        let posted: u64 = if slot >= slot_lag {
            slot - slot_lag
        } else {
            0
        };
        let oracle = build_pyth_lazer_oracle(next, conf, posted, self.oracle_seq);
        self.oracle_seq = self.oracle_seq + 1;
        OracleWrite { address, oracle }
    }

    /// Moves the perp market's oracle.
    pub fn action_move_oracle_price(
        &mut self,
        up: u8,
        bps: u64,
        wide_conf: u8,
        conf_ppm: u64,
        slot_lag: u64,
        price: i64,
        slot: u64,
    ) -> (r: OracleWrite)
        requires
            old(self).oracle_seq < u64::MAX,
        ensures
            r == (OracleWrite {
                address: old(self).perp_oracle_pda,
                oracle: stepped_oracle(
                    price,
                    up == 1,
                    bps,
                    drawn_confidence(wide_conf, conf_ppm),
                    slot,
                    slot_lag,
                    old(self).oracle_seq,
                ),
            }),
            *final(self) == (Fixture { oracle_seq: (old(self).oracle_seq + 1) as u64, ..*old(self) }),
    {
        let conf_ppm: u64 = if wide_conf == 1 {
            conf_ppm
        } else {
            0
        };
        self.step_oracle(self.perp_oracle_pda, price, up == 1, bps, conf_ppm, slot, slot_lag)
    }

    /// Moves spot market 1's oracle.
    pub fn action_move_spot_1_oracle_price(
        &mut self,
        up: u8,
        bps: u64,
        wide_conf: u8,
        conf_ppm: u64,
        slot_lag: u64,
        price: i64,
        slot: u64,
    ) -> (r: OracleWrite)
        requires
            old(self).oracle_seq < u64::MAX,
        ensures
            r == (OracleWrite {
                address: old(self).spot_1_oracle_pda,
                oracle: stepped_oracle(
                    price,
                    up == 1,
                    bps,
                    drawn_confidence(wide_conf, conf_ppm),
                    slot,
                    slot_lag,
                    old(self).oracle_seq,
                ),
            }),
            *final(self) == (Fixture { oracle_seq: (old(self).oracle_seq + 1) as u64, ..*old(self) }),
    {
        let conf_ppm: u64 = if wide_conf == 1 {
            conf_ppm
        } else {
            0
        };
        self.step_oracle(self.spot_1_oracle_pda, price, up == 1, bps, conf_ppm, slot, slot_lag)
    }
}

// ---------------------------------------------------------------------------
// Validity
// ---------------------------------------------------------------------------

/// Which market's oracle is meant.
#[derive(Clone, Copy, PartialEq, Eq, Structural, Debug)]
pub enum OracleOwner {
    Perp,
    Spot1,
}

impl Fixture {
    /// The oracle of a market, and where the market lives.
    pub fn owned_oracle(&self, owner: OracleOwner) -> (r: (Pubkey, Pubkey))
        ensures
            r == match owner {
                OracleOwner::Perp => (self.perp_oracle_pda, self.perp_market_pda),
                OracleOwner::Spot1 => (self.spot_1_oracle_pda, self.spot_market_1_pda),
            },
    {
        match owner {
            OracleOwner::Perp => (self.perp_oracle_pda, self.perp_market_pda),
            OracleOwner::Spot1 => (self.spot_1_oracle_pda, self.spot_market_1_pda),
        }
    }
}

/// The exchange's limits on a price that it acts on.
#[derive(Clone, Copy, PartialEq, Eq, Debug)]
pub struct GuardRails {
    /// The widest confidence, in millionths of the price.
    pub confidence_interval_max_size: u64,
    /// How many times the price may be its average, or the other way round.
    pub too_volatile_ratio: i64,
}

/// What a market adds to the judgement of its oracle.
#[derive(Clone, Copy, PartialEq, Eq, Debug)]
pub struct MarketTolerance {
    /// How much wider a confidence the market's tier admits.
    pub confidence_multiplier: u64,
    /// The average that the price is held against.
    pub last_oracle_price_twap: i64,
}

/// Confidence as millionths of the price.
pub open spec fn confidence_share(o: LazerOracle) -> int {
    o.conf * PERCENTAGE_PRECISION / o.price as int
}

/// How many times the larger of the price and its average is the smaller.
pub open spec fn volatility(price: int, average: int) -> int {
    if price >= average {
        price / at_least_one(average)
    } else {
        average / at_least_one(price)
    }
}

/// The exchange acts on such a price: it is positive, it was posted at most two
/// slots ago, it is certain enough for the market, and near enough its average.
pub open spec fn fresh(
    o: LazerOracle,
    rails: GuardRails,
    market: MarketTolerance,
    slot: u64,
) -> bool {
    &&& o.price > 0
    &&& slot - o.posted_slot <= 2
    &&& confidence_share(o) <= rails.confidence_interval_max_size * market.confidence_multiplier
    &&& volatility(o.price as int, market.last_oracle_price_twap as int) <= rails.too_volatile_ratio
}

/// Whether the exchange must act on the price of an oracle.
pub fn oracle_is_fresh(o: &LazerOracle, rails: &GuardRails, market: &MarketTolerance, slot: u64) -> (r:
    bool)
    ensures
        r == fresh(*o, *rails, *market, slot),
{
    if o.price <= 0 {
        return false;
    }
    if slot > o.posted_slot && slot - o.posted_slot > 2 {
        return false;
    }
    let share: u128 = (o.conf as u128) * PERCENTAGE_PRECISION / (o.price as u128);
    assert(0 <= rails.confidence_interval_max_size * market.confidence_multiplier
        <= 0xffff_ffff_ffff_ffff * 0xffff_ffff_ffff_ffff) by (nonlinear_arith)
        requires
            0 <= rails.confidence_interval_max_size <= 0xffff_ffff_ffff_ffff,
            0 <= market.confidence_multiplier <= 0xffff_ffff_ffff_ffff,
    ;
    if share > (rails.confidence_interval_max_size as u128) * (
    market.confidence_multiplier as u128) {
        return false;
    }
    let average: i64 = market.last_oracle_price_twap;
    let hi: i64 = if o.price >= average {
        o.price
    } else {
        average
    };
    let lo: i64 = if o.price >= average {
        average
    } else {
        o.price
    };
    let floor: u64 = if lo < 1 {
        1
    } else {
        lo as u64
    };
    let times: u64 = (hi as u64) / floor;
    assert(times == volatility(o.price as int, average as int));
    rails.too_volatile_ratio >= 0 && times <= rails.too_volatile_ratio as u64
}

/// An oracle that was just reposted with no uncertainty is fresh, as long as its
/// price has not left its average behind.
pub proof fn reposted_oracles_are_fresh(
    price: i64,
    slot: u64,
    publish_time: u64,
    rails: GuardRails,
    market: MarketTolerance,
)
    requires
        price > 0,
        volatility(price as int, market.last_oracle_price_twap as int) <= rails.too_volatile_ratio,
    ensures
        fresh(build_pyth_lazer_oracle(price, 0, slot, publish_time), rails, market, slot),
{
    assert(0 <= rails.confidence_interval_max_size * market.confidence_multiplier)
        by (nonlinear_arith)
        requires
            0 <= rails.confidence_interval_max_size,
            0 <= market.confidence_multiplier,
    ;
    assert(0int / price as int == 0) by (nonlinear_arith)
        requires
            price > 0,
    ;
}

// ---------------------------------------------------------------------------
// Time
// ---------------------------------------------------------------------------

/// The chain's clock.
#[derive(Clone, Copy, PartialEq, Eq, Debug)]
pub struct Clock {
    pub slot: u64,
    pub unix_timestamp: i64,
}

/// A number of slots as a signed word.
pub open spec fn as_signed(slots: u64) -> int {
    if slots <= i64::MAX {
        slots as int
    } else {
        slots - 0x1_0000_0000_0000_0000
    }
}

/// The seconds that slots last, at four hundred milliseconds each.
pub open spec fn seconds(slots: u64) -> int {
    toward_zero(saturated(as_signed(slots) * 400), 1000)
}

fn seconds_of(slots: u64) -> (r: i128)
    ensures
        r == seconds(slots),
        i64::MIN <= r <= i64::MAX,
{
    let signed: i128 = if slots <= i64::MAX as u64 {
        slots as i128
    } else {
        slots as i128 - 0x1_0000_0000_0000_0000
    };
    let wide: i128 = signed * 400;
    let millis: i128 = if wide > i64::MAX as i128 {
        i64::MAX as i128
    } else if wide < i64::MIN as i128 {
        i64::MIN as i128
    } else {
        wide
    };
    if millis >= 0 {
        ((millis as u128) / 1000) as i128
    } else {
        -(((-millis) as u128 / 1000) as i128)
    }
}

/// What a warp leaves behind.
#[derive(Clone, Copy, PartialEq, Eq, Debug)]
pub struct Warp {
    pub clock: Clock,
    /// The oracles to repost, that of the perp market first.
    pub reposts: Option<(OracleWrite, OracleWrite)>,
}

/// The price of an oracle, or one where it cannot be read.
pub open spec fn price_or_one(price: Option<i64>) -> i64 {
    match price {
        Some(p) => p,
        None => PRICE_PRECISION as i64,
    }
}

fn price_or_default(price: Option<i64>) -> (r: i64)
    ensures
        r == price_or_one(price),
{
    match price {
        Some(p) => p,
        None => PRICE_PRECISION as i64,
    }
}

/// Slots of a month.
pub const SLOTS_PER_MONTH: u64 = 6_480_000;

/// The months of a long warp in slots.
pub open spec fn months_in_slots(months: u64) -> int {
    if months * SLOTS_PER_MONTH > u64::MAX {
        u64::MAX as int
    } else {
        months * SLOTS_PER_MONTH
    }
}

impl Fixture {
    /// The clock after a warp of so many slots.
    pub open spec fn warped_clock(clock: Clock, slots: u64) -> Clock {
        Clock {
            slot: (clock.slot + slots) as u64,
            unix_timestamp: saturated(clock.unix_timestamp + seconds(slots)) as i64,
        }
    }

    /// The oracles, reposted at a slot with their prices and no uncertainty.
    pub open spec fn reposted(
        self,
        slot: u64,
        price_perp: Option<i64>,
        price_spot: Option<i64>,
    ) -> (OracleWrite, OracleWrite) {
        (
            OracleWrite {
                address: self.perp_oracle_pda,
                oracle: build_pyth_lazer_oracle(
                    price_or_one(price_perp),
                    0,
                    slot,
                    self.oracle_seq,
                ),
            },
            OracleWrite {
                address: self.spot_1_oracle_pda,
                oracle: build_pyth_lazer_oracle(
                    price_or_one(price_spot),
                    0,
                    slot,
                    (self.oracle_seq + 1) as u64,
                ),
            },
        )
    }

    /// Moves slots and seconds forward together, and reposts the oracles at the
    /// new slot unless they are to go stale.
    pub fn action_warp(
        &mut self,
        slots: u64,
        repost: u8,
        clock: Clock,
        price_perp: Option<i64>,
        price_spot: Option<i64>,
    ) -> (r: Warp)
        requires
            clock.slot + slots <= u64::MAX,
            repost != 0 ==> old(self).oracle_seq + 2 <= u64::MAX,
        ensures
            r.clock == Fixture::warped_clock(clock, slots),
            r.reposts == if repost != 0 {
                Some(old(self).reposted((clock.slot + slots) as u64, price_perp, price_spot))
            } else {
                None
            },
            *final(self) == (Fixture {
                oracle_seq: if repost != 0 {
                    (old(self).oracle_seq + 2) as u64
                } else {
                    old(self).oracle_seq
                },
                ..*old(self)
            }),
    {
        let target: u64 = clock.slot + slots;
        let wide: i128 = clock.unix_timestamp as i128 + seconds_of(slots);
        let unix_timestamp: i64 = if wide > i64::MAX as i128 {
            i64::MAX
        } else if wide < i64::MIN as i128 {
            i64::MIN
        } else {
            wide as i64
        };
        let clock = Clock { slot: target, unix_timestamp };
        if repost == 0 {
            return Warp { clock, reposts: None };
        }
        let seq: u64 = self.oracle_seq;
        self.oracle_seq = self.oracle_seq + 2;
        let perp = OracleWrite {
            address: self.perp_oracle_pda,
            oracle: build_pyth_lazer_oracle(price_or_default(price_perp), 0, target, seq),
        };
        let spot = OracleWrite {
            address: self.spot_1_oracle_pda,
            oracle: build_pyth_lazer_oracle(price_or_default(price_spot), 0, target, seq + 1),
        };
        Warp { clock, reposts: Some((perp, spot)) }
    }

    /// Warps by months.
    pub fn action_warp_long(
        &mut self,
        months: u64,
        repost: u8,
        clock: Clock,
        price_perp: Option<i64>,
        price_spot: Option<i64>,
    ) -> (r: Warp)
        requires
            clock.slot + months_in_slots(months) <= u64::MAX,
            repost != 0 ==> old(self).oracle_seq + 2 <= u64::MAX,
        ensures
            ({
                let slots = months_in_slots(months) as u64;
                &&& r.clock == Fixture::warped_clock(clock, slots)
                &&& r.reposts == if repost != 0 {
                    Some(old(self).reposted((clock.slot + slots) as u64, price_perp, price_spot))
                } else {
                    None
                }
                &&& *final(self) == (Fixture {
                    oracle_seq: if repost != 0 {
                        (old(self).oracle_seq + 2) as u64
                    } else {
                        old(self).oracle_seq
                    },
                    ..*old(self)
                })
            }),
    {
        let slots: u64 = match months.checked_mul(SLOTS_PER_MONTH) {
            Some(slots) => slots,
            None => u64::MAX,
        };
        self.action_warp(slots, repost, clock, price_perp, price_spot)
    }
}

/// Time passes with the slots: two slots and a half make a second, and later
/// slots never make it earlier.
pub proof fn time_follows_the_slots(clock: Clock, a: u64, b: u64)
    requires
        a <= b <= 0x1_0000_0000_0000,
    ensures
        seconds(a) * 5 <= 2 * a < (seconds(a) + 1) * 5,
        clock.unix_timestamp <= Fixture::warped_clock(clock, a).unix_timestamp,
        Fixture::warped_clock(clock, a).unix_timestamp <= Fixture::warped_clock(
            clock,
            b,
        ).unix_timestamp,
{
}

// ---------------------------------------------------------------------------
// Native opcodes
// ---------------------------------------------------------------------------

/// Four bytes that no discriminator begins with mark a native opcode.
pub open spec fn native(opcode: u8) -> Seq<u8> {
    seq![255u8, 255u8, 255u8, 255u8, opcode]
}

fn native_data(opcode: u8) -> (r: Vec<u8>)
    ensures
        r@ == native(opcode),
{
    let data: Vec<u8> = vec![255, 255, 255, 255, opcode];
    assert(data@ =~= native(opcode));
    data
}

impl Fixture {
    /// Sets the market maker's oracle. Each update has a sequence number of its
    /// own.
    pub fn action_native_mm_oracle(&mut self, price: i64) -> (r: Transaction)
        requires
            old(self).mm_seq < u64::MAX,
        ensures
            r@ == call(
                old(self).program_id,
                seq![
                    AccountMeta::new(old(self).perp_market_pda, false),
                    AccountMeta::new_readonly(addr(old(self).crank), true),
                    AccountMeta::new_readonly(clock_sysvar_id(), false),
                    AccountMeta::new_readonly(old(self).state_pda, false),
                ],
                native(0) + le_signed(price as int, 8) + le(old(self).mm_seq as int, 8),
                addr(old(self).crank),
            ),
            *final(self) == (Fixture { mm_seq: (old(self).mm_seq + 1) as u64, ..*old(self) }),
    {
        let mut data = native_data(0);
        push_i64(&mut data, price);
        push_u64(&mut data, self.mm_seq);
        self.mm_seq = self.mm_seq + 1;
        let accounts = vec![
            AccountMeta::new(self.perp_market_pda, false),
            AccountMeta::new_readonly(self.crank.pubkey(), true),
            AccountMeta::new_readonly(clock_sysvar_id(), false),
            AccountMeta::new_readonly(self.state_pda, false),
        ];
        send(self.program_id, accounts, data, self.crank.pubkey())
    }

    /// Adjusts the AMM's spread by a signed byte.
    pub fn action_native_spread_adjust(&self, adj: i32) -> (r: Transaction)
        ensures
            r@ == call(
                self.program_id,
                seq![
                    AccountMeta::new(self.perp_market_pda, false),
                    AccountMeta::new_readonly(addr(self.crank), true),
                    AccountMeta::new_readonly(self.state_pda, false),
                ],
                native(1) + seq![(adj as int % 256) as u8],
                addr(self.crank),
            ),
    {
        let mut data = native_data(1);
        let lifted: u64 = (adj as i64 + 0x1_0000_0000) as u64;
        let byte: u8 = (lifted % 256) as u8;
        data.push(byte);
        assert(data@ =~= native(1) + seq![(adj as int % 256) as u8]);
        let accounts = vec![
            AccountMeta::new(self.perp_market_pda, false),
            AccountMeta::new_readonly(self.crank.pubkey(), true),
            AccountMeta::new_readonly(self.state_pda, false),
        ];
        send(self.program_id, accounts, data, self.crank.pubkey())
    }

    /// The account whose hedger status is written, and the status: the given one
    /// where it is granted, none where it is revoked.
    pub fn action_set_vamm_hedger(&self, user_idx: usize, grant: u8, vamm_hedger: u8) -> (r: (
        Pubkey,
        u8,
    ))
        requires
            self.wf(),
            user_idx < NUM_USERS,
        ensures
            r == (
                self.users@[user_idx as int].user_pda,
                if grant == 1 {
                    vamm_hedger
                } else {
                    0
                },
            ),
    {
        let status: u8 = if grant == 1 {
            vamm_hedger
        } else {
            0
        };
        (self.users[user_idx].user_pda, status)
    }
}

} // verus!
