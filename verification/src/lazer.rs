//! Signed price updates.

use vstd::prelude::*;
use byteorder::LE;
use pyth_lazer_protocol::message::SolanaMessage;
use pyth_lazer_protocol::payload::PayloadPropertyValue::{
    BestAskPrice, BestBidPrice, Confidence, Exponent, FeedUpdateTimestamp,
};
use pyth_lazer_protocol::payload::{PayloadData, PayloadFeedData, PayloadPropertyValue};
use pyth_lazer_protocol::time::TimestampUs;
use pyth_lazer_protocol::{ChannelId, Price, PriceFeedId};
use crate::discriminators::D_UPDATE_PYTH_LAZER_ORACLE;
use crate::envelope::{framed, relayed, MESSAGE_OFFSET};
use crate::fixture::{addr, Fixture, PERP_FEED_ID, SPOT_1_FEED_ID};
use crate::keys::{
    instructions_sysvar_id, ix, tx, AccountMeta, Instruction, Pubkey, Transaction,
};
use crate::lazer::Property::{Ask, Bid, Certainty, Decimals, Mid, UpdatedAt};
use crate::margin::toward_zero;
use crate::oracle::{at_least_one, step_delta, step_size};
use crate::programs::{signature_check, signature_check_ix};
use crate::wire::{ix_data, le, le_len, le_signed, push_bytes, push_len};

verus! {

/// One property of a feed in a price update.
#[derive(Clone, Copy, PartialEq, Eq, Debug)]
pub enum Property {
    Mid(i64),
    Bid(i64),
    Ask(i64),
    Certainty(i64),
    Decimals(i16),
    /// When the feed was updated: at the time of the update that holds it.
    UpdatedAt,
}

/// A property on the wire: a tag, then the value. An absent price reads zero.
pub open spec fn property_wire(p: Property, timestamp_us: u64) -> Seq<u8> {
    match p {
        Property::Mid(v) => seq![0u8] + le_signed(v as int, 8),
        Property::Bid(v) => seq![1u8] + le_signed(v as int, 8),
        Property::Ask(v) => seq![2u8] + le_signed(v as int, 8),
        Property::Decimals(e) => seq![4u8] + le_signed(e as int, 2),
        Property::Certainty(v) => seq![5u8] + le_signed(v as int, 8),
        Property::UpdatedAt => seq![12u8, 1u8] + le(timestamp_us as int, 8),
    }
}

pub open spec fn properties_wire(properties: Seq<Property>, timestamp_us: u64) -> Seq<u8>
    decreases properties.len(),
{
    if properties.len() == 0 {
        Seq::empty()
    } else {
        properties_wire(properties.drop_last(), timestamp_us) + property_wire(
            properties.last(),
            timestamp_us,
        )
    }
}

/// The payload of an update of one feed: a magic number, the time, the channel,
/// one feed, its number, and its properties.
pub open spec fn payload_wire(
    timestamp_us: u64,
    channel: u8,
    feed_id: u32,
    properties: Seq<Property>,
) -> Seq<u8> {
    le(2_479_346_549, 4) + le(timestamp_us as int, 8) + seq![channel, 1u8] + le(feed_id as int, 4)
        + seq![properties.len() as u8] + properties_wire(properties, timestamp_us)
}

/// `pyth_lazer_protocol::payload::PayloadData::serialize` in little-endian order,
/// with prices made by `pyth_lazer_protocol::price::Price::from_integer` at
/// exponent zero, which keeps every integer but zero. The bytes are those of
/// [`payload_wire`]; more properties than a byte can count are refused.
#[verifier::external_body]
fn serialize_payload(timestamp_us: u64, channel: u8, feed_id: u32, properties: &Vec<Property>) -> (r:
    Option<Vec<u8>>)
    ensures
        r is Some <==> properties@.len() <= 255,
        r matches Some(b) ==> b@ == payload_wire(timestamp_us, channel, feed_id, properties@),
{
    let timestamp_us = TimestampUs::from_micros(timestamp_us);
    let price = |v| Price::from_integer(v, 0).ok();
    let properties = properties.iter().map(|p| match *p {
        Mid(v) => PayloadPropertyValue::Price(price(v)),
        Bid(v) => BestBidPrice(price(v)),
        Ask(v) => BestAskPrice(price(v)),
        Certainty(v) => Confidence(price(v)),
        Decimals(e) => Exponent(e),
        UpdatedAt => FeedUpdateTimestamp(Some(timestamp_us)),
    }).collect();
    let feeds = vec![PayloadFeedData { feed_id: PriceFeedId(feed_id), properties }];
    let mut bytes = vec![];
    PayloadData { timestamp_us, channel_id: ChannelId(channel), feeds }.serialize::<LE>(&mut bytes).ok()?;
    Some(bytes)
}

/// The number that a signed update begins with.
pub open spec fn update_magic() -> Seq<u8> {
    le(2_182_742_457, 4)
}

/// `pyth_lazer_protocol::message::SolanaMessage::serialize`: a magic number, the
/// signature, the signer, the payload's length and the payload. A payload whose
/// length two bytes cannot tell is refused.
#[verifier::external_body]
fn serialize_message(payload: &Vec<u8>, signature: &Vec<u8>, signer: &Pubkey) -> (r: Option<Vec<u8>>)
    requires
        signature@.len() == 64,
    ensures
        r is Some <==> payload@.len() <= 65_535,
        r matches Some(b) ==> b@ == update_magic() + framed(signature@, *signer, payload@),
{
    let message = SolanaMessage {
        payload: payload.to_vec(),
        signature: signature.as_slice().try_into().ok()?,
        public_key: signer.bytes,
    };
    let mut bytes = vec![];
    message.serialize(&mut bytes).ok()?;
    Some(bytes)
}

// ---------------------------------------------------------------------------
// The update
// ---------------------------------------------------------------------------

/// The channel that updates are published on: every two hundred milliseconds.
pub const CHANNEL: u8 = 3;

/// How many microseconds a stale update lags behind.
pub const STALE_US: u64 = 3_600_000_000;

/// A number in the range of a signed word, counting round.
pub open spec fn wrapped(v: int) -> int {
    (v + 0x8000_0000_0000_0000) % 0x1_0000_0000_0000_0000 - 0x8000_0000_0000_0000
}

/// The price that an update carries: a step from the current one.
pub open spec fn updated_price(price: i64, up: bool, bps: u64) -> int {
    let current = at_least_one(price as int);
    wrapped(
        at_least_one(
            if up {
                current + step_size(current, bps)
            } else {
                current - step_size(current, bps)
            },
        ),
    )
}

/// The chain's time in microseconds, as far as a word holds it.
pub open spec fn now_us(unix_timestamp: i64) -> int {
    if unix_timestamp <= 0 {
        0
    } else if unix_timestamp * 1_000_000 > u64::MAX {
        u64::MAX as int
    } else {
        unix_timestamp * 1_000_000
    }
}

/// The time that an update carries: one that the exchange accepts, being past
/// both the clock and the last update; one that is stale; or one before every
/// update.
pub open spec fn update_time(ts_mode: u8, unix_timestamp: i64, last_publish_time: u64) -> u64 {
    let now = now_us(unix_timestamp);
    if ts_mode == 0 {
        let next = if last_publish_time == u64::MAX {
            u64::MAX as int
        } else {
            last_publish_time + 1
        };
        if now >= next {
            now as u64
        } else {
            next as u64
        }
    } else if ts_mode == 1 {
        if now >= STALE_US {
            (now - STALE_US) as u64
        } else {
            0
        }
    } else {
        0
    }
}

/// A fresh update is past the one before it, unless that one was the last there
/// can be, and never behind the clock.
pub proof fn fresh_updates_move_on(unix_timestamp: i64, last_publish_time: u64)
    requires
        last_publish_time < u64::MAX,
    ensures
        update_time(0, unix_timestamp, last_publish_time) > last_publish_time,
        update_time(0, unix_timestamp, last_publish_time) >= now_us(unix_timestamp),
{
}

/// The bid of a spread of a thousandth on either side.
pub open spec fn bid_of(price: int) -> int {
    at_least_one(price - toward_zero(price, 1000))
}

/// The ask of a spread of a thousandth on either side, as far as a word holds
/// it.
pub open spec fn ask_of(price: int) -> int {
    crate::trading::saturated(price + toward_zero(price, 1000))
}

/// The choices of an update.
#[derive(Clone, Copy, PartialEq, Eq, Debug)]
pub struct UpdateChoices {
    pub up: bool,
    pub bps: u64,
    pub with_confidence: bool,
    pub confidence: i64,
    pub with_bid_ask: bool,
    pub ts_mode: u8,
}

/// The properties of an update, the price first.
pub open spec fn update_properties(price: int, c: UpdateChoices) -> Seq<Property> {
    seq![Property::Mid(price as i64), Property::Decimals((-6) as i16), Property::UpdatedAt] + (
    if c.with_bid_ask {
        seq![Property::Bid(bid_of(price) as i64), Property::Ask(ask_of(price) as i64)]
    } else {
        seq![]
    }) + (if c.with_confidence {
        seq![Property::Certainty(at_least_one(c.confidence as int) as i64)]
    } else {
        seq![]
    })
}

fn next_price(price: i64, up: bool, bps: u64) -> (r: i64)
    ensures
        r == updated_price(price, up, bps),
{
    let current: i64 = if price < 1 {
        1
    } else {
        price
    };
    let delta = step_delta(current, bps);
    let next: i128 = if up {
        current as i128 + delta
    } else {
        current as i128 - delta
    };
    let floored: i128 = if next < 1 {
        1
    } else {
        next
    };
    let lifted: u128 = (floored + 0x8000_0000_0000_0000) as u128;
    let low: u128 = lifted % 0x1_0000_0000_0000_0000;
    (low as i128 - 0x8000_0000_0000_0000) as i64
}

fn time_of(ts_mode: u8, unix_timestamp: i64, last_publish_time: u64) -> (r: u64)
    ensures
        r == update_time(ts_mode, unix_timestamp, last_publish_time),
{
    let seconds: u64 = if unix_timestamp <= 0 {
        0
    } else {
        unix_timestamp as u64
    };
    let now: u64 = match seconds.checked_mul(1_000_000) {
        Some(us) => us,
        None => u64::MAX,
    };
    if ts_mode == 0 {
        let next: u64 = if last_publish_time == u64::MAX {
            u64::MAX
        } else {
            last_publish_time + 1
        };
        if now >= next {
            now
        } else {
            next
        }
    } else if ts_mode == 1 && now >= STALE_US {
        now - STALE_US
    } else {
        0
    }
}

/// A thousandth of a price, toward zero.
fn thousandth(price: i64) -> (r: i64)
    ensures
        r == toward_zero(price as int, 1000),
        -0x21_0000_0000_0000 <= r <= 0x21_0000_0000_0000,
{
    if price >= 0 {
        ((price as u64) / 1000) as i64
    } else {
        let magnitude: u64 = (-(price as i128)) as u64;
        -((magnitude / 1000) as i64)
    }
}

fn properties_of(price: i64, c: &UpdateChoices) -> (r: Vec<Property>)
    ensures
        r@ == update_properties(price as int, *c),
        r@.len() <= 6,
{
    let mut properties = vec![
        Property::Mid(price),
        Property::Decimals(-6),
        Property::UpdatedAt,
    ];
    if c.with_bid_ask {
        let part = thousandth(price);
        let low: i64 = price - part;
        let bid: i64 = if low < 1 {
            1
        } else {
            low
        };
        let high: i128 = price as i128 + part as i128;
        let ask: i64 = if high > i64::MAX as i128 {
            i64::MAX
        } else if high < i64::MIN as i128 {
            i64::MIN
        } else {
            high as i64
        };
        properties.push(Property::Bid(bid));
        properties.push(Property::Ask(ask));
    }
    if c.with_confidence {
        let confidence: i64 = if c.confidence < 1 {
            1
        } else {
            c.confidence
        };
        properties.push(Property::Certainty(confidence));
    }
    assert(properties@ =~= update_properties(price as int, *c));
    properties
}

proof fn property_is_short(p: Property, timestamp_us: u64)
    ensures
        property_wire(p, timestamp_us).len() <= 10,
{
    match p {
        Property::Mid(v) => le_signed_len(v as int, 8),
        Property::Bid(v) => le_signed_len(v as int, 8),
        Property::Ask(v) => le_signed_len(v as int, 8),
        Property::Decimals(e) => le_signed_len(e as int, 2),
        Property::Certainty(v) => le_signed_len(v as int, 8),
        Property::UpdatedAt => le_len(timestamp_us as int, 8),
    }
}

proof fn le_signed_len(value: int, width: nat)
    ensures
        le_signed(value, width).len() == width,
{
    le_len(if value < 0 { value + crate::wire::pow256(width) } else { value }, width);
}

proof fn properties_are_short(properties: Seq<Property>, timestamp_us: u64)
    ensures
        properties_wire(properties, timestamp_us).len() <= 10 * properties.len(),
    decreases properties.len(),
{
    if properties.len() > 0 {
        properties_are_short(properties.drop_last(), timestamp_us);
        property_is_short(properties.last(), timestamp_us);
    }
}

impl Fixture {
    /// The feed that is updated, and its oracle.
    pub open spec fn feed(self, which_feed: u8) -> (u32, Pubkey) {
        if which_feed == 0 {
            (PERP_FEED_ID, self.perp_oracle_pda)
        } else {
            (SPOT_1_FEED_ID, self.spot_1_oracle_pda)
        }
    }

    /// The feed that an update is for: its number, and the oracle that holds it.
    pub fn feed_of(&self, which_feed: u8) -> (r: (u32, Pubkey))
        ensures
            r == self.feed(which_feed),
    {
        if which_feed == 0 {
            (PERP_FEED_ID, self.perp_oracle_pda)
        } else {
            (SPOT_1_FEED_ID, self.spot_1_oracle_pda)
        }
    }

    /// The payload that the keeper signs.
    pub open spec fn update_payload(
        self,
        which_feed: u8,
        c: UpdateChoices,
        price: i64,
        last_publish_time: u64,
        unix_timestamp: i64,
    ) -> Seq<u8> {
        payload_wire(
            update_time(c.ts_mode, unix_timestamp, last_publish_time),
            CHANNEL,
            self.feed(which_feed).0,
            update_properties(updated_price(price, c.up, c.bps), c),
        )
    }

    /// Posts a signed update of an oracle through the exchange's own ingestion:
    /// the check of the signature, then the update, in one transaction. `price`
    /// and `last_publish_time` are what the oracle holds.
    pub fn action_post_pyth_lazer_update(
        &self,
        which_feed: u8,
        up: u8,
        bps: u64,
        with_confidence: u8,
        confidence: i64,
        with_bid_ask: u8,
        ts_mode: u8,
        price: i64,
        last_publish_time: u64,
        unix_timestamp: i64,
    ) -> (r: Transaction)
        ensures
            ({
                let c = UpdateChoices {
                    up: up == 1,
                    bps,
                    with_confidence: with_confidence == 1,
                    confidence,
                    with_bid_ask: with_bid_ask == 1,
                    ts_mode,
                };
                let payload = self.update_payload(
                    which_feed,
                    c,
                    price,
                    last_publish_time,
                    unix_timestamp,
                );
                let signature = crate::keys::ed25519_signature(self.crank.secret@, payload);
                r@ == tx(
                    seq![
                        signature_check(MESSAGE_OFFSET + 4, 1, payload.len() as int),
                        ix(
                            self.program_id,
                            seq![
                                AccountMeta::new(addr(self.crank), true),
                                AccountMeta::new_readonly(self.lazer_storage_id, false),
                                AccountMeta::new_readonly(instructions_sysvar_id(), false),
                                AccountMeta::new(self.feed(which_feed).1, false),
                            ],
                            relayed(
                                D_UPDATE_PYTH_LAZER_ORACLE@,
                                update_magic() + framed(signature, addr(self.crank), payload),
                                seq![],
                            ),
                        ),
                    ],
                    seq![addr(self.crank)],
                )
            }),
    {
        let c = UpdateChoices {
            up: up == 1,
            bps,
            with_confidence: with_confidence == 1,
            confidence,
            with_bid_ask: with_bid_ask == 1,
            ts_mode,
        };
        let (feed_id, oracle) = self.feed_of(which_feed);
        let next = next_price(price, c.up, c.bps);
        let timestamp_us = time_of(c.ts_mode, unix_timestamp, last_publish_time);
        let properties = properties_of(next, &c);
        let payload = serialize_payload(timestamp_us, CHANNEL, feed_id, &properties).unwrap();
        proof {
            properties_are_short(properties@, timestamp_us);
            le_len(2_479_346_549, 4);
            le_len(timestamp_us as int, 8);
            le_len(feed_id as int, 4);
        }
        let crank = self.crank.pubkey();
        let signature = self.crank.sign_message(&payload);
        let envelope = serialize_message(&payload, &signature, &crank).unwrap();
        let mut args: Vec<u8> = Vec::new();
        push_len(&mut args, envelope.len(), 4);
        assert(args@ =~= le(envelope@.len() as int, 4));
        push_bytes(&mut args, envelope.as_slice());
        assert(args@ + Seq::<u8>::empty() =~= args@);
        let accounts = vec![
            AccountMeta::new(crank, true),
            AccountMeta::new_readonly(self.lazer_storage_id, false),
            AccountMeta::new_readonly(instructions_sysvar_id(), false),
            AccountMeta::new(oracle, false),
        ];
        let check = signature_check_ix(MESSAGE_OFFSET + 4, 1, payload.len());
        let update = Instruction::new(
            self.program_id,
            accounts,
            ix_data(D_UPDATE_PYTH_LAZER_ORACLE, &args),
        );
        let signers = vec![crank];
        assert(signers@ =~= seq![addr(self.crank)]);
        Transaction::pair(check, update, signers)
    }
}

} // verus!
