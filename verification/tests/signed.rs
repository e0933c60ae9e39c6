use pyth_lazer_protocol::message::SolanaMessage;
use pyth_lazer_protocol::payload::{PayloadData, PayloadFeedData, PayloadPropertyValue};
use pyth_lazer_protocol::time::TimestampUs;
use pyth_lazer_protocol::{ChannelId, Price, PriceFeedId};
use velocity_fuzz::envelope::{build_signed_msg_envelope, ed25519_verify_ix, hex_encode};
use velocity_fuzz::fixture::{Fixture, Protocol, SignedUuid};
use velocity_fuzz::keys::{Keypair, Pubkey, Transaction};
use velocity_fuzz::model::{OrderType, PositionDirection, PostOnlyParam};
use velocity_fuzz::setup::{ScenarioKeys, UserKeys};
use velocity_fuzz::signed_msg::{message_slot, trigger_leg, worst_price, TriggerLeg};

fn key(b: u8) -> Pubkey {
    Pubkey { bytes: [b; 32] }
}

fn fixture() -> Fixture {
    let protocol = Protocol {
        program_id: key(9),
        lazer_storage_id: key(10),
        lazer_oracle_seed: b"pyth_lazer".to_vec(),
        amm_cache_seed: b"amm_cache".to_vec(),
        margin_buffer_ratio: 200,
        liquidation_duration: 150,
    };
    let user = |b: u8| UserKeys {
        keypair: Keypair { secret: [b; 32] },
        token_account: key(b + 100),
        token_account_1: key(b + 150),
    };
    let keys = ScenarioKeys {
        crank: Keypair { secret: [1; 32] },
        admin: Keypair { secret: [2; 32] },
        usdc_mint: key(20),
        sol_mint: key(21),
        users: vec![user(3), user(4)],
        fresh: vec![Keypair { secret: [5; 32] }, Keypair { secret: [6; 32] }],
    };
    Fixture::setup(&protocol, keys, 77).unwrap().fixture
}

fn payload(micros: u64, feed_id: u32, properties: Vec<PayloadPropertyValue>) -> Vec<u8> {
    let data = PayloadData {
        timestamp_us: TimestampUs::from_micros(micros),
        channel_id: ChannelId::FIXED_RATE_200,
        feeds: vec![PayloadFeedData { feed_id: PriceFeedId(feed_id), properties }],
    };
    let mut bytes = Vec::new();
    data.serialize::<byteorder::LE>(&mut bytes).unwrap();
    bytes
}

#[test]
fn bytes_become_lower_case_hex() {
    assert_eq!(hex_encode(&vec![0x00, 0x9f, 0xa0, 0xff]), b"009fa0ff".to_vec());
    assert_eq!(hex_encode(&vec![]), Vec::<u8>::new());
}

#[test]
fn envelopes_frame_what_they_sign() {
    let k = Keypair { secret: [7; 32] };
    let envelope = build_signed_msg_envelope(&k, &vec![0xab, 0xcd]);
    let payload = b"0000000000000000abcd".to_vec();
    let peer = solana_keypair::Keypair::new_from_array([7; 32]);
    let signature = solana_signer::Signer::sign_message(&peer, &payload);
    assert_eq!(envelope[..64], *signature.as_ref());
    assert_eq!(envelope[64..96], solana_signer::Signer::pubkey(&peer).to_bytes());
    assert_eq!(envelope[96..98], [20, 0]);
    assert_eq!(envelope[98..], payload[..]);
}

#[test]
fn signature_offsets_skip_the_instruction_header() {
    let ix = ed25519_verify_ix(1, 20);
    let mut expected = vec![1u8, 0];
    for v in [12u16, 1, 76, 1, 110, 20, 1] {
        expected.extend_from_slice(&v.to_le_bytes());
    }
    assert_eq!(ix.data, expected);
}

#[test]
fn price_updates_are_signed_by_the_crank() {
    let f = fixture();
    let t = f.action_post_pyth_lazer_update(0, 1, 100, 1, 250, 1, 0, 1_000_000, 5, 3);
    assert_eq!(t.signers, vec![f.crank.pubkey()]);
    assert_eq!(t.instructions.len(), 2);
    let data = &t.instructions[1].data;
    assert_eq!(data[..8], [218, 237, 170, 245, 39, 143, 166, 33]);
    let len = u32::from_le_bytes([data[8], data[9], data[10], data[11]]) as usize;
    assert_eq!(data.len(), 12 + len);
    let message = SolanaMessage::deserialize_slice(&data[12..]).unwrap();
    assert_eq!(message.public_key, f.crank.pubkey().bytes);
    let peer = solana_keypair::Keypair::new_from_array([1; 32]);
    assert_eq!(
        message.signature[..],
        *solana_signer::Signer::sign_message(&peer, &message.payload).as_ref()
    );
    assert_eq!(
        message.payload,
        payload(
            3_000_000,
            0,
            vec![
                PayloadPropertyValue::Price(Price::from_integer(1_010_000, 0).ok()),
                PayloadPropertyValue::Exponent(-6),
                PayloadPropertyValue::FeedUpdateTimestamp(Some(TimestampUs::from_micros(
                    3_000_000
                ))),
                PayloadPropertyValue::BestBidPrice(Price::from_integer(1_008_990, 0).ok()),
                PayloadPropertyValue::BestAskPrice(Price::from_integer(1_011_010, 0).ok()),
                PayloadPropertyValue::Confidence(Price::from_integer(250, 0).ok()),
            ]
        )
    );
    // The magic number, the time, the channel, the feed, and the price, by hand.
    assert_eq!(message.payload[..4], 2_479_346_549u32.to_le_bytes());
    assert_eq!(message.payload[4..12], 3_000_000u64.to_le_bytes());
    assert_eq!(message.payload[12..20], [3, 1, 0, 0, 0, 0, 6, 0]);
    assert_eq!(message.payload[20..28], 1_010_000i64.to_le_bytes());
    let check = &t.instructions[0].data;
    assert_eq!(check[2..4], 16u16.to_le_bytes());
    assert_eq!(check[10..12], 114u16.to_le_bytes());
    assert_eq!(check[12..14], (message.payload.len() as u16).to_le_bytes());
}

fn plain(micros: u64, feed_id: u32, price: i64) -> Vec<u8> {
    payload(
        micros,
        feed_id,
        vec![
            PayloadPropertyValue::Price(Price::from_integer(price, 0).ok()),
            PayloadPropertyValue::Exponent(-6),
            PayloadPropertyValue::FeedUpdateTimestamp(Some(TimestampUs::from_micros(micros))),
        ],
    )
}

fn posted(t: &Transaction) -> Vec<u8> {
    SolanaMessage::deserialize_slice(&t.instructions[1].data[12..]).unwrap().payload
}

#[test]
fn updates_may_be_plain_or_stale() {
    let f = fixture();
    let t = f.action_post_pyth_lazer_update(1, 0, 0, 0, 0, 0, 1, 2_000_000, 5, 7_200);
    assert_eq!(posted(&t), plain(3_600_000_000, 1, 2_000_000));
    let t = f.action_post_pyth_lazer_update(1, 0, 50, 0, 0, 0, 2, 2_000_000, 5, 7_200);
    assert_eq!(posted(&t), plain(0, 1, 1_990_000));
}

#[test]
fn fresh_updates_pass_the_last_one() {
    let f = fixture();
    let t = f.action_post_pyth_lazer_update(0, 1, 1, 0, 0, 0, 0, 1_000_000, 9_999_999, 1);
    assert_eq!(posted(&t), plain(10_000_000, 0, 1_000_100));
}

#[test]
fn signed_orders_count_their_messages() {
    let mut f = fixture();
    let first = f.signed_uuid_seq;
    let m = f.action_place_signed_msg_taker_order(0, 9, 1, 0, 1, 50, 0, 1_000);
    assert_eq!(f.signed_uuid_seq, first + 1);
    assert_eq!(m.params.direction, PositionDirection::Long);
    assert_eq!(m.params.base_asset_amount, 9);
    assert_eq!(m.slot, 1_000);
    assert!(m.take_profit.is_some() && m.stop_loss.is_none());
    assert_eq!(m.max_margin_ratio, Some(50));
    let n = f.action_place_signed_msg_taker_order(1, 9, 0, 0, 0, 50, 0, 1_000);
    assert_ne!(m.uuid, n.uuid);
    assert_eq!(n.max_margin_ratio, None);
}

#[test]
fn only_placed_orders_are_remembered() {
    let mut f = fixture();
    let m = f.action_place_signed_msg_taker_order(0, 9, 0, 0, 0, 50, 0, 1_000);
    f.record_signed_order(1, &m, false);
    assert!(f.signed_uuids.is_empty());
    f.record_signed_order(1, &m, true);
    assert_eq!(
        f.signed_uuids,
        vec![SignedUuid { taker_idx: 1, uuid: m.uuid, taker_is_long: true }]
    );
    for _ in 0..20 {
        let m = f.action_place_signed_msg_taker_order(1, 9, 0, 0, 0, 50, 0, 1_000);
        f.record_signed_order(0, &m, true);
    }
    assert_eq!(f.signed_uuids.len(), 16);
    assert!(f.signed_uuids.iter().all(|u| !u.taker_is_long));
}

#[test]
fn makers_take_the_other_side() {
    let mut f = fixture();
    assert!(f.action_place_and_make_signed_msg(0, 0, 5, 0, 1).is_none());
    let m = f.action_place_signed_msg_taker_order(0, 9, 0, 0, 0, 50, 0, 1_000);
    f.record_signed_order(0, &m, true);
    let (params, taker) = f.action_place_and_make_signed_msg(1, 3, 5, 0, 1).unwrap();
    assert_eq!(taker.uuid, m.uuid);
    assert_eq!(params.direction, PositionDirection::Short);
    assert_eq!(params.order_type, OrderType::Limit);
    assert_eq!(params.base_asset_amount, 5);
    assert_ne!(params.post_only, PostOnlyParam::NotPostOnly);
    let t = f.send_place_and_make_signed_msg(1, taker, vec![7, 8]).unwrap();
    let data = &t.instructions[0].data;
    assert_eq!(data[..8], [16, 26, 123, 131, 94, 29, 175, 98]);
    assert_eq!(data[8..10], [7, 8]);
    assert_eq!(data[data.len() - 8..], m.uuid.to_le_bytes());
}

#[test]
fn relayed_orders_follow_their_check() {
    let f = fixture();
    let t = f.send_signed_msg_taker_order(0, &vec![1, 2, 3]).unwrap();
    let n = t.instructions.len();
    let order = &t.instructions[n - 1];
    let check = &t.instructions[n - 2];
    assert_eq!(order.data[..8], [32, 79, 101, 139, 25, 6, 98, 15]);
    assert_eq!(check.program_id, velocity_fuzz::keys::ed25519_program_id());
    let envelope = build_signed_msg_envelope(&f.users[0].keypair, &vec![1, 2, 3]);
    assert_eq!(order.data[8..12], (envelope.len() as u32).to_le_bytes());
    assert_eq!(order.data[12..12 + envelope.len()], envelope[..]);
}

#[test]
fn message_parts_are_optional() {
    assert_eq!(worst_price(PositionDirection::Long), 1_100_000);
    assert_eq!(worst_price(PositionDirection::Short), 900_000);
    assert_eq!(message_slot(100, false), 100);
    assert!(message_slot(100, true) < 100);
    assert_eq!(trigger_leg(false, 1, 2), None);
    assert_eq!(
        trigger_leg(true, 1, 2),
        Some(TriggerLeg { trigger_price: 1, base_asset_amount: 2 })
    );
}
