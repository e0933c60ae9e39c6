//! What a taker signs, what is remembered of it, and what a book and an escrow
//! read back.

use vstd::prelude::*;
use crate::book::{send_order_ixs, Book, BookOrder, Placement};
use crate::envelope::{
    build_signed_msg_envelope, hex_encode, hex_round_trip, hex_value, order_payload,
};
use crate::fixture::{Fixture, SignedUuid};
use crate::keys::{AccountMeta, Instruction, Keypair, Pubkey, Transaction};
use crate::model::{SpotPosition, User};
use crate::params::OrderParams;
use crate::repay::{deficit, signed_balance, user_token};
use crate::revshare::{
    escrow_orders, quote_balance, regr_256_reused_order_id_stale_builder_fee,
    regr_273_revenue_share_subaccount_redirect, sibling_quote_balance, take_params_of, EscrowOrder,
    OrderLayout, Outcome256,
};
use crate::signed_msg::SignedMessage;
use crate::trading_laws::unadorned;
use crate::wire::{le, le_len, le_round_trip, pow256};

verus! {

// ---------------------------------------------------------------------------
// What a taker signs
// ---------------------------------------------------------------------------

/// A taker accepts a price a tenth through the mark and no worse; takes its profit a
/// fifth above the mark and stops its loss a fifth below, for the whole order, where
/// it wants either; names the current slot, or one that is six hundred slots old;
/// and numbers every message anew. Nothing but the number moves on.
pub proof fn messages_say_what_was_chosen(
    f: &mut Fixture,
    dir: u8,
    base: u64,
    with_tp: u8,
    with_sl: u8,
    with_max_margin_ratio: u8,
    max_margin_ratio: u16,
    slot_backdate: u8,
    clock_slot: u64,
    m: SignedMessage,
)
    requires
        call_ensures(
            Fixture::action_place_signed_msg_taker_order,
            (
                f,
                dir,
                base,
                with_tp,
                with_sl,
                with_max_margin_ratio,
                max_margin_ratio,
                slot_backdate,
                clock_slot,
            ),
            m,
        ),
        old(f).signed_uuid_seq < u64::MAX,
    ensures
        m.params.direction is Long <==> dir == 0,
        m.params.direction is Long ==> m.params.price == 1_000_000 + 100_000,
        m.params.direction is Short ==> m.params.price == 1_000_000 - 100_000,
        m.params.base_asset_amount == base && m.params.order_type is Market,
        !m.params.reduce_only && !m.params.immediate_or_cancel && m.params.post_only is NotPostOnly,
        m.params.trigger_price is None && m.params.user_order_id == 0,
        unadorned(m.params),
        m.sub_account_id == 0,
        slot_backdate != 1 ==> m.slot == clock_slot,
        slot_backdate == 1 && clock_slot >= 600 ==> clock_slot - m.slot == 600,
        slot_backdate == 1 && clock_slot < 600 ==> m.slot == 0,
        m.uuid == old(f).signed_uuid_seq + 1,
        final(f).signed_uuid_seq == m.uuid,
        *final(f) == (Fixture { signed_uuid_seq: m.uuid, ..*old(f) }),
        m.take_profit is Some <==> with_tp == 1,
        m.stop_loss is Some <==> with_sl == 1,
        m.take_profit is Some ==> m.take_profit->0.trigger_price - 1_000_000 == 200_000
            && m.take_profit->0.base_asset_amount == m.params.base_asset_amount,
        m.stop_loss is Some ==> 1_000_000 - m.stop_loss->0.trigger_price == 200_000
            && m.stop_loss->0.base_asset_amount == m.params.base_asset_amount,
        with_max_margin_ratio == 1 ==> m.max_margin_ratio == Some(max_margin_ratio),
        with_max_margin_ratio != 1 ==> m.max_margin_ratio is None,
{
}

/// A message that was placed is remembered last, with its taker and side; one that
/// was not leaves the memory alone. Sixteen are remembered, and the oldest gives way.
pub proof fn placed_messages_are_remembered(
    f: &mut Fixture,
    user_idx: usize,
    m: &SignedMessage,
    placed: bool,
)
    requires
        call_ensures(Fixture::record_signed_order, (f, user_idx, m, placed), ()),
        old(f).wf(),
        user_idx < 2,
    ensures
        !placed ==> final(f).signed_uuids@ == old(f).signed_uuids@,
        placed ==> {
            let before = old(f).signed_uuids@;
            let after = final(f).signed_uuids@;
            &&& after.len() == if before.len() < 16 { before.len() + 1 } else { 16 }
            &&& after.last().taker_idx == user_idx
            &&& after.last().uuid == m.uuid
            &&& after.last().taker_is_long <==> m.params.direction is Long
            &&& before.len() < 16 ==> forall|i: int|
                0 <= i < before.len() ==> #[trigger] after[i] == before[i]
            &&& before.len() == 16 ==> forall|i: int|
                0 <= i < 15 ==> #[trigger] after[i] == before[i + 1]
        },
        *final(f) == (Fixture { signed_uuids: final(f).signed_uuids, ..*old(f) }),
{
}

/// A maker meets the taker it was told to, counting round, and never itself. With
/// choice zero it takes the other side, otherwise the same one; its price lies on
/// the taker's side of the mark by a tenth, within what the taker accepts.
pub proof fn makers_meet_remembered_takers(
    f: &Fixture,
    maker_idx: usize,
    nth_uuid: usize,
    base: u64,
    dir: u8,
    post_only_sel: u8,
    r: Option<(OrderParams, SignedUuid)>,
)
    requires
        call_ensures(
            Fixture::action_place_and_make_signed_msg,
            (f, maker_idx, nth_uuid, base, dir, post_only_sel),
            r,
        ),
        f.wf(),
    ensures
        f.signed_uuids@.len() == 0 ==> r is None,
        f.signed_uuids@.len() > 0 ==> ({
            let taken = f.signed_uuids@[nth_uuid as int % f.signed_uuids@.len() as int];
            &&& r is None <==> taken.taker_idx == maker_idx
            &&& r matches Some((o, t)) ==> {
                &&& t == taken
                &&& dir == 0 ==> (o.direction is Short <==> taken.taker_is_long)
                &&& dir != 0 ==> (o.direction is Long <==> taken.taker_is_long)
                &&& taken.taker_is_long ==> o.price == 1_000_000 - 100_000
                &&& !taken.taker_is_long ==> o.price == 1_000_000 + 100_000
                &&& o.base_asset_amount == base
                &&& o.order_type is Limit && o.immediate_or_cancel && !o.reduce_only
                &&& post_only_sel == 0 ==> o.post_only is MustPostOnly
                &&& post_only_sel != 0 ==> o.post_only is TryPostOnly
                &&& o.trigger_price is None && o.user_order_id == 0
                &&& unadorned(o)
            }
        }),
{
}

// ---------------------------------------------------------------------------
// Envelopes
// ---------------------------------------------------------------------------

/// Bytes are written as pairs of digits, each pair the byte it stands for, and with
/// digits that read back.
pub proof fn digits_spell_the_bytes(bytes: &Vec<u8>, r: Vec<u8>, i: int)
    requires
        call_ensures(hex_encode, (bytes,), r),
        0 <= i < bytes@.len(),
    ensures
        r@.len() == 2 * bytes@.len(),
        hex_value(r@[2 * i]) * 16 + hex_value(r@[2 * i + 1]) == bytes@[i],
        forall|k: int|
            0 <= k < r@.len() ==> 48 <= #[trigger] r@[k] <= 57 || 97 <= r@[k] <= 102,
{
    hex_round_trip(bytes@, i);
}

/// An envelope carries the whole message behind eight bytes that nothing reads, in
/// digits, after a signature, a signer and a length.
pub proof fn envelopes_carry_the_message(signer: &Keypair, message: &Vec<u8>, r: Vec<u8>, i: int)
    requires
        call_ensures(build_signed_msg_envelope, (signer, message), r),
        0 <= i < message@.len(),
    ensures
        r@.len() == 98 + 2 * (8 + message@.len()),
        hex_value(r@[98 + 2 * (8 + i)]) * 16 + hex_value(r@[98 + 2 * (8 + i) + 1]) == message@[i],
        r@.subrange(64, 96) == crate::keys::ed25519_address(signer.secret@).bytes@,
        r@.subrange(0, 64) == crate::keys::ed25519_signature(
            signer.secret@,
            r@.subrange(98, r@.len() as int),
        ),
        r@.subrange(96, 98) == le(r@.len() - 98, 2),
{
    let body = seq![0u8, 0u8, 0u8, 0u8, 0u8, 0u8, 0u8, 0u8] + message@;
    let payload = order_payload(message@);
    hex_round_trip(body, 8 + i);
    le_len(payload.len() as int, 2);
    let sig = crate::keys::ed25519_signature(signer.secret@, payload);
    let key = crate::keys::ed25519_address(signer.secret@);
    assert(r@ == sig + key.bytes@ + le(payload.len() as int, 2) + payload);
    assert(r@.len() == 98 + payload.len());
    assert(sig.len() == 64);
    assert(r@.subrange(98, r@.len() as int) =~= payload);
    assert(r@.subrange(0, 64) =~= sig);
    assert(r@.subrange(64, 96) =~= key.bytes@);
    assert(r@.subrange(96, 98) =~= le(payload.len() as int, 2));
    assert(r@[98 + 2 * (8 + i)] == payload[2 * (8 + i)]);
    assert(r@[98 + 2 * (8 + i) + 1] == payload[2 * (8 + i) + 1]);
}

// ---------------------------------------------------------------------------
// The book
// ---------------------------------------------------------------------------

/// An answer is the book's where the book's program gave it and it has twelve bytes:
/// then the order it names is remembered last, under its owner and side, and the
/// oldest of thirty-two gives way. Any other answer changes nothing.
pub proof fn answers_are_remembered(
    b: &mut Book,
    placement: Placement,
    returned_by: Pubkey,
    data: &Vec<u8>,
    node_index: u32,
    order_id: u64,
)
    requires
        call_ensures(Book::remember_book_order, (b, placement, returned_by, data), ()),
        old(b).wf(),
    ensures
        returned_by != old(b).program || data@.len() != 12 ==> *final(b) == *old(b) || final(b).orders@ == old(b).orders@,
        *final(b) == (Book { orders: final(b).orders, ..*old(b) }),
        returned_by == old(b).program && data@ == le(node_index as int, 4) + le(order_id as int, 8)
            ==> {
            let before = old(b).orders@;
            let after = final(b).orders@;
            &&& after.len() == if before.len() < 32 { before.len() + 1 } else { 32 }
            &&& after.last().owner_idx == placement.owner_idx
            &&& after.last().side == placement.side
            &&& after.last().order_ref.node_index == node_index
            &&& after.last().order_ref.order_id == order_id
            &&& before.len() < 32 ==> forall|i: int|
                0 <= i < before.len() ==> #[trigger] after[i] == before[i]
            &&& before.len() == 32 ==> forall|i: int|
                0 <= i < 31 ==> #[trigger] after[i] == before[i + 1]
        },
{
    if returned_by == old(b).program && data@ == le(node_index as int, 4) + le(
        order_id as int,
        8,
    ) {
        crate::book::answers_name_their_order(node_index, order_id);
    }
}

/// A pick counts round among the orders that are remembered.
pub proof fn book_picks_count_round(b: &Book, nth: usize, r: Option<BookOrder>)
    requires
        call_ensures(Book::pick_book_order, (b, nth), r),
    ensures
        r is None <==> b.orders@.len() == 0,
        r is Some && nth < b.orders@.len() ==> r->0 == b.orders@[nth as int],
        r is Some ==> r->0 == b.orders@[nth as int % b.orders@.len() as int],
{
    if nth < b.orders@.len() {
        vstd::arithmetic::div_mod::lemma_small_mod(nth as nat, b.orders@.len());
    }
}

/// The makers of a taker are the other user of the pair: its account and its stats,
/// both written.
pub proof fn makers_are_the_other_user(f: &Fixture, taker_idx: usize, r: Vec<AccountMeta>)
    requires
        call_ensures(Fixture::maker_metas, (f, taker_idx), r),
        f.wf(),
        taker_idx < 2,
    ensures
        r@.len() == 2,
        r@[0] == (AccountMeta {
            pubkey: f.users@[1 - taker_idx].user_pda,
            is_signer: false,
            is_writable: true,
        }),
        r@[1] == (AccountMeta {
            pubkey: f.users@[1 - taker_idx].stats_pda,
            is_signer: false,
            is_writable: true,
        }),
{
    reveal_with_fuel(crate::book::makers, 3);
}

/// A transaction of orders raises its compute limit before anything else, then does
/// what it was given, and one key signs.
pub proof fn orders_follow_a_compute_limit(ixs: Vec<Instruction>, signer: Pubkey, r: Transaction, i: int)
    requires
        call_ensures(send_order_ixs, (ixs, signer), r),
        0 <= i < ixs@.len(),
    ensures
        r@.instructions.len() == ixs@.len() + 1,
        r@.instructions[0].data == seq![2u8] + le(1_400_000, 4),
        r@.instructions[0].accounts.len() == 0,
        r@.instructions[0].program_id == crate::keys::compute_budget_program_id(),
        r@.instructions[i + 1] == ixs@[i]@,
        r@.signers == seq![signer],
{
}

// ---------------------------------------------------------------------------
// Escrows
// ---------------------------------------------------------------------------

/// An escrow reads back what was written to it: the order in a slot has the number
/// and the fees whose bytes lie there, is open by the first bit of its flags and
/// completed by the second. As many are read as are stated, or fit.
pub proof fn escrows_read_back(
    data: &Vec<u8>,
    layout: &OrderLayout,
    r: Vec<EscrowOrder>,
    i: int,
    order_id: u32,
    fees: u64,
    count: u32,
)
    requires
        call_ensures(escrow_orders, (data, layout), r),
        layout.wf(),
        data@.len() >= 104,
        data@.subrange(100, 104) == le(count as int, 4),
    ensures
        r@.len() <= count,
        r@.len() * layout.size <= data@.len() - 104,
        r@.len() == count || (r@.len() + 1) * layout.size > data@.len() - 104,
        0 <= i < r@.len() ==> ({
            let at = 104 + i * layout.size;
            &&& data@.subrange(at + layout.order_id, at + layout.order_id + 4) == le(
                order_id as int,
                4,
            ) ==> r@[i].order_id == order_id
            &&& data@.subrange(at + layout.fees_accrued, at + layout.fees_accrued + 8) == le(
                fees as int,
                8,
            ) ==> r@[i].fees_accrued == fees
            &&& r@[i].is_open <==> data@[at + layout.bit_flags] % 2 == 1
            &&& r@[i].is_completed <==> (data@[at + layout.bit_flags] / 2) % 2 == 1
        }),
{
    widths();
    le_round_trip(count as int, 4);
    le_round_trip(order_id as int, 4);
    le_round_trip(fees as int, 8);
    let room = data@.len() - 104;
    let n = room / layout.size as int;
    vstd::arithmetic::div_mod::lemma_fundamental_div_mod(room, layout.size as int);
    vstd::arithmetic::div_mod::lemma_mod_bound(room, layout.size as int);
    assert(n >= 0) by (nonlinear_arith)
        requires
            n == room / layout.size as int,
            room >= 0,
            layout.size > 0,
    ;
    assert(n * layout.size <= room < (n + 1) * layout.size) by (nonlinear_arith)
        requires
            room == layout.size * n + room % layout.size as int,
            0 <= room % layout.size as int,
            room % (layout.size as int) < layout.size,
    ;
    let len = r@.len() as int;
    assert(len * layout.size <= n * layout.size) by (nonlinear_arith)
        requires
            len <= n,
            layout.size > 0,
    ;
}

proof fn widths()
    ensures
        pow256(4) == 0x1_0000_0000,
        pow256(8) == 0x1_0000_0000_0000_0000,
{
    reveal_with_fuel(pow256, 9);
}

/// The balance of a second account is that of its first slot in the quote market,
/// and nothing where it has none or cannot be read.
pub proof fn sibling_balances_are_first_slots(sibling: &Option<User>, r: u64, k: int)
    requires
        call_ensures(sibling_quote_balance, (sibling,), r),
    ensures
        sibling is None ==> r == 0,
        sibling is Some ==> ({
            let positions = sibling->0.spot_positions@;
            &&& (forall|j: int|
                0 <= j < positions.len() ==> (#[trigger] positions[j]).market_index != 0) ==> r == 0
            &&& 0 <= k < positions.len() && positions[k].market_index == 0 && (forall|j: int|
                0 <= j < k ==> (#[trigger] positions[j]).market_index != 0) ==> r
                == positions[k].scaled_balance
        }),
{
    if sibling is Some {
        first_quote_slot(sibling->0.spot_positions@, k);
    }
}

proof fn first_quote_slot(positions: Seq<SpotPosition>, k: int)
    ensures
        (forall|j: int| 0 <= j < positions.len() ==> (#[trigger] positions[j]).market_index != 0)
            ==> quote_balance(positions) == 0,
        0 <= k < positions.len() && positions[k].market_index == 0 && (forall|j: int|
            0 <= j < k ==> (#[trigger] positions[j]).market_index != 0) ==> quote_balance(positions)
            == positions[k].scaled_balance,
    decreases positions.len(),
{
    if positions.len() > 0 && positions[0].market_index != 0 {
        let rest = positions.skip(1);
        first_quote_slot(rest, k - 1);
        assert forall|j: int| 0 <= j < rest.len() implies #[trigger] rest[j] == positions[j + 1] by {
        }
        if 0 <= k < positions.len() && positions[k].market_index == 0 {
            assert(rest[k - 1] == positions[k]);
        }
    }
}

/// A settlement passes where it worked and moved nothing on the second account.
pub proof fn rewards_are_not_redirected(
    sent: bool,
    error_code: Option<u32>,
    before: u64,
    after: u64,
    r: bool,
)
    requires
        call_ensures(
            regr_273_revenue_share_subaccount_redirect,
            (sent, error_code, before, after),
            r,
        ),
    ensures
        after != before ==> !r,
        !sent ==> !r,
        error_code is Some ==> !r,
        sent && error_code is None && after == before ==> r,
{
}

/// A number that was skipped carries nothing over: the verdict fails where the first
/// take failed, where the second did not fill or not under the next number, where an
/// open order that is not completed lingers under the first number, or where that
/// number was charged. Otherwise it holds.
pub proof fn skipped_numbers_carry_nothing(o: &Outcome256, r: bool)
    requires
        call_ensures(regr_256_reused_order_id_stale_builder_fee, (o,), r),
    ensures
        !o.skip_sent || o.skip_error_code is Some ==> !r,
        o.base_after_fill is None || o.base_after_fill->0 <= 0 ==> !r,
        o.next_order_id is None || o.next_order_id->0 != 2 ==> !r,
        (exists|i: int|
            0 <= i < o.orders_after_skip@.len() && (#[trigger] o.orders_after_skip@[i]).order_id
                == 1 && o.orders_after_skip@[i].is_open && !o.orders_after_skip@[i].is_completed)
            ==> !r,
        (exists|i: int|
            0 <= i < o.orders_after_fill@.len() && (#[trigger] o.orders_after_fill@[i]).order_id
                == 1 && o.orders_after_fill@[i].fees_accrued > 0) ==> !r,
        o.skip_sent && o.skip_error_code is None && o.base_after_fill is Some
            && o.base_after_fill->0 > 0 && o.next_order_id == Some(2u32) && (forall|i: int|
            0 <= i < o.orders_after_skip@.len() && (#[trigger] o.orders_after_skip@[i]).order_id
                == 1 && o.orders_after_skip@[i].is_open ==> o.orders_after_skip@[i].is_completed)
            && (forall|i: int|
            0 <= i < o.orders_after_fill@.len() && (#[trigger] o.orders_after_fill@[i]).order_id
                == 1 ==> o.orders_after_fill@[i].fees_accrued == 0) ==> r,
{
}

/// Of the two takes only the first names a builder and has long expired; both buy a
/// twentieth through the mark.
pub proof fn only_the_expired_take_names_a_builder(expired: bool, o: OrderParams)
    requires
        call_ensures(take_params_of, (expired,), o),
    ensures
        o.direction is Long && o.order_type is Limit && o.price == 1_000_000 + 50_000,
        o.market_type is Perp && o.market_index == 0,
        expired ==> o.builder_idx == Some(0u8) && o.builder_fee_tenth_bps == Some(1000u16)
            && o.max_ts is Some && 0 < o.max_ts->0 < crate::revshare::CLOCK_TS_256,
        expired ==> o.base_asset_amount == 10_000_000 && o.max_ts == Some(1i64),
        !expired ==> unadorned(o) && o.base_asset_amount == 1_000_000_000,
        o.post_only is NotPostOnly && !o.immediate_or_cancel && !o.reduce_only,
        o.trigger_price is None && o.oracle_price_offset is None && o.auction_duration is None,
{
}

// ---------------------------------------------------------------------------
// Books against vaults
// ---------------------------------------------------------------------------

/// A deficit and its vault make up the claim.
pub proof fn deficits_make_up_the_claim(vault: u64, claim: i64, r: i128)
    requires
        call_ensures(deficit, (vault, claim), r),
    ensures
        vault + r == claim,
{
}

/// A user's balance in a market is that of the first slot there that is not empty:
/// its tokens for a deposit, less than nothing by its tokens for a borrow.
pub proof fn balances_are_signed(user: &User, market_index: u16, r: i128, k: int)
    requires
        call_ensures(user_token, (user, market_index), r),
    ensures
        ({
            let positions = user.spot_positions@;
            &&& (forall|j: int|
                0 <= j < positions.len() && (#[trigger] positions[j]).market_index == market_index
                    ==> positions[j].scaled_balance == 0) ==> r == 0
            &&& 0 <= k < positions.len() && positions[k].market_index == market_index
                && positions[k].scaled_balance > 0 && (forall|j: int|
                0 <= j < k && (#[trigger] positions[j]).market_index == market_index
                    ==> positions[j].scaled_balance == 0) ==> (positions[k].balance_type is Deposit
                ==> r == positions[k].tokens) && (positions[k].balance_type is Borrow ==> r
                == -positions[k].tokens)
        }),
{
    first_full_slot(user.spot_positions@, market_index, k);
}

proof fn first_full_slot(positions: Seq<SpotPosition>, market_index: u16, k: int)
    ensures
        (forall|j: int|
            0 <= j < positions.len() && (#[trigger] positions[j]).market_index == market_index
                ==> positions[j].scaled_balance == 0) ==> signed_balance(positions, market_index)
            == 0,
        0 <= k < positions.len() && positions[k].market_index == market_index
            && positions[k].scaled_balance > 0 && (forall|j: int|
            0 <= j < k && (#[trigger] positions[j]).market_index == market_index
                ==> positions[j].scaled_balance == 0) ==> (positions[k].balance_type is Deposit
            ==> signed_balance(positions, market_index) == positions[k].tokens) && (
        positions[k].balance_type is Borrow ==> signed_balance(positions, market_index)
            == -positions[k].tokens),
    decreases positions.len(),
{
    if positions.len() > 0 && !(positions[0].market_index == market_index
        && positions[0].scaled_balance != 0) {
        let rest = positions.skip(1);
        first_full_slot(rest, market_index, k - 1);
        assert forall|j: int| 0 <= j < rest.len() implies #[trigger] rest[j] == positions[j + 1] by {
        }
        if 0 < k < positions.len() {
            assert(rest[k - 1] == positions[k]);
        }
    }
}

} // verus!
