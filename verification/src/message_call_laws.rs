//! What the calls around signed messages may change, and who makes them.

use vstd::prelude::*;
use crate::call_laws::{consulted, number, reads, sent_by, spelled, tag, widths, writes, written};
use crate::discriminators::{
    D_CHANGE_APPROVED_BUILDER, D_CHANGE_SIGNED_MSG_WS_DELEGATE, D_DELETE_SIGNED_MSG_USER_ORDERS,
    D_INIT_REVENUE_SHARE, D_INIT_REVENUE_SHARE_ESCROW, D_INIT_SIGNED_MSG_USER_ORDERS,
    D_PLACE_AND_MAKE_SIGNED_MSG_PERP_ORDER, D_RESIZE_REVENUE_SHARE_ESCROW,
    D_RESIZE_SIGNED_MSG_USER_ORDERS,
};
use crate::fixture::{derivable, pda_key, Fixture, SignedUuid};
use crate::keys::{rent_sysvar_id, system_program_id, text, Transaction};
use crate::wire::{flag, le};

verus! {

// ---------------------------------------------------------------------------
// Accounts around signed messages
// ---------------------------------------------------------------------------

/// The ring of a user's messages is opened with a number of slots; the owner pays and
/// signs. There is one wherever its address can be derived, as for every call on it.
pub proof fn rings_are_opened_by_their_owner(
    f: &Fixture,
    user_idx: usize,
    num_orders: u16,
    r: Option<Transaction>,
)
    requires
        call_ensures(Fixture::action_init_signed_msg_user_orders, (f, user_idx, num_orders), r),
        f.wf(),
        user_idx < 2,
    ensures
        r is Some <==> derivable(
            seq![text("SIGNED_MSG"), f.users@[user_idx as int].authority().bytes@],
            f.program_id,
        ),
        r matches Some(t) ==> {
            let user = f.users@[user_idx as int];
            let owned = pda_key(seq![text("SIGNED_MSG"), user.authority().bytes@], f.program_id);
            &&& sent_by(t@, f.program_id, user.authority())
            &&& writes(t@) == seq![owned, user.authority()]
            &&& reads(t@) == seq![user.authority(), rent_sysvar_id(), system_program_id()]
            &&& t@.instructions[0].accounts[2].is_signer
            &&& tag(t@) == D_INIT_SIGNED_MSG_USER_ORDERS@
            &&& number(t@, 8, 2) == num_orders
            &&& t@.instructions[0].data.len() == 10
        },
{
    if let Some(t) = r {
        let user = f.users@[user_idx as int];
        let owned = pda_key(seq![text("SIGNED_MSG"), user.authority().bytes@], f.program_id);
        let i = t@.instructions[0];
        reveal_with_fuel(written, 7);
        reveal_with_fuel(consulted, 7);
        widths();
        spelled(D_INIT_SIGNED_MSG_USER_ORDERS@, num_orders as int, 2, Seq::<u8>::empty());
        assert(i.data =~= D_INIT_SIGNED_MSG_USER_ORDERS@ + le(num_orders as int, 2)
            + Seq::<u8>::empty());
        assert(i.data.take(8) =~= D_INIT_SIGNED_MSG_USER_ORDERS@);
    }
}

/// A ring is resized by its owner to a number of slots.
pub proof fn rings_are_resized_by_their_owner(
    f: &Fixture,
    user_idx: usize,
    num_orders: u16,
    r: Option<Transaction>,
)
    requires
        call_ensures(Fixture::action_resize_signed_msg_user_orders, (f, user_idx, num_orders), r),
        f.wf(),
        user_idx < 2,
    ensures
        r is Some <==> derivable(
            seq![text("SIGNED_MSG"), f.users@[user_idx as int].authority().bytes@],
            f.program_id,
        ),
        r matches Some(t) ==> {
            let user = f.users@[user_idx as int];
            let owned = pda_key(seq![text("SIGNED_MSG"), user.authority().bytes@], f.program_id);
            &&& sent_by(t@, f.program_id, user.authority())
            &&& writes(t@) == seq![owned, user.authority()]
            &&& reads(t@) == seq![user.authority(), system_program_id()]
            &&& t@.instructions[0].accounts[2].is_signer
            &&& tag(t@) == D_RESIZE_SIGNED_MSG_USER_ORDERS@
            &&& number(t@, 8, 2) == num_orders
            &&& t@.instructions[0].data.len() == 10
        },
{
    if let Some(t) = r {
        let user = f.users@[user_idx as int];
        let owned = pda_key(seq![text("SIGNED_MSG"), user.authority().bytes@], f.program_id);
        let i = t@.instructions[0];
        reveal_with_fuel(written, 6);
        reveal_with_fuel(consulted, 6);
        widths();
        spelled(D_RESIZE_SIGNED_MSG_USER_ORDERS@, num_orders as int, 2, Seq::<u8>::empty());
        assert(i.data =~= D_RESIZE_SIGNED_MSG_USER_ORDERS@ + le(num_orders as int, 2)
            + Seq::<u8>::empty());
        assert(i.data.take(8) =~= D_RESIZE_SIGNED_MSG_USER_ORDERS@);
    }
}

/// A ring is closed by its owner, who is refunded out of it.
pub proof fn rings_are_closed_by_their_owner(f: &Fixture, user_idx: usize, r: Option<Transaction>)
    requires
        call_ensures(Fixture::action_delete_signed_msg_user_orders, (f, user_idx), r),
        f.wf(),
        user_idx < 2,
    ensures
        r is Some <==> derivable(
            seq![text("SIGNED_MSG"), f.users@[user_idx as int].authority().bytes@],
            f.program_id,
        ),
        r matches Some(t) ==> {
            let user = f.users@[user_idx as int];
            let owned = pda_key(seq![text("SIGNED_MSG"), user.authority().bytes@], f.program_id);
            &&& sent_by(t@, f.program_id, user.authority())
            &&& writes(t@) == seq![owned, f.state_pda]
            &&& reads(t@) == seq![user.authority()]
            &&& t@.instructions[0].accounts[2].is_signer
            &&& tag(t@) == D_DELETE_SIGNED_MSG_USER_ORDERS@
            &&& t@.instructions[0].data.len() == 8
        },
{
    if let Some(t) = r {
        let user = f.users@[user_idx as int];
        let owned = pda_key(seq![text("SIGNED_MSG"), user.authority().bytes@], f.program_id);
        let i = t@.instructions[0];
        reveal_with_fuel(written, 5);
        reveal_with_fuel(consulted, 5);
        widths();
        assert(i.data.take(8) =~= D_DELETE_SIGNED_MSG_USER_ORDERS@);
    }
}

/// The other user is added to those that may relay a user's messages with choice one,
/// and removed with any other.
pub proof fn relayers_are_added_and_removed(
    f: &Fixture,
    user_idx: usize,
    add: u8,
    r: Option<Transaction>,
)
    requires
        call_ensures(Fixture::action_change_signed_msg_ws_delegate, (f, user_idx, add), r),
        f.wf(),
        user_idx < 2,
    ensures
        r is Some <==> derivable(
            seq![text("SIGNED_MSG_WS"), f.users@[user_idx as int].authority().bytes@],
            f.program_id,
        ),
        r matches Some(t) ==> {
            let user = f.users@[user_idx as int];
            let other = f.users@[1 - user_idx];
            let owned = pda_key(seq![text("SIGNED_MSG_WS"), user.authority().bytes@], f.program_id);
            &&& sent_by(t@, f.program_id, user.authority())
            &&& writes(t@) == seq![owned, user.authority()]
            &&& reads(t@) == seq![system_program_id()]
            &&& t@.instructions[0].accounts[1].is_signer
            &&& tag(t@) == D_CHANGE_SIGNED_MSG_WS_DELEGATE@
            &&& t@.instructions[0].data.subrange(8, 40) == other.authority().bytes@
            &&& t@.instructions[0].data[40] == (if add == 1 { 1u8 } else { 0u8 })
            &&& t@.instructions[0].data.len() == 41
        },
{
    if let Some(t) = r {
        let user = f.users@[user_idx as int];
        let other = f.users@[1 - user_idx];
        let owned = pda_key(seq![text("SIGNED_MSG_WS"), user.authority().bytes@], f.program_id);
        let i = t@.instructions[0];
        reveal_with_fuel(written, 5);
        reveal_with_fuel(consulted, 5);
        widths();
        assert(i.data.subrange(8, 40) =~= other.authority().bytes@);
        assert(i.data =~= D_CHANGE_SIGNED_MSG_WS_DELEGATE@ + other.authority().bytes@
            + seq![flag(add == 1)]);
        assert(i.data.take(8) =~= D_CHANGE_SIGNED_MSG_WS_DELEGATE@);
    }
}

/// A builder's share of revenue is opened by the builder, who pays and signs.
pub proof fn shares_are_opened_by_their_builder(
    f: &Fixture,
    user_idx: usize,
    r: Option<Transaction>,
)
    requires
        call_ensures(Fixture::action_init_revenue_share, (f, user_idx), r),
        f.wf(),
        user_idx < 2,
    ensures
        r is Some <==> derivable(
            seq![text("REV_SHARE"), f.users@[user_idx as int].authority().bytes@],
            f.program_id,
        ),
        r matches Some(t) ==> {
            let user = f.users@[user_idx as int];
            let owned = pda_key(seq![text("REV_SHARE"), user.authority().bytes@], f.program_id);
            &&& sent_by(t@, f.program_id, user.authority())
            &&& writes(t@) == seq![owned, user.authority()]
            &&& reads(t@) == seq![user.authority(), rent_sysvar_id(), system_program_id()]
            &&& t@.instructions[0].accounts[2].is_signer
            &&& tag(t@) == D_INIT_REVENUE_SHARE@
            &&& t@.instructions[0].data.len() == 8
        },
{
    if let Some(t) = r {
        let user = f.users@[user_idx as int];
        let owned = pda_key(seq![text("REV_SHARE"), user.authority().bytes@], f.program_id);
        let i = t@.instructions[0];
        reveal_with_fuel(written, 7);
        reveal_with_fuel(consulted, 7);
        widths();
        assert(i.data.take(8) =~= D_INIT_REVENUE_SHARE@);
    }
}

/// The escrow of what a user owes its builders is opened with a number of slots; the
/// user pays and signs, and its stats are written.
pub proof fn escrows_are_opened_by_their_owner(
    f: &Fixture,
    user_idx: usize,
    num_orders: u16,
    r: Option<Transaction>,
)
    requires
        call_ensures(Fixture::action_init_revenue_share_escrow, (f, user_idx, num_orders), r),
        f.wf(),
        user_idx < 2,
    ensures
        r is Some <==> derivable(
            seq![text("REV_ESCROW"), f.users@[user_idx as int].authority().bytes@],
            f.program_id,
        ),
        r matches Some(t) ==> {
            let user = f.users@[user_idx as int];
            let owned = pda_key(seq![text("REV_ESCROW"), user.authority().bytes@], f.program_id);
            &&& sent_by(t@, f.program_id, user.authority())
            &&& writes(t@) == seq![owned, user.stats_pda, user.authority()]
            &&& reads(t@) == seq![
                user.authority(),
                f.state_pda,
                rent_sysvar_id(),
                system_program_id(),
            ]
            &&& t@.instructions[0].accounts[4].is_signer
            &&& tag(t@) == D_INIT_REVENUE_SHARE_ESCROW@
            &&& number(t@, 8, 2) == num_orders
            &&& t@.instructions[0].data.len() == 10
        },
{
    if let Some(t) = r {
        let user = f.users@[user_idx as int];
        let owned = pda_key(seq![text("REV_ESCROW"), user.authority().bytes@], f.program_id);
        let i = t@.instructions[0];
        reveal_with_fuel(written, 9);
        reveal_with_fuel(consulted, 9);
        widths();
        spelled(D_INIT_REVENUE_SHARE_ESCROW@, num_orders as int, 2, Seq::<u8>::empty());
        assert(i.data =~= D_INIT_REVENUE_SHARE_ESCROW@ + le(num_orders as int, 2)
            + Seq::<u8>::empty());
        assert(i.data.take(8) =~= D_INIT_REVENUE_SHARE_ESCROW@);
    }
}

/// An escrow is resized by its owner to a number of slots.
pub proof fn escrows_are_resized_by_their_owner(
    f: &Fixture,
    user_idx: usize,
    num_orders: u16,
    r: Option<Transaction>,
)
    requires
        call_ensures(Fixture::action_resize_revenue_share_escrow, (f, user_idx, num_orders), r),
        f.wf(),
        user_idx < 2,
    ensures
        r is Some <==> derivable(
            seq![text("REV_ESCROW"), f.users@[user_idx as int].authority().bytes@],
            f.program_id,
        ),
        r matches Some(t) ==> {
            let user = f.users@[user_idx as int];
            let owned = pda_key(seq![text("REV_ESCROW"), user.authority().bytes@], f.program_id);
            &&& sent_by(t@, f.program_id, user.authority())
            &&& writes(t@) == seq![owned, user.authority()]
            &&& reads(t@) == seq![user.authority(), system_program_id()]
            &&& t@.instructions[0].accounts[2].is_signer
            &&& tag(t@) == D_RESIZE_REVENUE_SHARE_ESCROW@
            &&& number(t@, 8, 2) == num_orders
            &&& t@.instructions[0].data.len() == 10
        },
{
    if let Some(t) = r {
        let user = f.users@[user_idx as int];
        let owned = pda_key(seq![text("REV_ESCROW"), user.authority().bytes@], f.program_id);
        let i = t@.instructions[0];
        reveal_with_fuel(written, 6);
        reveal_with_fuel(consulted, 6);
        widths();
        spelled(D_RESIZE_REVENUE_SHARE_ESCROW@, num_orders as int, 2, Seq::<u8>::empty());
        assert(i.data =~= D_RESIZE_REVENUE_SHARE_ESCROW@ + le(num_orders as int, 2)
            + Seq::<u8>::empty());
        assert(i.data.take(8) =~= D_RESIZE_REVENUE_SHARE_ESCROW@);
    }
}

/// The other user is approved as a builder up to a fee with choice one, and no longer
/// with any other.
pub proof fn builders_are_approved_up_to_a_fee(
    f: &Fixture,
    user_idx: usize,
    max_fee_bps: u16,
    add: u8,
    r: Option<Transaction>,
)
    requires
        call_ensures(Fixture::action_change_approved_builder, (f, user_idx, max_fee_bps, add), r),
        f.wf(),
        user_idx < 2,
    ensures
        r is Some <==> derivable(
            seq![text("REV_ESCROW"), f.users@[user_idx as int].authority().bytes@],
            f.program_id,
        ),
        r matches Some(t) ==> {
            let user = f.users@[user_idx as int];
            let other = f.users@[1 - user_idx];
            let owned = pda_key(seq![text("REV_ESCROW"), user.authority().bytes@], f.program_id);
            &&& sent_by(t@, f.program_id, user.authority())
            &&& writes(t@) == seq![owned, user.authority()]
            &&& reads(t@) == seq![user.authority(), system_program_id()]
            &&& t@.instructions[0].accounts[1].is_signer
            &&& tag(t@) == D_CHANGE_APPROVED_BUILDER@
            &&& t@.instructions[0].data.subrange(8, 40) == other.authority().bytes@
            &&& number(t@, 40, 2) == max_fee_bps
            &&& t@.instructions[0].data[42] == (if add == 1 { 1u8 } else { 0u8 })
            &&& t@.instructions[0].data.len() == 43
        },
{
    if let Some(t) = r {
        let user = f.users@[user_idx as int];
        let other = f.users@[1 - user_idx];
        let owned = pda_key(seq![text("REV_ESCROW"), user.authority().bytes@], f.program_id);
        let i = t@.instructions[0];
        reveal_with_fuel(written, 6);
        reveal_with_fuel(consulted, 6);
        widths();
        spelled(
            D_CHANGE_APPROVED_BUILDER@ + other.authority().bytes@,
            max_fee_bps as int,
            2,
            seq![flag(add == 1)],
        );
        assert(i.data.subrange(8, 40) =~= other.authority().bytes@);
        assert(i.data =~= D_CHANGE_APPROVED_BUILDER@ + other.authority().bytes@
            + le(max_fee_bps as int, 2) + (seq![flag(add == 1)]));
        assert(i.data =~= D_CHANGE_APPROVED_BUILDER@ + other.authority().bytes@
            + le(max_fee_bps as int, 2) + seq![flag(add == 1)]);
        assert(i.data.take(8) =~= D_CHANGE_APPROVED_BUILDER@);
    }
}

// ---------------------------------------------------------------------------
// Orders against signed messages
// ---------------------------------------------------------------------------

/// A maker's order meets a taker's message: the maker signs, both accounts and stats
/// are written, the maker's first, and the taker's ring is only read. The message is
/// named by its number after the order.
pub proof fn makers_name_the_message(
    f: &Fixture,
    maker_idx: usize,
    taker: SignedUuid,
    order_wire: Vec<u8>,
    r: Option<Transaction>,
)
    requires
        call_ensures(Fixture::send_place_and_make_signed_msg, (f, maker_idx, taker, order_wire), r),
        f.wf(),
        maker_idx < 2,
        taker.taker_idx < 2,
    ensures
        r is Some <==> derivable(
            seq![text("SIGNED_MSG"), f.users@[taker.taker_idx as int].authority().bytes@],
            f.program_id,
        ),
        r matches Some(t) ==> {
            let m = f.users@[maker_idx as int];
            let k = f.users@[taker.taker_idx as int];
            let ring = pda_key(seq![text("SIGNED_MSG"), k.authority().bytes@], f.program_id);
            &&& sent_by(t@, f.program_id, m.authority())
            &&& writes(t@) == seq![
                m.user_pda,
                m.stats_pda,
                k.user_pda,
                k.stats_pda,
                f.perp_oracle_pda,
                f.spot_1_oracle_pda,
                f.spot_market_pda,
                f.spot_market_1_pda,
                f.perp_market_pda,
            ]
            &&& reads(t@) == seq![f.state_pda, ring, m.authority()]
            &&& t@.instructions[0].accounts[6].is_signer
            &&& tag(t@) == D_PLACE_AND_MAKE_SIGNED_MSG_PERP_ORDER@
            &&& t@.instructions[0].data.len() == order_wire@.len() + 16
            &&& t@.instructions[0].data.subrange(8, 8 + order_wire@.len() as int) == order_wire@
            &&& number(t@, 8 + order_wire@.len() as int, 8) == taker.uuid
        },
{
    if let Some(t) = r {
        let m = f.users@[maker_idx as int];
        let k = f.users@[taker.taker_idx as int];
        let ring = pda_key(seq![text("SIGNED_MSG"), k.authority().bytes@], f.program_id);
        let i = t@.instructions[0];
        reveal_with_fuel(written, 14);
        reveal_with_fuel(consulted, 14);
        widths();
        spelled(
            D_PLACE_AND_MAKE_SIGNED_MSG_PERP_ORDER@ + order_wire@,
            taker.uuid as int,
            8,
            Seq::<u8>::empty(),
        );
        assert(i.data =~= D_PLACE_AND_MAKE_SIGNED_MSG_PERP_ORDER@ + order_wire@
            + le(taker.uuid as int, 8) + Seq::<u8>::empty());
        assert(i.data.subrange(8, 8 + order_wire@.len() as int) =~= order_wire@);
        assert(i.data.take(8) =~= D_PLACE_AND_MAKE_SIGNED_MSG_PERP_ORDER@);
    }
}

} // verus!
