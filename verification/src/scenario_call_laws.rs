//! What the calls of the smaller scenarios say, and those that take more than one
//! step.

use vstd::prelude::*;
use crate::call_laws::{
    complement, consulted, nobody_need_sign, number, reads, sent_by, spelled, tag, widths, writes,
    written,
};
use crate::discriminators::{
    D_CANCEL_ORDERS, D_DEPOSIT, D_DEPOSIT_INTO_SPOT_MARKET_REVENUE_POOL, D_INITIALIZE_USER,
    D_INITIALIZE_USER_STATS, D_INIT_SIGNED_MSG_WS_DELEGATES, D_MODIFY_ORDER,
    D_MODIFY_ORDER_BY_USER_ID, D_PLACE_SIGNED_MSG_TAKER, D_PLACE_SIGNED_MSG_TAKER_ORDER,
    D_RESIZE_SIGNED_MSG, D_SETTLE_MULTIPLE_PNLS, D_SETTLE_PNL, D_SETTLE_REVENUE_TO_INSURANCE_FUND,
    D_UPDATE_PERP_BID_ASK_TWAP, D_UPDATE_PYTH_LAZER_ORACLE,
};
use crate::book::Book;
use crate::envelope::order_envelope;
use crate::fixture::{addr, init_stats, init_user, pda_key, Fixture};
use crate::keys::{
    ed25519_program_id, ed25519_signature, AccountMeta, InstructionView, TransactionView,
    ZERO_BYTES,
};
use crate::lazer::{payload_wire, update_properties, update_time, updated_price, UpdateChoices};
use crate::margin::borrow_to_margin_limit;
use crate::model::User;
use crate::order_call_laws::{is_book, open_to_writes};
use crate::order_calls::{OrderCall, OrderIx};
use crate::params::OrderParams;
use crate::pause::bid_ask_twap;
use crate::pause::revenue_deposit;
use crate::pause::settle_revenue;
use crate::revshare::{Regr256, Regr273};
use crate::scenario::{open_user, quote_deposit, Depositor};
use crate::settlement::Regr270;
use crate::spot_actions::following;
use crate::swift::{Regr271Pause, Regr271Resize};
use crate::trading::{chosen, clip};
use crate::wire::{le_value, modify_params_wire, ModifyParams};
use crate::keys::{
    clock_sysvar_id, instructions_sysvar_id, rent_sysvar_id, system_program_id, text,
    token_program_id, Pubkey, Transaction,
};
use crate::wire::{le, le_len, opt};

verus! {

// ---------------------------------------------------------------------------
// Regressions
// ---------------------------------------------------------------------------

/// The user asks for its own settlement in perp market 0: both markets are written,
/// and the vault is only read.
pub proof fn the_expired_position_is_settled_by_its_user(f: &Regr270, r: Transaction)
    requires
        call_ensures(Regr270::settle, (f,), r),
    ensures
        ({
            &&& sent_by(r@, f.program_id, addr(f.user_kp))
            &&& writes(r@) == seq![f.user_pda, f.spot_market_pda, f.perp_market_pda]
            &&& reads(r@) == seq![f.state_pda, addr(f.user_kp), f.spot_vault_pda]
            &&& r@.instructions[0].accounts[2].is_signer
            &&& tag(r@) == D_SETTLE_PNL@
            &&& number(r@, 8, 2) == 0
            &&& r@.instructions[0].data.len() == 10
        }),
{
    let i = r@.instructions[0];
    reveal_with_fuel(written, 8);
    reveal_with_fuel(consulted, 8);
    widths();
    spelled(D_SETTLE_PNL@, 0, 2, Seq::<u8>::empty());
    assert(i.data =~= D_SETTLE_PNL@ + le(0, 2) + Seq::<u8>::empty());
    assert(i.data.take(8) =~= D_SETTLE_PNL@);
}

/// The trader settles in perp market 0 alone, in the first mode, and offers its
/// escrow, then the builder's second account, then the builder's share.
pub proof fn the_second_account_is_offered_for_the_reward(f: &Regr273, r: Transaction)
    requires
        call_ensures(Regr273::settle, (f,), r),
    ensures
        ({
            &&& sent_by(r@, f.program_id, addr(f.trader_kp))
            &&& writes(r@) == seq![
                f.trader_pda,
                f.spot_market_pda,
                f.perp_market_pda,
                f.escrow_pda,
                f.sibling_builder_pda,
                f.builder_rev_share_pda,
            ]
            &&& reads(r@) == seq![f.state_pda, addr(f.trader_kp), f.spot_vault_pda]
            &&& r@.instructions[0].accounts[2].is_signer
            &&& tag(r@) == D_SETTLE_MULTIPLE_PNLS@
            &&& number(r@, 8, 4) == 1
            &&& number(r@, 12, 2) == 0
            &&& r@.instructions[0].data[14] == 0u8
            &&& r@.instructions[0].data.len() == 15
        }),
{
    let i = r@.instructions[0];
    reveal_with_fuel(written, 11);
    reveal_with_fuel(consulted, 11);
    widths();
    spelled(D_SETTLE_MULTIPLE_PNLS@, 1, 4, le(0, 2) + seq![0u8]);
    spelled(D_SETTLE_MULTIPLE_PNLS@ + le(1, 4), 0, 2, seq![0u8]);
    assert(i.data =~= D_SETTLE_MULTIPLE_PNLS@ + le(1, 4) + (le(0, 2) + seq![0u8]));
    assert(i.data =~= D_SETTLE_MULTIPLE_PNLS@ + le(1, 4) + le(0, 2) + (seq![0u8]));
    assert(i.data =~= D_SETTLE_MULTIPLE_PNLS@ + le(1, 4) + le(0, 2) + seq![0u8]);
    assert(i.data.take(8) =~= D_SETTLE_MULTIPLE_PNLS@);
}

/// The delegate asks to shrink its owner's ring to one slot, pays for it and signs;
/// the owner is named and does not sign.
pub proof fn a_delegate_tries_to_shrink_the_ring(f: &Regr271Resize, r: Transaction)
    requires
        call_ensures(Regr271Resize::resize_shrink_as_delegate, (f,), r),
    ensures
        ({
            &&& sent_by(r@, f.program_id, addr(f.delegate))
            &&& writes(r@) == seq![f.signed_msg_pda, addr(f.delegate)]
            &&& reads(r@) == seq![f.authority, system_program_id()]
            &&& r@.instructions[0].accounts[2].is_signer
            &&& tag(r@) == D_RESIZE_SIGNED_MSG@
            &&& number(r@, 8, 2) == 1
            &&& r@.instructions[0].data.len() == 10
        }),
{
    let i = r@.instructions[0];
    reveal_with_fuel(written, 6);
    reveal_with_fuel(consulted, 6);
    widths();
    spelled(D_RESIZE_SIGNED_MSG@, 1, 2, Seq::<u8>::empty());
    assert(i.data =~= D_RESIZE_SIGNED_MSG@ + le(1, 2) + Seq::<u8>::empty());
    assert(i.data.take(8) =~= D_RESIZE_SIGNED_MSG@);
}

/// A keeper asks for new averages and signs; its stats and the oracle are only read.
pub proof fn the_averages_are_cranked_by_a_keeper(f: &bid_ask_twap::Fx, r: Transaction)
    requires
        call_ensures(bid_ask_twap::Fx::crank, (f,), r),
    ensures
        ({
            &&& sent_by(r@, f.program_id, addr(f.authority))
            &&& writes(r@) == seq![f.perp_market_pda]
            &&& reads(r@) == seq![f.state_pda, f.oracle, f.keeper_stats_pda, addr(f.authority)]
            &&& r@.instructions[0].accounts[4].is_signer
            &&& tag(r@) == D_UPDATE_PERP_BID_ASK_TWAP@
            &&& r@.instructions[0].data.len() == 8
        }),
{
    let i = r@.instructions[0];
    reveal_with_fuel(written, 7);
    reveal_with_fuel(consulted, 7);
    widths();
    assert(i.data.take(8) =~= D_UPDATE_PERP_BID_ASK_TWAP@);
}

/// A donor gives a thousand quote units out of its wallet to the revenue pool's
/// vault, and signs.
pub proof fn a_donation_of_a_thousand_units(f: &revenue_deposit::Fx, r: Transaction)
    requires
        call_ensures(revenue_deposit::Fx::donate, (f,), r),
    ensures
        ({
            &&& sent_by(r@, f.program_id, addr(f.authority))
            &&& writes(r@) == seq![
                f.spot_market_pda,
                addr(f.authority),
                f.spot_vault_pda,
                f.user_token_account,
            ]
            &&& reads(r@) == seq![f.state_pda, token_program_id()]
            &&& r@.instructions[0].accounts[2].is_signer
            &&& tag(r@) == D_DEPOSIT_INTO_SPOT_MARKET_REVENUE_POOL@
            &&& number(r@, 8, 8) == 1_000_000_000
            &&& r@.instructions[0].data.len() == 16
        }),
{
    let i = r@.instructions[0];
    reveal_with_fuel(written, 8);
    reveal_with_fuel(consulted, 8);
    widths();
    spelled(D_DEPOSIT_INTO_SPOT_MARKET_REVENUE_POOL@, 1_000_000_000, 8, Seq::<u8>::empty());
    assert(i.data =~= D_DEPOSIT_INTO_SPOT_MARKET_REVENUE_POOL@ + le(1_000_000_000, 8)
        + Seq::<u8>::empty());
    assert(i.data.take(8) =~= D_DEPOSIT_INTO_SPOT_MARKET_REVENUE_POOL@);
}

/// A sweep of the revenue pool needs nobody's signature: from the vault to the
/// insurance vault, by the exchange's own signer, in the quote market.
pub proof fn sweeps_need_no_signature(f: &settle_revenue::Fx, r: Transaction)
    requires
        call_ensures(settle_revenue::Fx::settle, (f,), r),
    ensures
        r@.instructions.len() == 1,
        r@.instructions[0].program_id == f.program_id,
        r@.signers.len() == 0,
        nobody_need_sign(r@),
        writes(r@) == seq![f.spot_market_pda, f.spot_vault_pda, f.if_vault_pda],
        reads(r@) == seq![f.state_pda, f.signer_pda, token_program_id()],
        tag(r@) == D_SETTLE_REVENUE_TO_INSURANCE_FUND@,
        number(r@, 8, 2) == 0,
        r@.instructions[0].data.len() == 10,
{
    let i = r@.instructions[0];
    let disc = D_SETTLE_REVENUE_TO_INSURANCE_FUND@;
    reveal_with_fuel(written, 8);
    reveal_with_fuel(consulted, 8);
    widths();
    spelled(disc, 0, 2, Seq::<u8>::empty());
    assert(i.data =~= disc + le(0, 2) + Seq::<u8>::empty());
    assert(i.data.take(8) =~= disc);
}

/// A message on a paused exchange is placed by its taker, who fills it itself; its
/// envelope is relayed whole, behind its length, with two absent options after it.
pub proof fn a_message_is_placed_while_paused(f: &Regr271Pause, message: &Vec<u8>, r: Transaction)
    requires
        call_ensures(Regr271Pause::place_while_paused, (f, message), r),
    ensures
        ({
            let taker = addr(f.authority);
            let envelope = order_envelope(f.authority, message@);
            let data = r@.instructions[0].data;
            let end = 12 + envelope.len() as int;
            &&& sent_by(r@, f.program_id, taker)
            &&& r@.instructions[0].accounts[4].is_signer
            &&& writes(r@) == seq![
                f.user_pda,
                f.user_stats_pda,
                f.signed_msg_pda,
                f.user_pda,
                f.user_stats_pda,
                f.clob_market_pda,
                f.spot_market_pda,
                f.perp_market_pda,
            ]
            &&& reads(r@) == seq![
                f.state_pda,
                taker,
                instructions_sysvar_id(),
                f.quoter_slab_pda,
                f.clob_program_id,
            ]
            &&& tag(r@) == D_PLACE_SIGNED_MSG_TAKER@
            &&& data.subrange(12, end) == envelope
            &&& data.skip(end) == seq![0u8, 0u8]
            &&& data.subrange(8, 12) == le(envelope.len() as int, 4)
        }),
{
    let i = r@.instructions[0];
    let envelope = order_envelope(f.authority, message@);
    let end = 12 + envelope.len() as int;
    reveal_with_fuel(written, 15);
    reveal_with_fuel(consulted, 15);
    le_len(envelope.len() as int, 4);
    assert(i.data.take(8) =~= D_PLACE_SIGNED_MSG_TAKER@);
    assert(i.data.subrange(8, 12) =~= le(envelope.len() as int, 4));
    assert(i.data.subrange(12, end) =~= envelope);
    assert(i.data.skip(end) =~= seq![0u8, 0u8]);
}

/// The trader's take names its own accounts and the book, carries its order, and
/// brings the two markets, the escrow and the route.
pub proof fn the_traders_take_brings_its_escrow(
    f: &Regr256,
    b: &Book,
    params: OrderParams,
    route: Vec<AccountMeta>,
    r: OrderIx,
)
    requires
        call_ensures(Regr256::take_ix, (f, b, params, route), r),
    ensures
        r.call matches OrderCall::PlaceAndTake { accounts: a, params: p, success_condition: c } && {
            &&& a.state == f.state_pda && a.user == f.trader_pda
            &&& a.user_stats == f.trader_stats_pda && a.authority == addr(f.trader_kp)
            &&& is_book(a.book, *b) && a.flow_authority is None
            &&& p == params && c is None
        },
        r.remaining@.len() == 3 + route@.len(),
        open_to_writes(r.remaining@[0], f.spot_market_pda),
        open_to_writes(r.remaining@[1], f.perp_market_pda),
        open_to_writes(r.remaining@[2], f.escrow_pda),
        r.remaining@.skip(3) == route@,
{
    assert(r.remaining@.skip(3) =~= route@);
}

// ---------------------------------------------------------------------------
// Opening accounts
// ---------------------------------------------------------------------------

/// A stats account is opened by its authority, who pays and signs; the exchange's
/// count is written.
pub proof fn stats_are_opened_by_their_owner(
    program_id: Pubkey,
    state: Pubkey,
    authority: Pubkey,
    stats: Pubkey,
    r: Transaction,
)
    requires
        call_ensures(init_stats, (program_id, state, authority, stats), r),
    ensures
        sent_by(r@, program_id, authority),
        writes(r@) == seq![stats, state, authority],
        reads(r@) == seq![authority, rent_sysvar_id(), system_program_id()],
        r@.instructions[0].accounts[3].is_signer && !r@.instructions[0].accounts[2].is_signer,
        tag(r@) == D_INITIALIZE_USER_STATS@,
        r@.instructions[0].data.len() == 8,
{
    reveal_with_fuel(written, 8);
    reveal_with_fuel(consulted, 8);
    assert(r@.instructions[0].data.take(8) =~= D_INITIALIZE_USER_STATS@);
}

/// A name of nothing but zero bytes behind a sub-account's number.
pub open spec fn opens(t: TransactionView, sub_account_id: u16) -> bool {
    &&& tag(t) == D_INITIALIZE_USER@
    &&& number(t, 8, 2) == sub_account_id
    &&& t.instructions[0].data.len() == 42
    &&& forall|k: int| 10 <= k < 42 ==> #[trigger] t.instructions[0].data[k] == 0
}

proof fn names_are_empty(data: Seq<u8>, sub_account_id: u16)
    requires
        data == D_INITIALIZE_USER@ + (le(sub_account_id as int, 2) + ZERO_BYTES@),
    ensures
        data.take(8) == D_INITIALIZE_USER@,
        le_value(data.subrange(8, 10)) == sub_account_id,
        data.len() == 42,
        forall|k: int| 10 <= k < 42 ==> #[trigger] data[k] == 0,
{
    widths();
    le_len(sub_account_id as int, 2);
    spelled(D_INITIALIZE_USER@, sub_account_id as int, 2, ZERO_BYTES@);
    assert(data =~= D_INITIALIZE_USER@ + le(sub_account_id as int, 2) + ZERO_BYTES@);
    assert(data.take(8) =~= D_INITIALIZE_USER@);
}

/// A sub-account is opened by its authority, who pays and signs, with an empty name
/// and the account that watches over it; the stats and the exchange's count are
/// written.
pub proof fn sub_accounts_are_opened_by_their_owner(
    program_id: Pubkey,
    state: Pubkey,
    authority: Pubkey,
    stats: Pubkey,
    user: Pubkey,
    conditions: Pubkey,
    sub_account_id: u16,
    r: Transaction,
)
    requires
        call_ensures(
            init_user,
            (program_id, state, authority, stats, user, conditions, sub_account_id),
            r,
        ),
    ensures
        sent_by(r@, program_id, authority),
        writes(r@) == seq![user, conditions, stats, state, authority],
        reads(r@) == seq![authority, rent_sysvar_id(), system_program_id()],
        r@.instructions[0].accounts[5].is_signer && !r@.instructions[0].accounts[4].is_signer,
        opens(r@, sub_account_id),
{
    reveal_with_fuel(written, 10);
    reveal_with_fuel(consulted, 10);
    names_are_empty(r@.instructions[0].data, sub_account_id);
}

/// Where no account watches over users, the first sub-account is opened without one.
pub proof fn unwatched_accounts_are_opened(
    program: Pubkey,
    state: Pubkey,
    authority: Pubkey,
    stats: Pubkey,
    user: Pubkey,
    r: Transaction,
)
    requires
        call_ensures(open_user, (program, state, authority, stats, user), r),
    ensures
        sent_by(r@, program, authority),
        writes(r@) == seq![user, stats, state, authority],
        reads(r@) == seq![authority, rent_sysvar_id(), system_program_id()],
        r@.instructions[0].accounts[4].is_signer && !r@.instructions[0].accounts[3].is_signer,
        opens(r@, 0),
{
    reveal_with_fuel(written, 9);
    reveal_with_fuel(consulted, 9);
    names_are_empty(r@.instructions[0].data, 0);
}

/// The accounts that the standard scenario opens later are derived from their owner:
/// a further sub-account of a user, and the stats and a sub-account of a fresh
/// authority.
pub proof fn later_accounts_are_derived(
    f: &Fixture,
    idx: usize,
    sub_account_id: u16,
    further: Option<Transaction>,
    stats: Option<Transaction>,
    fresh: Option<Transaction>,
)
    requires
        call_ensures(Fixture::action_initialize_sub_account, (f, idx, sub_account_id), further),
        call_ensures(Fixture::action_initialize_user_stats, (f, idx), stats),
        call_ensures(Fixture::action_initialize_fresh_user, (f, idx, sub_account_id), fresh),
        f.wf(),
        idx < 2,
    ensures
        further matches Some(t) ==> {
            let user = f.users@[idx as int];
            let sub = pda_key(
                seq![text("user"), user.authority().bytes@, le(sub_account_id as int, 2)],
                f.program_id,
            );
            let watch = pda_key(seq![text("user_conditions"), sub.bytes@], f.program_id);
            &&& sent_by(t@, f.program_id, user.authority())
            &&& writes(t@) == seq![sub, watch, user.stats_pda, f.state_pda, user.authority()]
            &&& opens(t@, sub_account_id)
        },
        stats matches Some(t) ==> {
            let owner = addr(f.fresh@[idx as int]);
            let held = pda_key(seq![text("user_stats"), owner.bytes@], f.program_id);
            &&& sent_by(t@, f.program_id, owner)
            &&& writes(t@) == seq![held, f.state_pda, owner]
            &&& tag(t@) == D_INITIALIZE_USER_STATS@
        },
        fresh matches Some(t) ==> {
            let owner = addr(f.fresh@[idx as int]);
            let held = pda_key(seq![text("user_stats"), owner.bytes@], f.program_id);
            let sub = pda_key(
                seq![text("user"), owner.bytes@, le(sub_account_id as int, 2)],
                f.program_id,
            );
            let watch = pda_key(seq![text("user_conditions"), sub.bytes@], f.program_id);
            &&& sent_by(t@, f.program_id, owner)
            &&& writes(t@) == seq![sub, watch, held, f.state_pda, owner]
            &&& opens(t@, sub_account_id)
        },
{
    reveal_with_fuel(written, 10);
    reveal_with_fuel(consulted, 10);
    if let Some(t) = further {
        names_are_empty(t@.instructions[0].data, sub_account_id);
    }
    if let Some(t) = fresh {
        names_are_empty(t@.instructions[0].data, sub_account_id);
    }
    if let Some(t) = stats {
        assert(t@.instructions[0].data.take(8) =~= D_INITIALIZE_USER_STATS@);
    }
}

/// A deposit into the quote market of a small scenario: out of the wallet into the
/// vault, the whole amount, free to open a balance.
pub proof fn quote_deposits_move_the_amount(
    program: Pubkey,
    d: &Depositor,
    amount: u64,
    r: Transaction,
)
    requires
        call_ensures(quote_deposit, (program, d, amount), r),
    ensures
        sent_by(r@, program, d.authority),
        r@.instructions[0].accounts[3].is_signer,
        writes(r@) == seq![d.user, d.stats, d.vault, d.wallet, d.market],
        reads(r@) == seq![d.state, d.authority, token_program_id()],
        tag(r@) == D_DEPOSIT@,
        number(r@, 8, 2) == 0,
        number(r@, 10, 8) == amount,
        r@.instructions[0].data[18] == 0,
        r@.instructions[0].data.len() == 19,
{
    let i = r@.instructions[0];
    reveal_with_fuel(written, 10);
    reveal_with_fuel(consulted, 10);
    widths();
    spelled(D_DEPOSIT@, 0, 2, le(amount as int, 8) + seq![0u8]);
    spelled(D_DEPOSIT@ + le(0, 2), amount as int, 8, seq![0u8]);
    assert(i.data =~= D_DEPOSIT@ + le(0, 2) + (le(amount as int, 8) + seq![0u8]));
    assert(i.data =~= D_DEPOSIT@ + le(0, 2) + le(amount as int, 8) + seq![0u8]);
    assert(i.data.take(8) =~= D_DEPOSIT@);
}

// ---------------------------------------------------------------------------
// Amending orders
// ---------------------------------------------------------------------------

/// An option on the wire: a one and what it holds, or a zero.
pub open spec fn optional(some: bool, held: Seq<u8>) -> Seq<u8> {
    if some {
        seq![1u8] + held
    } else {
        seq![0u8]
    }
}

/// The three filters of a cancel stand in order, each present where its choice is
/// one: the kind of market, its number, and the side; kinds and sides above one count
/// as one.
pub proof fn cancels_are_filtered(
    f: &Fixture,
    user_idx: usize,
    with_market_type: u8,
    market_type: u8,
    with_market_index: u8,
    market_index: u16,
    with_direction: u8,
    direction: u8,
    r: Transaction,
)
    requires
        call_ensures(
            Fixture::action_cancel_orders,
            (
                f,
                user_idx,
                with_market_type,
                market_type,
                with_market_index,
                market_index,
                with_direction,
                direction,
            ),
            r,
        ),
        f.wf(),
        user_idx < 2,
    ensures
        ({
            let user = f.users@[user_idx as int];
            let kind = if market_type == 0 { 0u8 } else { 1u8 };
            let side = if direction == 0 { 0u8 } else { 1u8 };
            &&& sent_by(r@, f.program_id, user.authority())
            &&& writes(r@) == seq![
                user.user_pda,
                f.perp_oracle_pda,
                f.spot_1_oracle_pda,
                f.perp_market_pda,
            ]
            &&& reads(r@) == seq![
                f.state_pda,
                user.authority(),
                f.spot_market_pda,
                f.spot_market_1_pda,
            ]
            &&& tag(r@) == D_CANCEL_ORDERS@
            &&& r@.instructions[0].data.skip(8) == optional(with_market_type == 1, seq![kind])
                + optional(with_market_index == 1, le(market_index as int, 2)) + optional(
                with_direction == 1,
                seq![side],
            )
        }),
{
    let i = r@.instructions[0];
    reveal_with_fuel(written, 10);
    reveal_with_fuel(consulted, 10);
    assert(i.data.take(8) =~= D_CANCEL_ORDERS@);
    let kind = if market_type == 0 { 0u8 } else { 1u8 };
    let side = if direction == 0 { 0u8 } else { 1u8 };
    assert(i.data.skip(8) =~= optional(with_market_type == 1, seq![kind]) + optional(
        with_market_index == 1,
        le(market_index as int, 2),
    ) + optional(with_direction == 1, seq![side]));
}

/// A change names its order, by the exchange's number where that is asked for or by
/// the user's own, then gives the fields that change, each where its choice is one:
/// side, size, price, and whether it may only reduce; seven fields that never change;
/// and the policy.
pub proof fn changes_name_what_changes(
    f: &Fixture,
    user_idx: usize,
    with_order_id: u8,
    order_id: u32,
    with_direction: u8,
    direction: u8,
    with_base: u8,
    base: u64,
    with_price: u8,
    price: u64,
    with_reduce_only: u8,
    reduce_only: u8,
    with_policy: u8,
    policy: u8,
    r: Transaction,
    user_order_id: u8,
    q: Transaction,
)
    requires
        call_ensures(
            Fixture::action_modify_order,
            (
                f,
                user_idx,
                with_order_id,
                order_id,
                with_direction,
                direction,
                with_base,
                base,
                with_price,
                price,
                with_reduce_only,
                reduce_only,
                with_policy,
                policy,
            ),
            r,
        ),
        call_ensures(
            Fixture::action_modify_order_by_user_id,
            (f, user_idx, user_order_id, with_price, price, with_base, base),
            q,
        ),
        f.wf(),
        user_idx < 2,
    ensures
        ({
            let user = f.users@[user_idx as int];
            let touched = seq![
                user.user_pda,
                f.perp_oracle_pda,
                f.spot_1_oracle_pda,
                f.perp_market_pda,
            ];
            let side = if direction == 0 { 0u8 } else { 1u8 };
            let reducing = if reduce_only == 1 { 1u8 } else { 0u8 };
            let held = if policy == 0 { 0u8 } else { 1u8 };
            let sized = optional(with_base == 1, le(base as int, 8));
            let priced = optional(with_price == 1, le(price as int, 8));
            &&& sent_by(r@, f.program_id, user.authority()) && writes(r@) == touched
            &&& sent_by(q@, f.program_id, user.authority()) && writes(q@) == touched
            &&& tag(r@) == D_MODIFY_ORDER@ && tag(q@) == D_MODIFY_ORDER_BY_USER_ID@
            &&& r@.instructions[0].data.skip(8) == optional(
                with_order_id == 1,
                le(order_id as int, 4),
            ) + with_fixed(
                optional(with_direction == 1, seq![side]) + sized + priced + optional(
                    with_reduce_only == 1,
                    seq![reducing],
                ),
                optional(with_policy == 1, seq![held]),
            )
            &&& q@.instructions[0].data.skip(8) == seq![user_order_id] + with_fixed(
                seq![0u8] + sized + priced + seq![0u8],
                seq![0u8],
            )
        }),
{
    let i = r@.instructions[0];
    let j = q@.instructions[0];
    reveal_with_fuel(written, 10);
    assert(i.data.take(8) =~= D_MODIFY_ORDER@);
    assert(j.data.take(8) =~= D_MODIFY_ORDER_BY_USER_ID@);
    let p = ModifyParams {
        direction: chosen(with_direction, clip(direction)),
        base_asset_amount: chosen(with_base, base),
        price: chosen(with_price, price),
        reduce_only: chosen(with_reduce_only, reduce_only == 1),
        policy: chosen(with_policy, clip(policy)),
    };
    let o = ModifyParams {
        direction: None,
        base_asset_amount: chosen(with_base, base),
        price: chosen(with_price, price),
        reduce_only: None,
        policy: None,
    };
    assert(i.data.skip(8) =~= opt(with_order_id == 1, le(order_id as int, 4))
        + modify_params_wire(p));
    assert(j.data.skip(8) =~= seq![user_order_id] + modify_params_wire(o));
}

/// Seven absent options between what may be given and what comes last.
pub open spec fn with_fixed(given: Seq<u8>, last: Seq<u8>) -> Seq<u8> {
    given + seq![0u8] + seq![0u8] + seq![0u8] + seq![0u8] + seq![0u8] + seq![0u8] + seq![0u8] + last
}

// ---------------------------------------------------------------------------
// Prices and margin
// ---------------------------------------------------------------------------

/// The market maker's oracle is set by the crank: a price, in two's complement, and
/// a number that no other update has. Nothing but that number moves on.
pub proof fn maker_prices_are_numbered(f: &mut Fixture, price: i64, r: Transaction)
    requires
        call_ensures(Fixture::action_native_mm_oracle, (f, price), r),
        old(f).mm_seq < u64::MAX,
    ensures
        sent_by(r@, old(f).program_id, addr(old(f).crank)),
        writes(r@) == seq![old(f).perp_market_pda],
        reads(r@) == seq![addr(old(f).crank), clock_sysvar_id(), old(f).state_pda],
        r@.instructions[0].accounts[1].is_signer,
        r@.instructions[0].data.take(5) == seq![255u8, 255u8, 255u8, 255u8, 0u8],
        price >= 0 ==> number(r@, 5, 8) == price,
        price < 0 ==> number(r@, 5, 8) == price + 0x1_0000_0000_0000_0000,
        number(r@, 13, 8) == old(f).mm_seq,
        r@.instructions[0].data.len() == 21,
        final(f).mm_seq == old(f).mm_seq + 1,
        *final(f) == (Fixture { mm_seq: final(f).mm_seq, ..*old(f) }),
{
    let i = r@.instructions[0];
    let op = seq![255u8, 255u8, 255u8, 255u8, 0u8];
    let v = if price < 0 { price + 0x1_0000_0000_0000_0000 } else { price as int };
    reveal_with_fuel(written, 6);
    reveal_with_fuel(consulted, 6);
    widths();
    let n = le(old(f).mm_seq as int, 8);
    spelled(op, v, 8, n);
    spelled(op + le(v, 8), old(f).mm_seq as int, 8, Seq::<u8>::empty());
    assert(i.data =~= op + le(v, 8) + n);
    assert(i.data =~= op + le(v, 8) + n + Seq::<u8>::empty());
    assert(i.data.take(5) =~= op);
}

/// A borrow to the limit first turns margin trading on, then withdraws what the limit
/// allows from market 1, to the same user's wallet; there is neither where there is
/// nothing to borrow.
pub proof fn borrows_turn_margin_on_first(
    f: &Fixture,
    user_idx: usize,
    pct: u64,
    user: &User,
    price: i64,
    r: Option<(Transaction, Transaction)>,
    size: Option<u64>,
    enable: Transaction,
    withdraw: Transaction,
)
    requires
        call_ensures(Fixture::action_borrow_to_margin_limit, (f, user_idx, pct, user, price), r),
        call_ensures(borrow_to_margin_limit, (user, price, pct), size),
        call_ensures(Fixture::action_update_user_margin_trading_enabled, (f, user_idx, 1), enable),
        size is Some ==> call_ensures(
            Fixture::action_withdraw,
            (f, user_idx, size->0, 1, 0),
            withdraw,
        ),
        f.wf(),
        user_idx < 2,
    ensures
        r is Some <==> size is Some,
        r matches Some(both) ==> both.0@ == enable@ && both.1@ == withdraw@,
{
}

// ---------------------------------------------------------------------------
// Relayed messages
// ---------------------------------------------------------------------------

/// A check that the signature, the signer and the payload of a message are found from
/// a place on in the data of the second instruction.
pub open spec fn checks_from(i: InstructionView, at: int, payload: int) -> bool {
    &&& i.program_id == ed25519_program_id()
    &&& i.accounts.len() == 0
    &&& i.data == seq![1u8, 0u8] + le(at, 2) + le(1, 2) + le(at + 64, 2) + le(1, 2) + le(
        at + 96 + 2,
        2,
    ) + le(payload, 2) + le(1, 2)
}

/// A taker's message is relayed by the crank, which signs in the taker's place: its
/// signature is checked first, where the second instruction holds it. The taker's
/// account, stats and ring are written, and every market.
pub proof fn messages_are_checked_then_placed(
    f: &Fixture,
    user_idx: usize,
    message: &Vec<u8>,
    r: Option<Transaction>,
)
    requires
        call_ensures(Fixture::send_signed_msg_taker_order, (f, user_idx, message), r),
        f.wf(),
        user_idx < 2,
    ensures
        r matches Some(t) ==> {
            let user = f.users@[user_idx as int];
            let ring = pda_key(seq![text("SIGNED_MSG"), user.authority().bytes@], f.program_id);
            let i = t@.instructions[1];
            let envelope = order_envelope(user.keypair, message@);
            &&& t@.instructions.len() == 2 && t@.signers == seq![addr(f.crank)]
            &&& checks_from(t@.instructions[0], 12, 2 * (8 + message@.len() as int))
            &&& i.program_id == f.program_id
            &&& written(i.accounts, i.accounts.len()) == seq![
                user.user_pda,
                user.stats_pda,
                ring,
                f.perp_oracle_pda,
                f.spot_1_oracle_pda,
                f.spot_market_pda,
                f.spot_market_1_pda,
                f.perp_market_pda,
            ]
            &&& consulted(i.accounts, i.accounts.len()) == seq![
                f.state_pda,
                addr(f.crank),
                instructions_sysvar_id(),
            ]
            &&& i.accounts[4].is_signer
            &&& i.data.take(8) == D_PLACE_SIGNED_MSG_TAKER_ORDER@
            &&& i.data.subrange(8, 12) == le(envelope.len() as int, 4)
            &&& i.data.subrange(12, 12 + envelope.len() as int) == envelope
            &&& i.data.skip(12 + envelope.len() as int) == seq![0u8]
        },
{
    if let Some(t) = r {
        let user = f.users@[user_idx as int];
        let i = t@.instructions[1];
        let envelope = order_envelope(user.keypair, message@);
        reveal_with_fuel(written, 13);
        reveal_with_fuel(consulted, 13);
        le_len(envelope.len() as int, 4);
        assert(i.data.take(8) =~= D_PLACE_SIGNED_MSG_TAKER_ORDER@);
        assert(i.data.subrange(8, 12) =~= le(envelope.len() as int, 4));
        assert(i.data.subrange(12, 12 + envelope.len() as int) =~= envelope);
        assert(i.data.skip(12 + envelope.len() as int) =~= seq![0u8]);
    }
}

/// A price update is signed and posted by the crank, which the check is told to find
/// four bytes later than in an order, behind a magic number. The oracle that is
/// written is that of the feed.
pub proof fn updates_are_checked_then_posted(
    f: &Fixture,
    which_feed: u8,
    up: u8,
    bps: u64,
    with_confidence: u8,
    confidence: i64,
    with_bid_ask: u8,
    ts_mode: u8,
    price: i64,
    last_publish_time: u64,
    unix_timestamp: i64,
    r: Transaction,
)
    requires
        call_ensures(
            Fixture::action_post_pyth_lazer_update,
            (
                f,
                which_feed,
                up,
                bps,
                with_confidence,
                confidence,
                with_bid_ask,
                ts_mode,
                price,
                last_publish_time,
                unix_timestamp,
            ),
            r,
        ),
    ensures
        ({
            let c = UpdateChoices {
                up: up == 1,
                bps,
                with_confidence: with_confidence == 1,
                confidence,
                with_bid_ask: with_bid_ask == 1,
                ts_mode,
            };
            let payload = payload_wire(
                update_time(ts_mode, unix_timestamp, last_publish_time),
                3,
                if which_feed == 0 { 0u32 } else { 1u32 },
                update_properties(updated_price(price, up == 1, bps), c),
            );
            let crank = addr(f.crank);
            let i = r@.instructions[1];
            let signature = ed25519_signature(f.crank.secret@, payload);
            let signed = 16 + signature.len() as int;
            let end = signed + 32 + 2 + payload.len() as int;
            &&& r@.instructions.len() == 2 && r@.signers == seq![crank]
            &&& checks_from(r@.instructions[0], 16, payload.len() as int)
            &&& i.program_id == f.program_id
            &&& written(i.accounts, i.accounts.len()) == seq![
                crank,
                if which_feed == 0 { f.perp_oracle_pda } else { f.spot_1_oracle_pda },
            ]
            &&& consulted(i.accounts, i.accounts.len()) == seq![
                f.lazer_storage_id,
                instructions_sysvar_id(),
            ]
            &&& i.accounts[0].is_signer
            &&& i.data.take(8) == D_UPDATE_PYTH_LAZER_ORACLE@
            &&& i.data.subrange(8, 12) == le(end - 12, 4)
            &&& i.data.subrange(12, 16) == le(2_182_742_457, 4)
            &&& i.data.subrange(16, signed) == signature
            &&& i.data.subrange(signed, signed + 32) == crank.bytes@
            &&& i.data.subrange(signed + 32, signed + 34) == le(payload.len() as int, 2)
            &&& i.data.subrange(signed + 34, end) == payload
            &&& i.data.len() == end
        }),
{
    let c = UpdateChoices {
        up: up == 1,
        bps,
        with_confidence: with_confidence == 1,
        confidence,
        with_bid_ask: with_bid_ask == 1,
        ts_mode,
    };
    let payload = f.update_payload(which_feed, c, price, last_publish_time, unix_timestamp);
    let signature = ed25519_signature(f.crank.secret@, payload);
    let i = r@.instructions[1];
    let signed = 16 + signature.len() as int;
    let end = signed + 32 + 2 + payload.len() as int;
    reveal_with_fuel(written, 6);
    reveal_with_fuel(consulted, 6);
    le_len(2_182_742_457, 4);
    le_len(payload.len() as int, 2);
    le_len(end - 12, 4);
    assert(addr(f.crank).bytes@.len() == 32);
    assert(i.data.take(8) =~= D_UPDATE_PYTH_LAZER_ORACLE@);
    assert(i.data.subrange(8, 12) =~= le(end - 12, 4));
    assert(i.data.subrange(12, 16) =~= le(2_182_742_457, 4));
    assert(i.data.subrange(16, signed) =~= signature);
    assert(i.data.subrange(signed, signed + 32) =~= addr(f.crank).bytes@);
    assert(i.data.subrange(signed + 32, signed + 34) =~= le(payload.len() as int, 2));
    assert(i.data.subrange(signed + 34, end) =~= payload);
}

/// The list of those that may relay a user's messages is opened by the user with the
/// number of them and their addresses, the users after it in turn.
pub proof fn relayers_are_listed_in_turn(
    f: &Fixture,
    user_idx: usize,
    n: u32,
    r: Option<Transaction>,
    k: int,
)
    requires
        call_ensures(Fixture::action_init_signed_msg_ws_delegates, (f, user_idx, n), r),
        f.wf(),
        user_idx < 2,
        user_idx + n <= usize::MAX,
    ensures
        r matches Some(t) ==> {
            let user = f.users@[user_idx as int];
            let list = pda_key(seq![text("SIGNED_MSG_WS"), user.authority().bytes@], f.program_id);
            &&& sent_by(t@, f.program_id, user.authority())
            &&& writes(t@) == seq![list, user.authority()]
            &&& reads(t@) == seq![rent_sysvar_id(), system_program_id()]
            &&& t@.instructions[0].accounts[1].is_signer
            &&& tag(t@) == D_INIT_SIGNED_MSG_WS_DELEGATES@
            &&& number(t@, 8, 4) == n
            &&& t@.instructions[0].data.len() == 12 + 32 * n
            &&& 0 <= k < n ==> t@.instructions[0].data.subrange(12 + 32 * k, 44 + 32 * k)
                == f.users@[(user_idx + k + 1) % 2].authority().bytes@
        },
{
    if let Some(t) = r {
        let i = t@.instructions[0];
        let disc = D_INIT_SIGNED_MSG_WS_DELEGATES@;
        reveal_with_fuel(written, 6);
        reveal_with_fuel(consulted, 6);
        widths();
        let list = f.delegates(user_idx as int, n as int);
        delegates_in_turn(*f, user_idx as int, n as int, k);
        spelled(disc, n as int, 4, list);
        assert(i.data =~= disc + le(n as int, 4) + list);
        assert(i.data.take(8) =~= disc);
        if 0 <= k < n {
            assert(i.data.subrange(12 + 32 * k, 44 + 32 * k) =~= list.subrange(
                32 * k,
                32 * k + 32,
            ));
        }
    }
}

proof fn delegates_in_turn(f: Fixture, user_idx: int, n: int, k: int)
    requires
        n >= 0,
    ensures
        f.delegates(user_idx, n).len() == 32 * n,
        0 <= k < n ==> f.delegates(user_idx, n).subrange(32 * k, 32 * k + 32) == f.users@[(user_idx
            + k + 1) % 2].authority().bytes@,
    decreases n,
{
    if n > 0 {
        delegates_in_turn(f, user_idx, n - 1, k);
        let last = f.users@[following(user_idx, n)].authority().bytes@;
        assert(last.len() == 32);
        if 0 <= k < n - 1 {
            assert(f.delegates(user_idx, n).subrange(32 * k, 32 * k + 32) =~= f.delegates(
                user_idx,
                n - 1,
            ).subrange(32 * k, 32 * k + 32));
        } else if k == n - 1 {
            assert(f.delegates(user_idx, n).subrange(32 * k, 32 * k + 32) =~= last);
        }
    }
}

} // verus!
