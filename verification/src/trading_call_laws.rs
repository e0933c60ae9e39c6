//! What the calls of trading may change, who makes them, and what they say.

use vstd::prelude::*;
use crate::call_laws::{
    consulted, nobody_need_sign, number, reads, sent_by, spelled, tag, widths, writes, written,
};
use crate::discriminators::{
    D_CANCEL_ORDER, D_CANCEL_ORDERS_BY_IDS, D_CANCEL_ORDER_BY_USER_ID, D_DEPOSIT, D_FILL_PERP_ORDER,
    D_PLACE_AND_MAKE_PERP_ORDER, D_PLACE_AND_TAKE_PERP_ORDER, D_PLACE_ORDERS, D_PLACE_PERP_ORDER,
    D_REVERT_FILL, D_SETTLE_FUNDING_PAYMENT, D_SETTLE_MULTIPLE_PNLS, D_SETTLE_PNL, D_TRIGGER_ORDER,
    D_UPDATE_AMMS, D_UPDATE_FUNDING_RATE, D_UPDATE_PERP_BID_ASK_TWAP,
    D_UPDATE_SPOT_MARKET_CUMULATIVE_INTEREST, D_WITHDRAW,
};
use crate::fixture::{addr, Fixture};
use crate::trading::{clip, id_list, index_list, TakerOrder};
use crate::wire::le_value;
use crate::keys::{token_program_id, Transaction};
use crate::wire::{flag, le, le_len};

verus! {

// ---------------------------------------------------------------------------
// Deposits and withdrawals
// ---------------------------------------------------------------------------

/// A deposit into the quote market moves tokens out of the user's wallet into the
/// vault: as many as were asked for and the wallet holds, and none where that is
/// none.
pub proof fn deposits_into_the_quote_market(
    f: &Fixture,
    user_idx: usize,
    amount: u64,
    market_index: u16,
    reduce_only: u8,
    wallet_balance: u64,
    r: Option<Transaction>,
)
    requires
        call_ensures(
            Fixture::action_deposit,
            (f, user_idx, amount, market_index, reduce_only, wallet_balance),
            r,
        ),
        f.wf(),
        user_idx < 2,
        market_index != 1,
    ensures
        r is Some <==> amount > 0 && wallet_balance > 0,
        r matches Some(t) ==> {
            let user = f.users@[user_idx as int];
            let paid = if amount <= wallet_balance { amount } else { wallet_balance };
            &&& sent_by(t@, f.program_id, user.authority())
            &&& writes(t@) == seq![
                user.user_pda,
                user.stats_pda,
                f.spot_vault_pda,
                user.token_account,
                f.spot_market_pda,
            ]
            &&& reads(t@) == seq![f.state_pda, user.authority(), token_program_id()]
            &&& t@.instructions[0].accounts[3].is_signer
            &&& tag(t@) == D_DEPOSIT@
            &&& number(t@, 8, 2) == market_index
            &&& number(t@, 10, 8) == paid
            &&& t@.instructions[0].data[18] == (if reduce_only == 1 { 1u8 } else { 0u8 })
            &&& t@.instructions[0].data.len() == 19
        },
{
    if let Some(t) = r {
        let user = f.users@[user_idx as int];
        let paid = if amount <= wallet_balance { amount } else { wallet_balance };
        let i = t@.instructions[0];
        reveal_with_fuel(written, 10);
        reveal_with_fuel(consulted, 10);
        widths();
        spelled(
            D_DEPOSIT@,
            market_index as int,
            2,
            le(paid as int, 8) + seq![flag(reduce_only == 1)],
        );
        spelled(
            D_DEPOSIT@ + le(market_index as int, 2),
            paid as int,
            8,
            seq![flag(reduce_only == 1)],
        );
        assert(i.data =~= D_DEPOSIT@ + le(market_index as int, 2) + (le(paid as int, 8)
            + seq![flag(reduce_only == 1)]));
        assert(i.data =~= D_DEPOSIT@ + le(market_index as int, 2) + le(paid as int, 8)
            + (seq![flag(reduce_only == 1)]));
        assert(i.data =~= D_DEPOSIT@ + le(market_index as int, 2) + le(paid as int, 8)
            + seq![flag(reduce_only == 1)]);
        assert(i.data.take(8) =~= D_DEPOSIT@);
    }
}

/// A deposit into the second market does the same between that market's own vault and
/// wallet, and prices the market.
pub proof fn deposits_into_the_second_market(
    f: &Fixture,
    user_idx: usize,
    amount: u64,
    market_index: u16,
    reduce_only: u8,
    wallet_balance: u64,
    r: Option<Transaction>,
)
    requires
        call_ensures(
            Fixture::action_deposit,
            (f, user_idx, amount, market_index, reduce_only, wallet_balance),
            r,
        ),
        f.wf(),
        user_idx < 2,
        market_index == 1,
    ensures
        r is Some <==> amount > 0 && wallet_balance > 0,
        r matches Some(t) ==> {
            let user = f.users@[user_idx as int];
            let paid = if amount <= wallet_balance { amount } else { wallet_balance };
            &&& sent_by(t@, f.program_id, user.authority())
            &&& writes(t@) == seq![
                user.user_pda,
                user.stats_pda,
                f.spot_vault_1_pda,
                user.token_account_1,
                f.spot_1_oracle_pda,
                f.spot_market_1_pda,
            ]
            &&& reads(t@) == seq![f.state_pda, user.authority(), token_program_id()]
            &&& t@.instructions[0].accounts[3].is_signer
            &&& tag(t@) == D_DEPOSIT@
            &&& number(t@, 8, 2) == market_index
            &&& number(t@, 10, 8) == paid
            &&& t@.instructions[0].data[18] == (if reduce_only == 1 { 1u8 } else { 0u8 })
            &&& t@.instructions[0].data.len() == 19
        },
{
    if let Some(t) = r {
        let user = f.users@[user_idx as int];
        let paid = if amount <= wallet_balance { amount } else { wallet_balance };
        let i = t@.instructions[0];
        reveal_with_fuel(written, 11);
        reveal_with_fuel(consulted, 11);
        widths();
        spelled(
            D_DEPOSIT@,
            market_index as int,
            2,
            le(paid as int, 8) + seq![flag(reduce_only == 1)],
        );
        spelled(
            D_DEPOSIT@ + le(market_index as int, 2),
            paid as int,
            8,
            seq![flag(reduce_only == 1)],
        );
        assert(i.data =~= D_DEPOSIT@ + le(market_index as int, 2) + (le(paid as int, 8)
            + seq![flag(reduce_only == 1)]));
        assert(i.data =~= D_DEPOSIT@ + le(market_index as int, 2) + le(paid as int, 8)
            + (seq![flag(reduce_only == 1)]));
        assert(i.data =~= D_DEPOSIT@ + le(market_index as int, 2) + le(paid as int, 8)
            + seq![flag(reduce_only == 1)]);
        assert(i.data.take(8) =~= D_DEPOSIT@);
    }
}

/// A withdrawal moves tokens out of the vault of the market it names into the user's
/// wallet for it, by the exchange's own signer, and looks at every market.
pub proof fn withdrawals_move_tokens_out_of_the_vault(
    f: &Fixture,
    user_idx: usize,
    amount: u64,
    market_index: u16,
    reduce_only: u8,
    r: Transaction,
)
    requires
        call_ensures(Fixture::action_withdraw, (f, user_idx, amount, market_index, reduce_only), r),
        f.wf(),
        user_idx < 2,
    ensures
        ({
            let user = f.users@[user_idx as int];
            let vault = if market_index == 1 { f.spot_vault_1_pda } else { f.spot_vault_pda };
            let wallet = if market_index == 1 { user.token_account_1 } else { user.token_account };
            &&& sent_by(r@, f.program_id, user.authority())
            &&& writes(r@) == seq![
                user.user_pda,
                user.stats_pda,
                vault,
                wallet,
                f.perp_oracle_pda,
                f.spot_1_oracle_pda,
                f.spot_market_pda,
                f.spot_market_1_pda,
                f.perp_market_pda,
            ]
            &&& reads(r@) == seq![f.state_pda, user.authority(), f.signer_pda, token_program_id()]
            &&& r@.instructions[0].accounts[3].is_signer
            &&& tag(r@) == D_WITHDRAW@
            &&& number(r@, 8, 2) == market_index
            &&& number(r@, 10, 8) == amount
            &&& r@.instructions[0].data[18] == (if reduce_only == 1 { 1u8 } else { 0u8 })
            &&& r@.instructions[0].data.len() == 19
        }),
{
    let user = f.users@[user_idx as int];
    let vault = if market_index == 1 { f.spot_vault_1_pda } else { f.spot_vault_pda };
    let wallet = if market_index == 1 { user.token_account_1 } else { user.token_account };
    let i = r@.instructions[0];
    reveal_with_fuel(written, 15);
    reveal_with_fuel(consulted, 15);
    widths();
    spelled(
        D_WITHDRAW@,
        market_index as int,
        2,
        le(amount as int, 8) + seq![flag(reduce_only == 1)],
    );
    spelled(
        D_WITHDRAW@ + le(market_index as int, 2),
        amount as int,
        8,
        seq![flag(reduce_only == 1)],
    );
    assert(i.data =~= D_WITHDRAW@ + le(market_index as int, 2) + (le(amount as int, 8)
        + seq![flag(reduce_only == 1)]));
    assert(i.data =~= D_WITHDRAW@ + le(market_index as int, 2) + le(amount as int, 8)
        + (seq![flag(reduce_only == 1)]));
    assert(i.data =~= D_WITHDRAW@ + le(market_index as int, 2) + le(amount as int, 8)
        + seq![flag(reduce_only == 1)]);
    assert(i.data.take(8) =~= D_WITHDRAW@);
}

// ---------------------------------------------------------------------------
// Orders
// ---------------------------------------------------------------------------

/// A call on a user's orders is the user's own: its account is written, and the spot
/// markets are only read. What is sent is the tag and the arguments.
pub proof fn order_calls_touch_their_user(
    f: &Fixture,
    user_idx: usize,
    disc: [u8; 8],
    args: Vec<u8>,
    r: Transaction,
)
    requires
        call_ensures(Fixture::send_order_ix, (f, user_idx, disc, args), r),
        f.wf(),
        user_idx < 2,
    ensures
        ({
            let user = f.users@[user_idx as int];
            &&& sent_by(r@, f.program_id, user.authority())
            &&& writes(r@) == seq![
                user.user_pda,
                f.perp_oracle_pda,
                f.spot_1_oracle_pda,
                f.perp_market_pda,
            ]
            &&& reads(r@) == seq![
                f.state_pda,
                user.authority(),
                f.spot_market_pda,
                f.spot_market_1_pda,
            ]
            &&& r@.instructions[0].accounts[2].is_signer
            &&& tag(r@) == disc@
            &&& r@.instructions[0].data.skip(8) == args@
        }),
{
    let user = f.users@[user_idx as int];
    let i = r@.instructions[0];
    reveal_with_fuel(written, 10);
    reveal_with_fuel(consulted, 10);
    assert(i.data.skip(8) =~= args@);
    assert(i.data.take(8) =~= disc@);
}

/// An order is placed by its user, on its own account; the spot markets are only
/// read. What is sent is the order as it was encoded.
pub proof fn placed_orders_touch_their_user(
    f: &Fixture,
    user_idx: usize,
    order_wire: Vec<u8>,
    r: Transaction,
)
    requires
        call_ensures(Fixture::send_perp_order, (f, user_idx, order_wire), r),
        f.wf(),
        user_idx < 2,
    ensures
        ({
            let user = f.users@[user_idx as int];
            &&& sent_by(r@, f.program_id, user.authority())
            &&& writes(r@) == seq![
                user.user_pda,
                f.perp_oracle_pda,
                f.spot_1_oracle_pda,
                f.perp_market_pda,
            ]
            &&& reads(r@) == seq![
                f.state_pda,
                user.authority(),
                f.spot_market_pda,
                f.spot_market_1_pda,
            ]
            &&& r@.instructions[0].accounts[2].is_signer
            &&& tag(r@) == D_PLACE_PERP_ORDER@
            &&& r@.instructions[0].data.skip(8) == order_wire@
        }),
{
    let user = f.users@[user_idx as int];
    let i = r@.instructions[0];
    reveal_with_fuel(written, 10);
    reveal_with_fuel(consulted, 10);
    assert(i.data.skip(8) =~= order_wire@);
    assert(i.data.take(8) =~= D_PLACE_PERP_ORDER@);
}

/// So is a batch of orders.
pub proof fn batches_touch_their_user(
    f: &Fixture,
    user_idx: usize,
    orders_wire: Vec<u8>,
    r: Transaction,
)
    requires
        call_ensures(Fixture::send_orders, (f, user_idx, orders_wire), r),
        f.wf(),
        user_idx < 2,
    ensures
        ({
            let user = f.users@[user_idx as int];
            &&& sent_by(r@, f.program_id, user.authority())
            &&& writes(r@) == seq![
                user.user_pda,
                f.perp_oracle_pda,
                f.spot_1_oracle_pda,
                f.perp_market_pda,
            ]
            &&& reads(r@) == seq![
                f.state_pda,
                user.authority(),
                f.spot_market_pda,
                f.spot_market_1_pda,
            ]
            &&& r@.instructions[0].accounts[2].is_signer
            &&& tag(r@) == D_PLACE_ORDERS@
            &&& r@.instructions[0].data.skip(8) == orders_wire@
        }),
{
    let user = f.users@[user_idx as int];
    let i = r@.instructions[0];
    reveal_with_fuel(written, 10);
    reveal_with_fuel(consulted, 10);
    assert(i.data.skip(8) =~= orders_wire@);
    assert(i.data.take(8) =~= D_PLACE_ORDERS@);
}

/// A cancel names one order: the picked one where that is asked for and there is one,
/// the given number otherwise.
pub proof fn cancels_name_an_order(
    f: &Fixture,
    user_idx: usize,
    picked_id: Option<u32>,
    use_real_id: u8,
    blind_id: u32,
    r: Transaction,
)
    requires
        call_ensures(
            Fixture::action_cancel_order,
            (f, user_idx, picked_id, use_real_id, blind_id),
            r,
        ),
        f.wf(),
        user_idx < 2,
    ensures
        ({
            let user = f.users@[user_idx as int];
            let id = if use_real_id == 1 && picked_id is Some { picked_id->0 } else { blind_id };
            &&& sent_by(r@, f.program_id, user.authority())
            &&& writes(r@) == seq![
                user.user_pda,
                f.perp_oracle_pda,
                f.spot_1_oracle_pda,
                f.perp_market_pda,
            ]
            &&& reads(r@) == seq![
                f.state_pda,
                user.authority(),
                f.spot_market_pda,
                f.spot_market_1_pda,
            ]
            &&& r@.instructions[0].accounts[2].is_signer
            &&& tag(r@) == D_CANCEL_ORDER@
            &&& !(true) ==> r@.instructions[0].data[8] == 0 && r@.instructions[0].data.len() == 9
            &&& true
                    ==> r@.instructions[0].data[8] == 1 && number(r@, 9, 4) == id
                    && r@.instructions[0].data.len() == 13
        }),
{
    let user = f.users@[user_idx as int];
    let id = if use_real_id == 1 && picked_id is Some { picked_id->0 } else { blind_id };
    let i = r@.instructions[0];
    reveal_with_fuel(written, 10);
    reveal_with_fuel(consulted, 10);
    widths();
    le_len(id as int, 4);
    if true {
        assert(i.data =~= D_CANCEL_ORDER@ + seq![1u8] + le(id as int, 4));
        spelled(D_CANCEL_ORDER@ + seq![1u8], id as int, 4, Seq::<u8>::empty());
        assert(i.data =~= D_CANCEL_ORDER@ + seq![1u8] + le(id as int, 4) + Seq::<u8>::empty());
    } else {
        assert(i.data =~= D_CANCEL_ORDER@ + seq![0u8]);
    }
    assert(i.data.take(8) =~= D_CANCEL_ORDER@);
}

/// A cancel by the user's own number names that number.
pub proof fn cancels_name_the_users_number(
    f: &Fixture,
    user_idx: usize,
    user_order_id: u8,
    r: Transaction,
)
    requires
        call_ensures(Fixture::action_cancel_order_by_user_id, (f, user_idx, user_order_id), r),
        f.wf(),
        user_idx < 2,
    ensures
        ({
            let user = f.users@[user_idx as int];
            &&& sent_by(r@, f.program_id, user.authority())
            &&& writes(r@) == seq![
                user.user_pda,
                f.perp_oracle_pda,
                f.spot_1_oracle_pda,
                f.perp_market_pda,
            ]
            &&& reads(r@) == seq![
                f.state_pda,
                user.authority(),
                f.spot_market_pda,
                f.spot_market_1_pda,
            ]
            &&& r@.instructions[0].accounts[2].is_signer
            &&& tag(r@) == D_CANCEL_ORDER_BY_USER_ID@
            &&& r@.instructions[0].data[8] == user_order_id
            &&& r@.instructions[0].data.len() == 9
        }),
{
    let user = f.users@[user_idx as int];
    let i = r@.instructions[0];
    reveal_with_fuel(written, 10);
    reveal_with_fuel(consulted, 10);
    widths();
    assert(i.data =~= D_CANCEL_ORDER_BY_USER_ID@ + seq![user_order_id]);
    assert(i.data.take(8) =~= D_CANCEL_ORDER_BY_USER_ID@);
}

/// A run of orders is cancelled by its length and its numbers, one after another from
/// the first; they stop at the largest number.
pub proof fn runs_of_orders_are_cancelled(
    f: &Fixture,
    user_idx: usize,
    n: u32,
    first_id: u32,
    r: Transaction,
)
    requires
        call_ensures(Fixture::action_cancel_orders_by_ids, (f, user_idx, n, first_id), r),
        f.wf(),
        user_idx < 2,
    ensures
        ({
            let user = f.users@[user_idx as int];
            &&& sent_by(r@, f.program_id, user.authority())
            &&& writes(r@) == seq![
                user.user_pda,
                f.perp_oracle_pda,
                f.spot_1_oracle_pda,
                f.perp_market_pda,
            ]
            &&& reads(r@) == seq![
                f.state_pda,
                user.authority(),
                f.spot_market_pda,
                f.spot_market_1_pda,
            ]
            &&& r@.instructions[0].accounts[2].is_signer
            &&& tag(r@) == D_CANCEL_ORDERS_BY_IDS@
            &&& number(r@, 8, 4) == n
            &&& r@.instructions[0].data.len() == 12 + 4 * n
            &&& forall|k: int| 0 <= k < n && first_id + k <= u32::MAX
                    ==> #[trigger] number(r@, 12 + 4 * k, 4) == first_id + k
            &&& forall|k: int| 0 <= k < n && first_id + k > u32::MAX
                    ==> #[trigger] number(r@, 12 + 4 * k, 4) == u32::MAX
        }),
{
    let user = f.users@[user_idx as int];
    let i = r@.instructions[0];
    reveal_with_fuel(written, 10);
    reveal_with_fuel(consulted, 10);
    widths();
    spelled(D_CANCEL_ORDERS_BY_IDS@, n as int, 4, id_list(first_id, n as nat));
    assert(i.data =~= D_CANCEL_ORDERS_BY_IDS@ + le(n as int, 4) + id_list(first_id, n as nat));
    ids_are_spelled(first_id, n as nat);
    assert forall|k: int| 0 <= k < n implies #[trigger] number(r@, 12 + 4 * k, 4)
        == (if first_id + k > u32::MAX { u32::MAX as int } else { first_id + k }) by {
        assert(i.data.subrange(12 + 4 * k, 12 + 4 * k
            + 4) =~= id_list(first_id, n as nat).subrange(4 * k, 4 * k + 4));
    }
    assert(i.data.take(8) =~= D_CANCEL_ORDERS_BY_IDS@);
}

// ---------------------------------------------------------------------------
// Fills
// ---------------------------------------------------------------------------

/// A taker's order is filled by the user after the one that is named, which signs and
/// is rewarded; the taker's account and stats are written. The order is named where
/// that is asked for and there is one, and no other maker takes part.
pub proof fn fills_without_a_maker(
    f: &Fixture,
    taker_idx: usize,
    filler_idx: usize,
    with_order_id: u8,
    order_id: Option<u32>,
    with_maker: u8,
    r: Transaction,
)
    requires
        call_ensures(
            Fixture::action_fill_perp_order,
            (f, taker_idx, filler_idx, with_order_id, order_id, with_maker),
            r,
        ),
        f.wf(),
        taker_idx < 2,
        filler_idx < 2,
        with_maker != 1,
    ensures
        ({
            let taker = f.users@[taker_idx as int];
            let filler = f.users@[1 - filler_idx];
            &&& sent_by(r@, f.program_id, filler.authority())
            &&& writes(r@) == seq![
                filler.user_pda,
                filler.stats_pda,
                taker.user_pda,
                taker.stats_pda,
                f.perp_oracle_pda,
                f.spot_1_oracle_pda,
                f.perp_market_pda,
            ]
            &&& reads(r@) == seq![
                f.state_pda,
                filler.authority(),
                f.spot_market_pda,
                f.spot_market_1_pda,
            ]
            &&& r@.instructions[0].accounts[1].is_signer
            &&& tag(r@) == D_FILL_PERP_ORDER@
            &&& with_order_id == 1 && order_id is Some
                    ==> r@.instructions[0].data[8] == 1 && number(r@, 9, 4) == order_id->0
                    && r@.instructions[0].data[13] == 0 && r@.instructions[0].data.len() == 14
            &&& with_order_id != 1 || order_id is None ==> r@.instructions[0].data.skip(8) == seq![
                0u8,
                0u8,
            ]
        }),
{
    let taker = f.users@[taker_idx as int];
    let filler = f.users@[1 - filler_idx];
    let i = r@.instructions[0];
    reveal_with_fuel(written, 13);
    reveal_with_fuel(consulted, 13);
    widths();
    let id = order_id->0 as int;
    if with_order_id == 1 && order_id is Some {
        spelled(D_FILL_PERP_ORDER@ + seq![1u8], id, 4, seq![0u8]);
        assert(i.data =~= D_FILL_PERP_ORDER@ + seq![1u8] + le(id, 4) + seq![0u8]);
    } else {
        assert(i.data.skip(8) =~= seq![0u8, 0u8]);
    }
    assert(i.data.take(8) =~= D_FILL_PERP_ORDER@);
}

/// With choice one the user after the taker takes part as its maker, last of all.
pub proof fn fills_with_a_maker(
    f: &Fixture,
    taker_idx: usize,
    filler_idx: usize,
    with_order_id: u8,
    order_id: Option<u32>,
    with_maker: u8,
    r: Transaction,
)
    requires
        call_ensures(
            Fixture::action_fill_perp_order,
            (f, taker_idx, filler_idx, with_order_id, order_id, with_maker),
            r,
        ),
        f.wf(),
        taker_idx < 2,
        filler_idx < 2,
        with_maker == 1,
    ensures
        ({
            let taker = f.users@[taker_idx as int];
            let filler = f.users@[1 - filler_idx];
            let maker = f.users@[1 - taker_idx];
            &&& sent_by(r@, f.program_id, filler.authority())
            &&& writes(r@) == seq![
                filler.user_pda,
                filler.stats_pda,
                taker.user_pda,
                taker.stats_pda,
                f.perp_oracle_pda,
                f.spot_1_oracle_pda,
                f.perp_market_pda,
                maker.user_pda,
                maker.stats_pda,
            ]
            &&& reads(r@) == seq![
                f.state_pda,
                filler.authority(),
                f.spot_market_pda,
                f.spot_market_1_pda,
            ]
            &&& r@.instructions[0].accounts[1].is_signer
            &&& tag(r@) == D_FILL_PERP_ORDER@
            &&& with_order_id == 1 && order_id is Some
                    ==> r@.instructions[0].data[8] == 1 && number(r@, 9, 4) == order_id->0
                    && r@.instructions[0].data[13] == 0 && r@.instructions[0].data.len() == 14
            &&& with_order_id != 1 || order_id is None ==> r@.instructions[0].data.skip(8) == seq![
                0u8,
                0u8,
            ]
        }),
{
    let taker = f.users@[taker_idx as int];
    let filler = f.users@[1 - filler_idx];
    let maker = f.users@[1 - taker_idx];
    let i = r@.instructions[0];
    reveal_with_fuel(written, 15);
    reveal_with_fuel(consulted, 15);
    widths();
    let id = order_id->0 as int;
    if with_order_id == 1 && order_id is Some {
        spelled(D_FILL_PERP_ORDER@ + seq![1u8], id, 4, seq![0u8]);
        assert(i.data =~= D_FILL_PERP_ORDER@ + seq![1u8] + le(id, 4) + seq![0u8]);
    } else {
        assert(i.data.skip(8) =~= seq![0u8, 0u8]);
    }
    assert(i.data.take(8) =~= D_FILL_PERP_ORDER@);
}

/// A take is the user's own: its account and stats are written. What is sent is the
/// order as it was encoded, then the condition of success where one is asked for.
pub proof fn takes_touch_their_user(
    f: &Fixture,
    user_idx: usize,
    order_wire: Vec<u8>,
    with_success_condition: u8,
    success_condition: u8,
    r: Transaction,
)
    requires
        call_ensures(
            Fixture::send_place_and_take,
            (f, user_idx, order_wire, with_success_condition, success_condition),
            r,
        ),
        f.wf(),
        user_idx < 2,
    ensures
        ({
            let user = f.users@[user_idx as int];
            &&& sent_by(r@, f.program_id, user.authority())
            &&& writes(r@) == seq![
                user.user_pda,
                user.stats_pda,
                f.perp_oracle_pda,
                f.spot_1_oracle_pda,
                f.perp_market_pda,
            ]
            &&& reads(r@) == seq![
                f.state_pda,
                user.authority(),
                f.spot_market_pda,
                f.spot_market_1_pda,
            ]
            &&& r@.instructions[0].accounts[3].is_signer
            &&& tag(r@) == D_PLACE_AND_TAKE_PERP_ORDER@
            &&& with_success_condition == 1 ==> r@.instructions[0].data.skip(8) == order_wire@ + seq![
                1u8,
                success_condition,
            ]
            &&& with_success_condition != 1 ==> r@.instructions[0].data.skip(8) == order_wire@ + seq![
                0u8,
            ]
        }),
{
    let user = f.users@[user_idx as int];
    let i = r@.instructions[0];
    reveal_with_fuel(written, 11);
    reveal_with_fuel(consulted, 11);
    if with_success_condition == 1 {
        assert(i.data.skip(8) =~= order_wire@ + seq![1u8, success_condition]);
    } else {
        assert(i.data.skip(8) =~= order_wire@ + seq![0u8]);
    }
    assert(i.data.take(8) =~= D_PLACE_AND_TAKE_PERP_ORDER@);
}

/// A make is the maker's, who signs; its account and stats come before the taker's,
/// and all four are written. The taker's order is named after the maker's.
pub proof fn makes_touch_maker_and_taker(
    f: &Fixture,
    maker_idx: usize,
    taker: TakerOrder,
    order_wire: Vec<u8>,
    r: Transaction,
)
    requires
        call_ensures(Fixture::send_place_and_make, (f, maker_idx, taker, order_wire), r),
        f.wf(),
        maker_idx < 2,
        taker.taker_idx < 2,
    ensures
        ({
            let m = f.users@[maker_idx as int];
            let t = f.users@[taker.taker_idx as int];
            &&& sent_by(r@, f.program_id, m.authority())
            &&& writes(r@) == seq![
                m.user_pda,
                m.stats_pda,
                t.user_pda,
                t.stats_pda,
                f.perp_oracle_pda,
                f.spot_1_oracle_pda,
                f.perp_market_pda,
            ]
            &&& reads(r@) == seq![
                f.state_pda,
                m.authority(),
                f.spot_market_pda,
                f.spot_market_1_pda,
            ]
            &&& r@.instructions[0].accounts[5].is_signer
            &&& tag(r@) == D_PLACE_AND_MAKE_PERP_ORDER@
            &&& r@.instructions[0].data.len() == order_wire@.len() + 12
            &&& r@.instructions[0].data.subrange(8, 8 + order_wire@.len() as int) == order_wire@
            &&& number(r@, 8 + order_wire@.len() as int, 4) == taker.order_id
        }),
{
    let m = f.users@[maker_idx as int];
    let t = f.users@[taker.taker_idx as int];
    let i = r@.instructions[0];
    reveal_with_fuel(written, 13);
    reveal_with_fuel(consulted, 13);
    widths();
    spelled(
        D_PLACE_AND_MAKE_PERP_ORDER@ + order_wire@,
        taker.order_id as int,
        4,
        Seq::<u8>::empty(),
    );
    assert(i.data =~= D_PLACE_AND_MAKE_PERP_ORDER@ + order_wire@
        + le(taker.order_id as int, 4) + Seq::<u8>::empty());
    assert(i.data.subrange(8, 8 + order_wire@.len() as int) =~= order_wire@);
    assert(i.data.take(8) =~= D_PLACE_AND_MAKE_PERP_ORDER@);
}

/// A user's trigger order is fired by the user after the filler that is named, which
/// signs and is rewarded; the owner's stats are only read. There is nothing to fire
/// where none was picked.
pub proof fn triggers_are_fired_by_another(
    f: &Fixture,
    user_idx: usize,
    filler_idx: usize,
    picked_id: Option<u32>,
    r: Option<Transaction>,
)
    requires
        call_ensures(Fixture::action_trigger_order, (f, user_idx, filler_idx, picked_id), r),
        f.wf(),
        user_idx < 2,
        filler_idx < 2,
    ensures
        r is Some <==> picked_id is Some,
        r matches Some(t) ==> {
            let user = f.users@[user_idx as int];
            let filler = f.users@[1 - filler_idx];
            &&& sent_by(t@, f.program_id, filler.authority())
            &&& writes(t@) == seq![
                filler.user_pda,
                user.user_pda,
                f.perp_oracle_pda,
                f.spot_1_oracle_pda,
                f.perp_market_pda,
            ]
            &&& reads(t@) == seq![
                f.state_pda,
                filler.authority(),
                user.stats_pda,
                f.spot_market_pda,
                f.spot_market_1_pda,
            ]
            &&& t@.instructions[0].accounts[1].is_signer
            &&& tag(t@) == D_TRIGGER_ORDER@
            &&& number(t@, 8, 4) == picked_id->0
            &&& t@.instructions[0].data.len() == 12
        },
{
    if let Some(t) = r {
        let user = f.users@[user_idx as int];
        let filler = f.users@[1 - filler_idx];
        let i = t@.instructions[0];
        reveal_with_fuel(written, 12);
        reveal_with_fuel(consulted, 12);
        widths();
        spelled(D_TRIGGER_ORDER@, picked_id->0 as int, 4, Seq::<u8>::empty());
        assert(i.data =~= D_TRIGGER_ORDER@ + le(picked_id->0 as int, 4) + Seq::<u8>::empty());
        assert(i.data.take(8) =~= D_TRIGGER_ORDER@);
    }
}

/// A filler reverts its own reward, out of its own account and stats, and no market
/// is touched.
pub proof fn fillers_give_back_their_own_reward(f: &Fixture, filler_idx: usize, r: Transaction)
    requires
        call_ensures(Fixture::action_revert_fill, (f, filler_idx), r),
        f.wf(),
        filler_idx < 2,
    ensures
        ({
            let filler = f.users@[filler_idx as int];
            &&& sent_by(r@, f.program_id, filler.authority())
            &&& writes(r@) == seq![filler.user_pda, filler.stats_pda]
            &&& reads(r@) == seq![f.state_pda, filler.authority()]
            &&& r@.instructions[0].accounts[1].is_signer
            &&& tag(r@) == D_REVERT_FILL@
            &&& r@.instructions[0].data.len() == 8
        }),
{
    let filler = f.users@[filler_idx as int];
    let i = r@.instructions[0];
    reveal_with_fuel(written, 6);
    reveal_with_fuel(consulted, 6);
    widths();
    assert(i.data.take(8) =~= D_REVERT_FILL@);
}

// ---------------------------------------------------------------------------
// Settlement and funding
// ---------------------------------------------------------------------------

/// A user settles its profit and loss in perp market 0; the vault is only read.
pub proof fn settlements_are_for_perp_market_zero(f: &Fixture, user_idx: usize, r: Transaction)
    requires
        call_ensures(Fixture::action_settle_pnl, (f, user_idx), r),
        f.wf(),
        user_idx < 2,
    ensures
        ({
            let user = f.users@[user_idx as int];
            &&& sent_by(r@, f.program_id, user.authority())
            &&& writes(r@) == seq![
                user.user_pda,
                f.perp_oracle_pda,
                f.spot_1_oracle_pda,
                f.spot_market_pda,
                f.spot_market_1_pda,
                f.perp_market_pda,
            ]
            &&& reads(r@) == seq![f.state_pda, user.authority(), f.spot_vault_pda]
            &&& r@.instructions[0].accounts[2].is_signer
            &&& tag(r@) == D_SETTLE_PNL@
            &&& number(r@, 8, 2) == 0
            &&& r@.instructions[0].data.len() == 10
        }),
{
    let user = f.users@[user_idx as int];
    let i = r@.instructions[0];
    reveal_with_fuel(written, 11);
    reveal_with_fuel(consulted, 11);
    widths();
    spelled(D_SETTLE_PNL@, 0, 2, Seq::<u8>::empty());
    assert(i.data =~= D_SETTLE_PNL@ + le(0, 2) + Seq::<u8>::empty());
    assert(i.data.take(8) =~= D_SETTLE_PNL@);
}

/// A user settles in as many markets as were asked for, from the first on, in the
/// mode that was asked for.
pub proof fn settlements_cover_the_first_markets(
    f: &Fixture,
    user_idx: usize,
    n: u32,
    mode: u8,
    r: Transaction,
)
    requires
        call_ensures(Fixture::action_settle_multiple_pnls, (f, user_idx, n, mode), r),
        f.wf(),
        user_idx < 2,
    ensures
        ({
            let user = f.users@[user_idx as int];
            &&& sent_by(r@, f.program_id, user.authority())
            &&& writes(r@) == seq![
                user.user_pda,
                f.perp_oracle_pda,
                f.spot_1_oracle_pda,
                f.spot_market_pda,
                f.spot_market_1_pda,
                f.perp_market_pda,
            ]
            &&& reads(r@) == seq![f.state_pda, user.authority(), f.spot_vault_pda]
            &&& r@.instructions[0].accounts[2].is_signer
            &&& tag(r@) == D_SETTLE_MULTIPLE_PNLS@
            &&& number(r@, 8, 4) == n
            &&& r@.instructions[0].data.len() == 13 + 2 * n
            &&& forall|k: int| 0 <= k < n ==> #[trigger] number(r@, 12 + 2 * k, 2) == k % 65536
            &&& r@.instructions[0].data.last() == (if mode == 0 { 0u8 } else { 1u8 })
        }),
{
    let user = f.users@[user_idx as int];
    let i = r@.instructions[0];
    reveal_with_fuel(written, 11);
    reveal_with_fuel(consulted, 11);
    widths();
    indices_are_spelled(n as nat);
    let list = index_list(n as nat);
    let m = seq![clip(mode)];
    spelled(D_SETTLE_MULTIPLE_PNLS@, n as int, 4, list + m);
    assert(i.data =~= D_SETTLE_MULTIPLE_PNLS@ + le(n as int, 4) + (list + m));
    assert forall|k: int| 0 <= k < n implies #[trigger] number(r@, 12 + 2 * k, 2) == k % 65536 by {
        assert(i.data.subrange(12 + 2 * k, 12 + 2 * k + 2) =~= list.subrange(2 * k, 2 * k + 2));
    }
    assert(i.data.take(8) =~= D_SETTLE_MULTIPLE_PNLS@);
}

/// A keeper refreshes the curves of as many markets as were asked for, from the first
/// on, and signs for it.
pub proof fn curves_of_the_first_markets_are_refreshed(
    f: &Fixture,
    keeper_idx: usize,
    n: u32,
    r: Transaction,
)
    requires
        call_ensures(Fixture::action_update_amms, (f, keeper_idx, n), r),
        f.wf(),
        keeper_idx < 2,
    ensures
        ({
            let keeper = f.users@[keeper_idx as int];
            &&& sent_by(r@, f.program_id, keeper.authority())
            &&& writes(r@) == seq![f.perp_oracle_pda, f.spot_1_oracle_pda, f.perp_market_pda]
            &&& reads(r@) == seq![
                f.state_pda,
                keeper.authority(),
                f.spot_market_pda,
                f.spot_market_1_pda,
            ]
            &&& r@.instructions[0].accounts[1].is_signer
            &&& tag(r@) == D_UPDATE_AMMS@
            &&& number(r@, 8, 4) == n
            &&& r@.instructions[0].data.len() == 12 + 2 * n
            &&& forall|k: int| 0 <= k < n ==> #[trigger] number(r@, 12 + 2 * k, 2) == k % 65536
        }),
{
    let keeper = f.users@[keeper_idx as int];
    let i = r@.instructions[0];
    reveal_with_fuel(written, 9);
    reveal_with_fuel(consulted, 9);
    widths();
    indices_are_spelled(n as nat);
    let list = index_list(n as nat);
    spelled(D_UPDATE_AMMS@, n as int, 4, list);
    assert(i.data =~= D_UPDATE_AMMS@ + le(n as int, 4) + list);
    assert forall|k: int| 0 <= k < n implies #[trigger] number(r@, 12 + 2 * k, 2) == k % 65536 by {
        assert(i.data.subrange(12 + 2 * k, 12 + 2 * k + 2) =~= list.subrange(2 * k, 2 * k + 2));
    }
    assert(i.data.take(8) =~= D_UPDATE_AMMS@);
}

/// Anyone may have a user's funding settled: the crank pays, the user does not sign,
/// and no spot market is written.
pub proof fn anyone_may_settle_funding(f: &Fixture, user_idx: usize, r: Transaction)
    requires
        call_ensures(Fixture::action_settle_funding_payment, (f, user_idx), r),
        f.wf(),
        user_idx < 2,
    ensures
        ({
            let user = f.users@[user_idx as int];
            &&& sent_by(r@, f.program_id, addr(f.crank))
            &&& writes(r@) == seq![
                user.user_pda,
                f.perp_oracle_pda,
                f.spot_1_oracle_pda,
                f.perp_market_pda,
            ]
            &&& reads(r@) == seq![f.state_pda, f.spot_market_pda, f.spot_market_1_pda]
            &&& nobody_need_sign(r@)
            &&& tag(r@) == D_SETTLE_FUNDING_PAYMENT@
            &&& r@.instructions[0].data.len() == 8
        }),
{
    let user = f.users@[user_idx as int];
    let i = r@.instructions[0];
    reveal_with_fuel(written, 9);
    reveal_with_fuel(consulted, 9);
    widths();
    assert(i.data.take(8) =~= D_SETTLE_FUNDING_PAYMENT@);
}

/// Anyone may have the funding rate of a market updated: the crank pays, the market
/// is written, and its oracle is only read.
pub proof fn anyone_may_update_funding(f: &Fixture, market_index: u16, r: Transaction)
    requires
        call_ensures(Fixture::action_update_funding_rate, (f, market_index), r),
    ensures
        ({
            &&& sent_by(r@, f.program_id, addr(f.crank))
            &&& writes(r@) == seq![f.perp_market_pda]
            &&& reads(r@) == seq![f.state_pda, f.perp_oracle_pda]
            &&& nobody_need_sign(r@)
            &&& tag(r@) == D_UPDATE_FUNDING_RATE@
            &&& number(r@, 8, 2) == market_index
            &&& r@.instructions[0].data.len() == 10
        }),
{
    let i = r@.instructions[0];
    reveal_with_fuel(written, 5);
    reveal_with_fuel(consulted, 5);
    widths();
    spelled(D_UPDATE_FUNDING_RATE@, market_index as int, 2, Seq::<u8>::empty());
    assert(i.data =~= D_UPDATE_FUNDING_RATE@ + le(market_index as int, 2) + Seq::<u8>::empty());
    assert(i.data.take(8) =~= D_UPDATE_FUNDING_RATE@);
}

/// A keeper feeds the averages of the perp market: it signs, and its stats are only
/// read.
pub proof fn keepers_feed_the_averages(f: &Fixture, keeper_idx: usize, r: Transaction)
    requires
        call_ensures(Fixture::action_update_perp_bid_ask_twap, (f, keeper_idx), r),
        f.wf(),
        keeper_idx < 2,
    ensures
        ({
            let keeper = f.users@[keeper_idx as int];
            &&& sent_by(r@, f.program_id, keeper.authority())
            &&& writes(r@) == seq![f.perp_market_pda]
            &&& reads(r@) == seq![
                f.state_pda,
                f.perp_oracle_pda,
                keeper.stats_pda,
                keeper.authority(),
            ]
            &&& r@.instructions[0].accounts[4].is_signer
            &&& tag(r@) == D_UPDATE_PERP_BID_ASK_TWAP@
            &&& r@.instructions[0].data.len() == 8
        }),
{
    let keeper = f.users@[keeper_idx as int];
    let i = r@.instructions[0];
    reveal_with_fuel(written, 7);
    reveal_with_fuel(consulted, 7);
    widths();
    assert(i.data.take(8) =~= D_UPDATE_PERP_BID_ASK_TWAP@);
}

// ---------------------------------------------------------------------------
// Oracles
// ---------------------------------------------------------------------------

/// The crank adjusts the AMM's spread by the low byte of the amount, behind four
/// bytes that no tag begins with.
pub proof fn spreads_are_adjusted_by_a_byte(f: &Fixture, adj: i32, r: Transaction)
    requires
        call_ensures(Fixture::action_native_spread_adjust, (f, adj), r),
    ensures
        ({
            &&& sent_by(r@, f.program_id, addr(f.crank))
            &&& writes(r@) == seq![f.perp_market_pda]
            &&& reads(r@) == seq![addr(f.crank), f.state_pda]
            &&& r@.instructions[0].accounts[1].is_signer
            &&& r@.instructions[0].data == seq![
                255u8,
                255u8,
                255u8,
                255u8,
                1u8,
                (adj as int % 256) as u8,
            ]
        }),
{
    let i = r@.instructions[0];
    reveal_with_fuel(written, 5);
    reveal_with_fuel(consulted, 5);
    assert(i.data =~= seq![255u8, 255u8, 255u8, 255u8, 1u8, (adj as int % 256) as u8]);
}

/// Anyone may have the interest of spot market 1 accrued: the crank pays, and the
/// oracle and the vault of that market are only read.
pub proof fn anyone_may_accrue_interest_of_market_one(f: &Fixture, r: Transaction)
    requires
        call_ensures(Fixture::crank_interest_1, (f,), r),
    ensures
        ({
            &&& sent_by(r@, f.program_id, addr(f.crank))
            &&& writes(r@) == seq![f.spot_market_1_pda]
            &&& reads(r@) == seq![f.state_pda, f.spot_1_oracle_pda, f.spot_vault_1_pda]
            &&& nobody_need_sign(r@)
            &&& tag(r@) == D_UPDATE_SPOT_MARKET_CUMULATIVE_INTEREST@
            &&& r@.instructions[0].data.len() == 8
        }),
{
    let i = r@.instructions[0];
    reveal_with_fuel(written, 6);
    reveal_with_fuel(consulted, 6);
    widths();
    assert(i.data.take(8) =~= D_UPDATE_SPOT_MARKET_CUMULATIVE_INTEREST@);
}

// ---------------------------------------------------------------------------
// Lists of numbers
// ---------------------------------------------------------------------------

proof fn ids_are_spelled(first: u32, n: nat)
    ensures
        id_list(first, n).len() == 4 * n,
        forall|k: int|
            0 <= k < n ==> le_value(#[trigger] id_list(first, n).subrange(4 * k, 4 * k + 4)) == (
            if first + k > u32::MAX {
                u32::MAX as int
            } else {
                first + k
            }),
    decreases n,
{
    if n > 0 {
        let m = (n - 1) as nat;
        ids_are_spelled(first, m);
        widths();
        let id = if first + m > u32::MAX {
            u32::MAX as int
        } else {
            first + m
        };
        let list = id_list(first, m);
        spelled(list, id, 4, Seq::<u8>::empty());
        assert(id_list(first, n) =~= list + le(id, 4) + Seq::<u8>::empty());
        assert forall|k: int| 0 <= k < n implies le_value(
            #[trigger] id_list(first, n).subrange(4 * k, 4 * k + 4),
        ) == (if first + k > u32::MAX {
            u32::MAX as int
        } else {
            first + k
        }) by {
            if k < m {
                assert(id_list(first, n).subrange(4 * k, 4 * k + 4) =~= list.subrange(
                    4 * k,
                    4 * k + 4,
                ));
            }
        }
    }
}

proof fn indices_are_spelled(n: nat)
    ensures
        index_list(n).len() == 2 * n,
        forall|k: int|
            0 <= k < n ==> le_value(#[trigger] index_list(n).subrange(2 * k, 2 * k + 2)) == k
                % 65536,
    decreases n,
{
    if n > 0 {
        let m = (n - 1) as nat;
        indices_are_spelled(m);
        widths();
        let list = index_list(m);
        let index = m as int % 65536;
        spelled(list, index, 2, Seq::<u8>::empty());
        assert(index_list(n) =~= list + le(index, 2) + Seq::<u8>::empty());
        assert forall|k: int| 0 <= k < n implies le_value(
            #[trigger] index_list(n).subrange(2 * k, 2 * k + 2),
        ) == k % 65536 by {
            if k < m {
                assert(index_list(n).subrange(2 * k, 2 * k + 2) =~= list.subrange(
                    2 * k,
                    2 * k + 2,
                ));
            }
        }
    }
}

} // verus!
