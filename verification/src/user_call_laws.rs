//! What the calls on a user's own accounts may change, and who makes them.

use vstd::prelude::*;
use crate::call_laws::{
    complement, consulted, number, reads, sent_by, spelled, tag, widths, writes, written,
};
use crate::discriminators::{
    D_DELETE_USER, D_FORCE_CANCEL_ORDERS, D_FORCE_DELETE_USER, D_INITIALIZE_REFERRER_NAME,
    D_LOG_USER_BALANCES, D_PAUSE_SPOT_MARKET_DEPOSIT_WITHDRAW, D_RECLAIM_RENT,
    D_SPECIAL_TRANSFER_PERP_TO_VAMM, D_TRANSFER_DEPOSIT, D_TRANSFER_DEPOSIT_BY_DELEGATE,
    D_TRANSFER_PERP_POSITION, D_TRIP_EQUITY_FLOOR_BREAKER, D_UPDATE_AMM_CACHE,
    D_UPDATE_USER_ALLOW_DELEGATE_TRANSFER, D_UPDATE_USER_CUSTOM_MARGIN_RATIO,
    D_UPDATE_USER_DELEGATE, D_UPDATE_USER_EQUITY_FLOOR, D_UPDATE_USER_IDLE,
    D_UPDATE_USER_MARGIN_TRADING_ENABLED, D_UPDATE_USER_NAME,
    D_UPDATE_USER_PERP_POSITION_CUSTOM_MARGIN_RATIO, D_UPDATE_USER_POOL_ID,
    D_UPDATE_USER_REDUCE_ONLY, D_UPDATE_USER_STATS_REFERRER_STATUS,
};
use crate::fixture::{addr, pda_key, Fixture};
use crate::user_actions::{referrer_name, signed};
use crate::keys::{rent_sysvar_id, system_program_id, text, Pubkey, Transaction};
use crate::wire::{flag, le, le_signed, opt};

verus! {

// ---------------------------------------------------------------------------
// Settings
// ---------------------------------------------------------------------------

/// A user sets the margin ratio of its own main account.
pub proof fn margin_ratios_are_set_by_their_user(
    f: &Fixture,
    user_idx: usize,
    margin_ratio: u32,
    r: Transaction,
)
    requires
        call_ensures(
            Fixture::action_update_user_custom_margin_ratio,
            (f, user_idx, margin_ratio),
            r,
        ),
        f.wf(),
        user_idx < 2,
    ensures
        ({
            let user = f.users@[user_idx as int];
            &&& sent_by(r@, f.program_id, user.authority())
            &&& writes(r@) == seq![
                user.user_pda,
                f.perp_oracle_pda,
                f.spot_1_oracle_pda,
                f.perp_market_pda,
            ]
            &&& reads(r@) == seq![user.authority(), f.spot_market_pda, f.spot_market_1_pda]
            &&& r@.instructions[0].accounts[1].is_signer
            &&& tag(r@) == D_UPDATE_USER_CUSTOM_MARGIN_RATIO@
            &&& number(r@, 8, 2) == 0
            &&& number(r@, 10, 4) == margin_ratio
            &&& r@.instructions[0].data.len() == 14
        }),
{
    let user = f.users@[user_idx as int];
    let i = r@.instructions[0];
    reveal_with_fuel(written, 9);
    reveal_with_fuel(consulted, 9);
    widths();
    spelled(D_UPDATE_USER_CUSTOM_MARGIN_RATIO@, 0, 2, le(margin_ratio as int, 4));
    spelled(
        D_UPDATE_USER_CUSTOM_MARGIN_RATIO@ + le(0, 2),
        margin_ratio as int,
        4,
        Seq::<u8>::empty(),
    );
    assert(i.data =~= D_UPDATE_USER_CUSTOM_MARGIN_RATIO@ + le(0, 2) + (le(margin_ratio as int, 4)));
    assert(i.data =~= D_UPDATE_USER_CUSTOM_MARGIN_RATIO@ + le(0, 2)
        + le(margin_ratio as int, 4) + Seq::<u8>::empty());
    assert(i.data.take(8) =~= D_UPDATE_USER_CUSTOM_MARGIN_RATIO@);
}

/// A user turns margin trading of its main account on with choice one and off with
/// any other.
pub proof fn margin_trading_is_turned_on_and_off(
    f: &Fixture,
    user_idx: usize,
    enabled: u8,
    r: Transaction,
)
    requires
        call_ensures(Fixture::action_update_user_margin_trading_enabled, (f, user_idx, enabled), r),
        f.wf(),
        user_idx < 2,
    ensures
        ({
            let user = f.users@[user_idx as int];
            &&& sent_by(r@, f.program_id, user.authority())
            &&& writes(r@) == seq![
                user.user_pda,
                f.perp_oracle_pda,
                f.spot_1_oracle_pda,
                f.perp_market_pda,
            ]
            &&& reads(r@) == seq![user.authority(), f.spot_market_pda, f.spot_market_1_pda]
            &&& r@.instructions[0].accounts[1].is_signer
            &&& tag(r@) == D_UPDATE_USER_MARGIN_TRADING_ENABLED@
            &&& number(r@, 8, 2) == 0
            &&& r@.instructions[0].data[10] == (if enabled == 1 { 1u8 } else { 0u8 })
            &&& r@.instructions[0].data.len() == 11
        }),
{
    let user = f.users@[user_idx as int];
    let i = r@.instructions[0];
    reveal_with_fuel(written, 9);
    reveal_with_fuel(consulted, 9);
    widths();
    spelled(D_UPDATE_USER_MARGIN_TRADING_ENABLED@, 0, 2, seq![flag(enabled == 1)]);
    assert(i.data =~= D_UPDATE_USER_MARGIN_TRADING_ENABLED@ + le(0, 2) + (seq![flag(enabled
        == 1)]));
    assert(i.data =~= D_UPDATE_USER_MARGIN_TRADING_ENABLED@ + le(0, 2) + seq![flag(enabled == 1)]);
    assert(i.data.take(8) =~= D_UPDATE_USER_MARGIN_TRADING_ENABLED@);
}

/// A user holds its main account to reducing with choice one and frees it with any
/// other.
pub proof fn reduce_only_is_turned_on_and_off(
    f: &Fixture,
    user_idx: usize,
    reduce_only: u8,
    r: Transaction,
)
    requires
        call_ensures(Fixture::action_update_user_reduce_only, (f, user_idx, reduce_only), r),
        f.wf(),
        user_idx < 2,
    ensures
        ({
            let user = f.users@[user_idx as int];
            &&& sent_by(r@, f.program_id, user.authority())
            &&& writes(r@) == seq![
                user.user_pda,
                f.perp_oracle_pda,
                f.spot_1_oracle_pda,
                f.perp_market_pda,
            ]
            &&& reads(r@) == seq![user.authority(), f.spot_market_pda, f.spot_market_1_pda]
            &&& r@.instructions[0].accounts[1].is_signer
            &&& tag(r@) == D_UPDATE_USER_REDUCE_ONLY@
            &&& number(r@, 8, 2) == 0
            &&& r@.instructions[0].data[10] == (if reduce_only == 1 { 1u8 } else { 0u8 })
            &&& r@.instructions[0].data.len() == 11
        }),
{
    let user = f.users@[user_idx as int];
    let i = r@.instructions[0];
    reveal_with_fuel(written, 9);
    reveal_with_fuel(consulted, 9);
    widths();
    spelled(D_UPDATE_USER_REDUCE_ONLY@, 0, 2, seq![flag(reduce_only == 1)]);
    assert(i.data =~= D_UPDATE_USER_REDUCE_ONLY@ + le(0, 2) + (seq![flag(reduce_only == 1)]));
    assert(i.data =~= D_UPDATE_USER_REDUCE_ONLY@ + le(0, 2) + seq![flag(reduce_only == 1)]);
    assert(i.data.take(8) =~= D_UPDATE_USER_REDUCE_ONLY@);
}

/// A user moves its main account to the pool it names.
pub proof fn users_move_between_pools(f: &Fixture, user_idx: usize, pool_id: u8, r: Transaction)
    requires
        call_ensures(Fixture::action_update_user_pool_id, (f, user_idx, pool_id), r),
        f.wf(),
        user_idx < 2,
    ensures
        ({
            let user = f.users@[user_idx as int];
            &&& sent_by(r@, f.program_id, user.authority())
            &&& writes(r@) == seq![
                user.user_pda,
                f.perp_oracle_pda,
                f.spot_1_oracle_pda,
                f.perp_market_pda,
            ]
            &&& reads(r@) == seq![user.authority(), f.spot_market_pda, f.spot_market_1_pda]
            &&& r@.instructions[0].accounts[1].is_signer
            &&& tag(r@) == D_UPDATE_USER_POOL_ID@
            &&& number(r@, 8, 2) == 0
            &&& r@.instructions[0].data[10] == pool_id
            &&& r@.instructions[0].data.len() == 11
        }),
{
    let user = f.users@[user_idx as int];
    let i = r@.instructions[0];
    reveal_with_fuel(written, 9);
    reveal_with_fuel(consulted, 9);
    widths();
    spelled(D_UPDATE_USER_POOL_ID@, 0, 2, seq![pool_id]);
    assert(i.data =~= D_UPDATE_USER_POOL_ID@ + le(0, 2) + (seq![pool_id]));
    assert(i.data =~= D_UPDATE_USER_POOL_ID@ + le(0, 2) + seq![pool_id]);
    assert(i.data.take(8) =~= D_UPDATE_USER_POOL_ID@);
}

/// A user sets the margin ratio of one perp position of its main account: the
/// market's number, then the ratio.
pub proof fn positions_have_margin_ratios(
    f: &Fixture,
    user_idx: usize,
    perp_market_index: u16,
    margin_ratio: u16,
    r: Transaction,
)
    requires
        call_ensures(
            Fixture::action_update_user_perp_position_custom_margin_ratio,
            (f, user_idx, perp_market_index, margin_ratio),
            r,
        ),
        f.wf(),
        user_idx < 2,
    ensures
        ({
            let user = f.users@[user_idx as int];
            &&& sent_by(r@, f.program_id, user.authority())
            &&& writes(r@) == seq![
                user.user_pda,
                f.perp_oracle_pda,
                f.spot_1_oracle_pda,
                f.perp_market_pda,
            ]
            &&& reads(r@) == seq![user.authority(), f.spot_market_pda, f.spot_market_1_pda]
            &&& r@.instructions[0].accounts[1].is_signer
            &&& tag(r@) == D_UPDATE_USER_PERP_POSITION_CUSTOM_MARGIN_RATIO@
            &&& number(r@, 8, 2) == 0
            &&& number(r@, 10, 2) == perp_market_index
            &&& number(r@, 12, 2) == margin_ratio
            &&& r@.instructions[0].data.len() == 14
        }),
{
    let user = f.users@[user_idx as int];
    let i = r@.instructions[0];
    reveal_with_fuel(written, 9);
    reveal_with_fuel(consulted, 9);
    widths();
    spelled(
        D_UPDATE_USER_PERP_POSITION_CUSTOM_MARGIN_RATIO@,
        0,
        2,
        le(perp_market_index as int, 2) + le(margin_ratio as int, 2),
    );
    spelled(
        D_UPDATE_USER_PERP_POSITION_CUSTOM_MARGIN_RATIO@ + le(0, 2),
        perp_market_index as int,
        2,
        le(margin_ratio as int, 2),
    );
    spelled(
        D_UPDATE_USER_PERP_POSITION_CUSTOM_MARGIN_RATIO@ + le(0, 2)
            + le(perp_market_index as int, 2),
        margin_ratio as int,
        2,
        Seq::<u8>::empty(),
    );
    assert(i.data =~= D_UPDATE_USER_PERP_POSITION_CUSTOM_MARGIN_RATIO@ + le(0, 2)
        + (le(perp_market_index as int, 2) + le(margin_ratio as int, 2)));
    assert(i.data =~= D_UPDATE_USER_PERP_POSITION_CUSTOM_MARGIN_RATIO@ + le(0, 2)
        + le(perp_market_index as int, 2) + (le(margin_ratio as int, 2)));
    assert(i.data =~= D_UPDATE_USER_PERP_POSITION_CUSTOM_MARGIN_RATIO@ + le(0, 2)
        + le(perp_market_index as int, 2) + le(margin_ratio as int, 2) + Seq::<u8>::empty());
    assert(i.data.take(8) =~= D_UPDATE_USER_PERP_POSITION_CUSTOM_MARGIN_RATIO@);
}

/// A user moves one of its sub-accounts to a pool. The account that is written is the
/// one whose number leads the arguments: the main account is number zero.
pub proof fn sub_accounts_move_between_pools(
    f: &Fixture,
    user_idx: usize,
    sub_account_id: u16,
    pool_id: u8,
    r: Option<Transaction>,
)
    requires
        call_ensures(Fixture::sub_account_pool, (f, user_idx, sub_account_id, pool_id), r),
        f.wf(),
        user_idx < 2,
    ensures
        r matches Some(t) ==> {
            let user = f.users@[user_idx as int];
            let sub = pda_key(
                seq![text("user"), user.authority().bytes@, le(sub_account_id as int, 2)],
                f.program_id,
            );
            let target = if sub_account_id == 0 { user.user_pda } else { sub };
            &&& sent_by(t@, f.program_id, user.authority())
            &&& writes(t@) == seq![
                target,
                f.perp_oracle_pda,
                f.spot_1_oracle_pda,
                f.perp_market_pda,
            ]
            &&& reads(t@) == seq![user.authority(), f.spot_market_pda, f.spot_market_1_pda]
            &&& t@.instructions[0].accounts[1].is_signer
            &&& tag(t@) == D_UPDATE_USER_POOL_ID@
            &&& number(t@, 8, 2) == sub_account_id
            &&& t@.instructions[0].data[10] == pool_id
            &&& t@.instructions[0].data.len() == 11
        },
{
    if let Some(t) = r {
        let user = f.users@[user_idx as int];
        let sub = pda_key(
            seq![text("user"), user.authority().bytes@, le(sub_account_id as int, 2)],
            f.program_id,
        );
        let target = if sub_account_id == 0 { user.user_pda } else { sub };
        let i = t@.instructions[0];
        reveal_with_fuel(written, 9);
        reveal_with_fuel(consulted, 9);
        widths();
        spelled(D_UPDATE_USER_POOL_ID@, sub_account_id as int, 2, seq![pool_id]);
        assert(i.data =~= D_UPDATE_USER_POOL_ID@ + le(sub_account_id as int, 2) + (seq![pool_id]));
        assert(i.data =~= D_UPDATE_USER_POOL_ID@ + le(sub_account_id as int, 2) + seq![pool_id]);
        assert(i.data.take(8) =~= D_UPDATE_USER_POOL_ID@);
    }
}

/// A user delegates one of its sub-accounts to the other user, or with choice one to
/// nobody.
pub proof fn sub_accounts_have_delegates(
    f: &Fixture,
    user_idx: usize,
    clear: u8,
    sub_account_id: u16,
    r: Option<Transaction>,
)
    requires
        call_ensures(Fixture::action_update_user_delegate, (f, user_idx, clear, sub_account_id), r),
        f.wf(),
        user_idx < 2,
    ensures
        r matches Some(t) ==> {
            let user = f.users@[user_idx as int];
            let sub = pda_key(
                seq![text("user"), user.authority().bytes@, le(sub_account_id as int, 2)],
                f.program_id,
            );
            let target = if sub_account_id == 0 { user.user_pda } else { sub };
            let delegate = if clear == 1 {
                system_program_id()
            } else {
                f.users@[1 - user_idx].authority()
            };
            &&& sent_by(t@, f.program_id, user.authority())
            &&& writes(t@) == seq![
                target,
                f.perp_oracle_pda,
                f.spot_1_oracle_pda,
                f.perp_market_pda,
            ]
            &&& reads(t@) == seq![user.authority(), f.spot_market_pda, f.spot_market_1_pda]
            &&& t@.instructions[0].accounts[1].is_signer
            &&& tag(t@) == D_UPDATE_USER_DELEGATE@
            &&& number(t@, 8, 2) == sub_account_id
            &&& t@.instructions[0].data.subrange(10, 42) == delegate.bytes@
            &&& t@.instructions[0].data.len() == 42
        },
{
    if let Some(t) = r {
        let user = f.users@[user_idx as int];
        let sub = pda_key(
            seq![text("user"), user.authority().bytes@, le(sub_account_id as int, 2)],
            f.program_id,
        );
        let target = if sub_account_id == 0 { user.user_pda } else { sub };
        let delegate = if clear == 1 {
            system_program_id()
        } else {
            f.users@[1 - user_idx].authority()
        };
        let i = t@.instructions[0];
        reveal_with_fuel(written, 9);
        reveal_with_fuel(consulted, 9);
        widths();
        spelled(D_UPDATE_USER_DELEGATE@, sub_account_id as int, 2, delegate.bytes@);
        assert(i.data =~= D_UPDATE_USER_DELEGATE@ + le(sub_account_id as int, 2)
            + (delegate.bytes@));
        assert(i.data.subrange(10, 42) =~= delegate.bytes@);
        assert(i.data.take(8) =~= D_UPDATE_USER_DELEGATE@);
    }
}

/// Transfers by a delegate are allowed or forbidden by the user alone, on its stats.
pub proof fn delegation_is_a_matter_of_the_stats(
    f: &Fixture,
    user_idx: usize,
    allow: u8,
    r: Transaction,
)
    requires
        call_ensures(Fixture::action_update_user_allow_delegate_transfer, (f, user_idx, allow), r),
        f.wf(),
        user_idx < 2,
    ensures
        ({
            let user = f.users@[user_idx as int];
            &&& sent_by(r@, f.program_id, user.authority())
            &&& writes(r@) == seq![user.stats_pda]
            &&& reads(r@) == seq![user.authority()]
            &&& r@.instructions[0].accounts[1].is_signer
            &&& tag(r@) == D_UPDATE_USER_ALLOW_DELEGATE_TRANSFER@
            &&& r@.instructions[0].data[8] == (if allow == 1 { 1u8 } else { 0u8 })
            &&& r@.instructions[0].data.len() == 9
        }),
{
    let user = f.users@[user_idx as int];
    let i = r@.instructions[0];
    reveal_with_fuel(written, 4);
    reveal_with_fuel(consulted, 4);
    widths();
    assert(i.data =~= D_UPDATE_USER_ALLOW_DELEGATE_TRANSFER@ + seq![flag(allow == 1)]);
    assert(i.data.take(8) =~= D_UPDATE_USER_ALLOW_DELEGATE_TRANSFER@);
}

/// A user names its main account with thirty-two bytes, all of them the low byte of
/// the choice.
pub proof fn names_repeat_one_byte(f: &Fixture, user_idx: usize, byte: u16, r: Transaction)
    requires
        call_ensures(Fixture::action_update_user_name, (f, user_idx, byte), r),
        f.wf(),
        user_idx < 2,
    ensures
        ({
            let user = f.users@[user_idx as int];
            &&& sent_by(r@, f.program_id, user.authority())
            &&& writes(r@) == seq![
                user.user_pda,
                f.perp_oracle_pda,
                f.spot_1_oracle_pda,
                f.perp_market_pda,
            ]
            &&& reads(r@) == seq![user.authority(), f.spot_market_pda, f.spot_market_1_pda]
            &&& r@.instructions[0].accounts[1].is_signer
            &&& tag(r@) == D_UPDATE_USER_NAME@
            &&& r@.instructions[0].data.len() == 42
            &&& forall|k: int| 10 <= k < 42 ==> #[trigger] r@.instructions[0].data[k] == byte % 256
            &&& number(r@, 8, 2) == 0
        }),
{
    let user = f.users@[user_idx as int];
    let i = r@.instructions[0];
    reveal_with_fuel(written, 9);
    reveal_with_fuel(consulted, 9);
    widths();
    let name = Seq::new(32, |k: int| (byte % 256) as u8);
    spelled(D_UPDATE_USER_NAME@, 0, 2, name);
    assert(i.data =~= D_UPDATE_USER_NAME@ + le(0, 2) + name);
    assert(i.data.take(8) =~= D_UPDATE_USER_NAME@);
}

/// Every setting of a main account is made by its user, behind the number zero; the
/// spot markets are only read.
pub proof fn settings_are_made_by_their_user(
    f: &Fixture,
    user_idx: usize,
    disc: [u8; 8],
    value: &Vec<u8>,
    r: Transaction,
)
    requires
        call_ensures(Fixture::send_user_setter, (f, user_idx, disc, value), r),
        f.wf(),
        user_idx < 2,
    ensures
        ({
            let user = f.users@[user_idx as int];
            &&& sent_by(r@, f.program_id, user.authority())
            &&& writes(r@) == seq![
                user.user_pda,
                f.perp_oracle_pda,
                f.spot_1_oracle_pda,
                f.perp_market_pda,
            ]
            &&& reads(r@) == seq![user.authority(), f.spot_market_pda, f.spot_market_1_pda]
            &&& r@.instructions[0].accounts[1].is_signer
            &&& tag(r@) == disc@
            &&& number(r@, 8, 2) == 0
            &&& r@.instructions[0].data.skip(10) == value@
        }),
{
    let user = f.users@[user_idx as int];
    let i = r@.instructions[0];
    reveal_with_fuel(written, 9);
    reveal_with_fuel(consulted, 9);
    widths();
    spelled(disc@, 0, 2, value@);
    assert(i.data =~= disc@ + le(0, 2) + value@);
    assert(i.data.skip(10) =~= value@);
    assert(i.data.take(8) =~= disc@);
}

/// A setting of a sub-account writes that account, behind its number.
pub proof fn settings_name_their_sub_account(
    f: &Fixture,
    user_idx: usize,
    sub_account_id: u16,
    disc: [u8; 8],
    value: &Vec<u8>,
    r: Option<Transaction>,
)
    requires
        call_ensures(Fixture::send_user_setter_for, (f, user_idx, sub_account_id, disc, value), r),
        f.wf(),
        user_idx < 2,
    ensures
        r matches Some(t) ==> {
            let user = f.users@[user_idx as int];
            let sub = pda_key(
                seq![text("user"), user.authority().bytes@, le(sub_account_id as int, 2)],
                f.program_id,
            );
            let target = if sub_account_id == 0 { user.user_pda } else { sub };
            &&& sent_by(t@, f.program_id, user.authority())
            &&& writes(t@) == seq![
                target,
                f.perp_oracle_pda,
                f.spot_1_oracle_pda,
                f.perp_market_pda,
            ]
            &&& reads(t@) == seq![user.authority(), f.spot_market_pda, f.spot_market_1_pda]
            &&& t@.instructions[0].accounts[1].is_signer
            &&& tag(t@) == disc@
            &&& number(t@, 8, 2) == sub_account_id
            &&& t@.instructions[0].data.skip(10) == value@
        },
{
    if let Some(t) = r {
        let user = f.users@[user_idx as int];
        let sub = pda_key(
            seq![text("user"), user.authority().bytes@, le(sub_account_id as int, 2)],
            f.program_id,
        );
        let target = if sub_account_id == 0 { user.user_pda } else { sub };
        let i = t@.instructions[0];
        reveal_with_fuel(written, 9);
        reveal_with_fuel(consulted, 9);
        widths();
        spelled(disc@, sub_account_id as int, 2, value@);
        assert(i.data =~= disc@ + le(sub_account_id as int, 2) + value@);
        assert(i.data.skip(10) =~= value@);
        assert(i.data.take(8) =~= disc@);
    }
}

// ---------------------------------------------------------------------------
// Pokes
// ---------------------------------------------------------------------------

/// A filler cancels a failing account's orders: it signs for itself, its own account
/// is rewarded, the target's is written, and so is every market.
pub proof fn fillers_cancel_failing_orders(
    f: &Fixture,
    target_idx: usize,
    filler_idx: usize,
    r: Transaction,
)
    requires
        call_ensures(Fixture::action_force_cancel_orders, (f, target_idx, filler_idx), r),
        f.wf(),
        target_idx < 2,
    ensures
        ({
            let filler = f.users@[filler_idx as int % 2];
            let target = f.users@[target_idx as int].user_pda;
            &&& sent_by(r@, f.program_id, filler.authority())
            &&& writes(r@) == seq![
                filler.user_pda,
                target,
                f.perp_oracle_pda,
                f.spot_1_oracle_pda,
                f.spot_market_pda,
                f.spot_market_1_pda,
                f.perp_market_pda,
            ]
            &&& reads(r@) == seq![f.state_pda, filler.authority()]
            &&& r@.instructions[0].accounts[1].is_signer
            &&& tag(r@) == D_FORCE_CANCEL_ORDERS@
            &&& r@.instructions[0].data.len() == 8
        }),
{
    let filler = f.users@[filler_idx as int % 2];
    let target = f.users@[target_idx as int].user_pda;
    let i = r@.instructions[0];
    reveal_with_fuel(written, 11);
    reveal_with_fuel(consulted, 11);
    widths();
    assert(i.data.take(8) =~= D_FORCE_CANCEL_ORDERS@);
}

/// A filler pokes a user in its own name.
pub proof fn fillers_poke_for_themselves(
    f: &Fixture,
    target_idx: usize,
    filler_idx: usize,
    disc: [u8; 8],
    r: Transaction,
)
    requires
        call_ensures(Fixture::send_filler_ix, (f, target_idx, filler_idx, disc), r),
        f.wf(),
        target_idx < 2,
    ensures
        ({
            let filler = f.users@[filler_idx as int % 2];
            let target = f.users@[target_idx as int].user_pda;
            &&& sent_by(r@, f.program_id, filler.authority())
            &&& writes(r@) == seq![
                filler.user_pda,
                target,
                f.perp_oracle_pda,
                f.spot_1_oracle_pda,
                f.spot_market_pda,
                f.spot_market_1_pda,
                f.perp_market_pda,
            ]
            &&& reads(r@) == seq![f.state_pda, filler.authority()]
            &&& r@.instructions[0].accounts[1].is_signer
            &&& tag(r@) == disc@
            &&& r@.instructions[0].data.len() == 8
        }),
{
    let filler = f.users@[filler_idx as int % 2];
    let target = f.users@[target_idx as int].user_pda;
    let i = r@.instructions[0];
    reveal_with_fuel(written, 11);
    reveal_with_fuel(consulted, 11);
    widths();
    assert(i.data.take(8) =~= disc@);
}

/// A filler marks an account idle: the first sub-account of a fresh authority with
/// choice one, a user's main account with any other.
pub proof fn fillers_mark_accounts_idle(
    f: &Fixture,
    target_idx: usize,
    filler_idx: usize,
    target_fresh: u8,
    fresh_idx: usize,
    r: Option<Transaction>,
)
    requires
        call_ensures(
            Fixture::action_update_user_idle,
            (f, target_idx, filler_idx, target_fresh, fresh_idx),
            r,
        ),
        f.wf(),
        target_idx < 2,
        fresh_idx < 2,
    ensures
        r matches Some(t) ==> {
            let filler = f.users@[filler_idx as int % 2];
            let owner = addr(f.fresh@[fresh_idx as int]);
            let target = if target_fresh == 1 {
                pda_key(seq![text("user"), owner.bytes@, le(0, 2)], f.program_id)
            } else {
                f.users@[target_idx as int].user_pda
            };
            &&& sent_by(t@, f.program_id, filler.authority())
            &&& writes(t@) == seq![
                filler.user_pda,
                target,
                f.perp_oracle_pda,
                f.spot_1_oracle_pda,
                f.spot_market_pda,
                f.spot_market_1_pda,
                f.perp_market_pda,
            ]
            &&& reads(t@) == seq![f.state_pda, filler.authority()]
            &&& t@.instructions[0].accounts[1].is_signer
            &&& tag(t@) == D_UPDATE_USER_IDLE@
            &&& t@.instructions[0].data.len() == 8
        },
{
    if let Some(t) = r {
        let filler = f.users@[filler_idx as int % 2];
        let owner = addr(f.fresh@[fresh_idx as int]);
        let target = if target_fresh == 1 {
            pda_key(seq![text("user"), owner.bytes@, le(0, 2)], f.program_id)
        } else {
            f.users@[target_idx as int].user_pda
        };
        let i = t@.instructions[0];
        reveal_with_fuel(written, 11);
        reveal_with_fuel(consulted, 11);
        widths();
        assert(i.data.take(8) =~= D_UPDATE_USER_IDLE@);
    }
}

/// Any user may have another's balances logged: the one who asks signs, and the
/// target and every market are brought up to date.
pub proof fn anyone_may_ask_for_balances(
    f: &Fixture,
    target_idx: usize,
    signer_idx: usize,
    r: Transaction,
)
    requires
        call_ensures(Fixture::action_log_user_balances, (f, target_idx, signer_idx), r),
        f.wf(),
        target_idx < 2,
    ensures
        ({
            let target = f.users@[target_idx as int];
            let signer_user = f.users@[signer_idx as int % 2];
            &&& sent_by(r@, f.program_id, signer_user.authority())
            &&& writes(r@) == seq![
                target.user_pda,
                f.perp_oracle_pda,
                f.spot_1_oracle_pda,
                f.spot_market_pda,
                f.spot_market_1_pda,
                f.perp_market_pda,
            ]
            &&& reads(r@) == seq![f.state_pda, signer_user.authority()]
            &&& r@.instructions[0].accounts[1].is_signer
            &&& tag(r@) == D_LOG_USER_BALANCES@
            &&& r@.instructions[0].data.len() == 8
        }),
{
    let target = f.users@[target_idx as int];
    let signer_user = f.users@[signer_idx as int % 2];
    let i = r@.instructions[0];
    reveal_with_fuel(written, 10);
    reveal_with_fuel(consulted, 10);
    widths();
    assert(i.data.take(8) =~= D_LOG_USER_BALANCES@);
}

// ---------------------------------------------------------------------------
// Opening and closing accounts
// ---------------------------------------------------------------------------

/// An account is closed by its owner, who signs and is refunded; the exchange's count
/// of accounts is written.
pub proof fn owners_close_their_accounts(
    f: &Fixture,
    user_idx: usize,
    target_fresh: u8,
    fresh_idx: usize,
    r: Option<Transaction>,
)
    requires
        call_ensures(Fixture::action_delete_user, (f, user_idx, target_fresh, fresh_idx), r),
        f.wf(),
        user_idx < 2,
        fresh_idx < 2,
    ensures
        r matches Some(t) ==> {
            let fresh = addr(f.fresh@[fresh_idx as int]);
            let user = f.users@[user_idx as int];
            let authority = if target_fresh == 1 { fresh } else { user.authority() };
            let account = if target_fresh == 1 {
                pda_key(seq![text("user"), fresh.bytes@, le(0, 2)], f.program_id)
            } else {
                user.user_pda
            };
            let stats = if target_fresh == 1 {
                pda_key(seq![text("user_stats"), fresh.bytes@], f.program_id)
            } else {
                user.stats_pda
            };
            &&& sent_by(t@, f.program_id, authority)
            &&& writes(t@) == seq![account, stats, f.state_pda, authority]
            &&& reads(t@) == Seq::<Pubkey>::empty()
            &&& t@.instructions[0].accounts[3].is_signer
            &&& tag(t@) == D_DELETE_USER@
            &&& t@.instructions[0].data.len() == 8
        },
{
    if let Some(t) = r {
        let fresh = addr(f.fresh@[fresh_idx as int]);
        let user = f.users@[user_idx as int];
        let authority = if target_fresh == 1 { fresh } else { user.authority() };
        let account = if target_fresh == 1 {
            pda_key(seq![text("user"), fresh.bytes@, le(0, 2)], f.program_id)
        } else {
            user.user_pda
        };
        let stats = if target_fresh == 1 {
            pda_key(seq![text("user_stats"), fresh.bytes@], f.program_id)
        } else {
            user.stats_pda
        };
        let i = t@.instructions[0];
        reveal_with_fuel(written, 6);
        reveal_with_fuel(consulted, 6);
        widths();
        assert(i.data.take(8) =~= D_DELETE_USER@);
    }
}

/// An abandoned account is closed by the crank, which signs; the owner is refunded
/// without signing, and no spot market is written.
pub proof fn keepers_close_abandoned_accounts(
    f: &Fixture,
    user_idx: usize,
    target_fresh: u8,
    fresh_idx: usize,
    r: Option<Transaction>,
)
    requires
        call_ensures(Fixture::action_force_delete_user, (f, user_idx, target_fresh, fresh_idx), r),
        f.wf(),
        user_idx < 2,
        fresh_idx < 2,
    ensures
        r matches Some(t) ==> {
            let fresh = addr(f.fresh@[fresh_idx as int]);
            let user = f.users@[user_idx as int];
            let authority = if target_fresh == 1 { fresh } else { user.authority() };
            let account = if target_fresh == 1 {
                pda_key(seq![text("user"), fresh.bytes@, le(0, 2)], f.program_id)
            } else {
                user.user_pda
            };
            let stats = if target_fresh == 1 {
                pda_key(seq![text("user_stats"), fresh.bytes@], f.program_id)
            } else {
                user.stats_pda
            };
            &&& sent_by(t@, f.program_id, addr(f.crank))
            &&& writes(t@) == seq![
                account,
                stats,
                f.state_pda,
                authority,
                addr(f.crank),
                f.perp_oracle_pda,
                f.spot_1_oracle_pda,
                f.perp_market_pda,
            ]
            &&& reads(t@) == seq![f.signer_pda, f.spot_market_pda, f.spot_market_1_pda]
            &&& t@.instructions[0].accounts[4].is_signer
            &&& tag(t@) == D_FORCE_DELETE_USER@
            &&& t@.instructions[0].data.len() == 8
        },
{
    if let Some(t) = r {
        let fresh = addr(f.fresh@[fresh_idx as int]);
        let user = f.users@[user_idx as int];
        let authority = if target_fresh == 1 { fresh } else { user.authority() };
        let account = if target_fresh == 1 {
            pda_key(seq![text("user"), fresh.bytes@, le(0, 2)], f.program_id)
        } else {
            user.user_pda
        };
        let stats = if target_fresh == 1 {
            pda_key(seq![text("user_stats"), fresh.bytes@], f.program_id)
        } else {
            user.stats_pda
        };
        let i = t@.instructions[0];
        reveal_with_fuel(written, 13);
        reveal_with_fuel(consulted, 13);
        widths();
        assert(i.data.take(8) =~= D_FORCE_DELETE_USER@);
    }
}

/// Lamports above its rent go back from an account to its owner, who asks for them.
pub proof fn owners_reclaim_rent(f: &Fixture, user_idx: usize, r: Transaction)
    requires
        call_ensures(Fixture::action_reclaim_rent, (f, user_idx), r),
        f.wf(),
        user_idx < 2,
    ensures
        ({
            let user = f.users@[user_idx as int];
            &&& sent_by(r@, f.program_id, user.authority())
            &&& writes(r@) == seq![user.user_pda, user.stats_pda]
            &&& reads(r@) == seq![f.state_pda, user.authority(), rent_sysvar_id()]
            &&& r@.instructions[0].accounts[3].is_signer
            &&& tag(r@) == D_RECLAIM_RENT@
            &&& r@.instructions[0].data.len() == 8
        }),
{
    let user = f.users@[user_idx as int];
    let i = r@.instructions[0];
    reveal_with_fuel(written, 7);
    reveal_with_fuel(consulted, 7);
    widths();
    assert(i.data.take(8) =~= D_RECLAIM_RENT@);
}

/// A referral name is a letter from `a` on and zero bytes after it. The account that
/// holds it is derived from it, and the user that claims it signs and pays.
pub proof fn names_derive_their_holder(
    f: &Fixture,
    user_idx: usize,
    name_sel: u8,
    r: Option<Transaction>,
)
    requires
        call_ensures(Fixture::action_initialize_referrer_name, (f, user_idx, name_sel), r),
        f.wf(),
        user_idx < 2,
        name_sel <= 158,
    ensures
        r matches Some(t) ==> {
            let user = f.users@[user_idx as int];
            let name = t@.instructions[0].data.skip(8);
            let holder = pda_key(seq![text("referrer_name"), name], f.program_id);
            &&& sent_by(t@, f.program_id, user.authority())
            &&& writes(t@) == seq![holder, user.user_pda, user.stats_pda, user.authority()]
            &&& reads(t@) == seq![user.authority(), rent_sysvar_id(), system_program_id()]
            &&& t@.instructions[0].accounts[3].is_signer
            &&& tag(t@) == D_INITIALIZE_REFERRER_NAME@
            &&& name.len() == 32
            &&& name[0] == 97 + name_sel
            &&& forall|k: int| 1 <= k < 32 ==> #[trigger] name[k] == 0
        },
{
    if let Some(t) = r {
        let user = f.users@[user_idx as int];
        let name = t@.instructions[0].data.skip(8);
        let holder = pda_key(seq![text("referrer_name"), name], f.program_id);
        let i = t@.instructions[0];
        reveal_with_fuel(written, 9);
        reveal_with_fuel(consulted, 9);
        assert(name =~= referrer_name(name_sel));
        assert(i.data.take(8) =~= D_INITIALIZE_REFERRER_NAME@);
    }
}

// ---------------------------------------------------------------------------
// Transfers
// ---------------------------------------------------------------------------

/// Collateral moves between the main account and a sub-account of one user, out of
/// the first that is named into the second: from the main account, or to it with
/// choice one. The vault is not touched: it is only read.
pub proof fn transfers_stay_with_their_owner(
    f: &Fixture,
    user_idx: usize,
    sub_account_id: u16,
    amount: u64,
    reverse: u8,
    r: Option<Transaction>,
)
    requires
        call_ensures(
            Fixture::action_transfer_deposit,
            (f, user_idx, sub_account_id, amount, reverse),
            r,
        ),
        f.wf(),
        user_idx < 2,
    ensures
        r matches Some(t) ==> {
            let user = f.users@[user_idx as int];
            let sub = pda_key(
                seq![text("user"), user.authority().bytes@, le(sub_account_id as int, 2)],
                f.program_id,
            );
            let from = if reverse == 1 { sub } else { user.user_pda };
            let to = if reverse == 1 { user.user_pda } else { sub };
            &&& sent_by(t@, f.program_id, user.authority())
            &&& writes(t@) == seq![
                from,
                to,
                user.stats_pda,
                f.perp_oracle_pda,
                f.spot_1_oracle_pda,
                f.spot_market_pda,
                f.spot_market_1_pda,
                f.perp_market_pda,
            ]
            &&& reads(t@) == seq![user.authority(), f.state_pda, f.spot_vault_pda]
            &&& t@.instructions[0].accounts[3].is_signer
            &&& tag(t@) == D_TRANSFER_DEPOSIT@
            &&& number(t@, 8, 2) == 0
            &&& number(t@, 10, 8) == amount
            &&& t@.instructions[0].data.len() == 18
        },
{
    if let Some(t) = r {
        let user = f.users@[user_idx as int];
        let sub = pda_key(
            seq![text("user"), user.authority().bytes@, le(sub_account_id as int, 2)],
            f.program_id,
        );
        let from = if reverse == 1 { sub } else { user.user_pda };
        let to = if reverse == 1 { user.user_pda } else { sub };
        let i = t@.instructions[0];
        reveal_with_fuel(written, 13);
        reveal_with_fuel(consulted, 13);
        widths();
        spelled(D_TRANSFER_DEPOSIT@, 0, 2, le(amount as int, 8));
        spelled(D_TRANSFER_DEPOSIT@ + le(0, 2), amount as int, 8, Seq::<u8>::empty());
        assert(i.data =~= D_TRANSFER_DEPOSIT@ + le(0, 2) + (le(amount as int, 8)));
        assert(i.data =~= D_TRANSFER_DEPOSIT@ + le(0, 2) + le(amount as int, 8)
            + Seq::<u8>::empty());
        assert(i.data.take(8) =~= D_TRANSFER_DEPOSIT@);
    }
}

/// A perp position moves between the main account and a sub-account of one user, all
/// of it or a signed amount, spelled in two's complement.
pub proof fn positions_stay_with_their_owner(
    f: &Fixture,
    user_idx: usize,
    sub_account_id: u16,
    with_amount: u8,
    amount_mag: u64,
    negative: u8,
    reverse: u8,
    r: Option<Transaction>,
)
    requires
        call_ensures(
            Fixture::action_transfer_perp_position,
            (f, user_idx, sub_account_id, with_amount, amount_mag, negative, reverse),
            r,
        ),
        f.wf(),
        user_idx < 2,
        amount_mag <= i64::MAX,
    ensures
        r matches Some(t) ==> {
            let user = f.users@[user_idx as int];
            let sub = pda_key(
                seq![text("user"), user.authority().bytes@, le(sub_account_id as int, 2)],
                f.program_id,
            );
            let from = if reverse == 1 { sub } else { user.user_pda };
            let to = if reverse == 1 { user.user_pda } else { sub };
            &&& sent_by(t@, f.program_id, user.authority())
            &&& writes(t@) == seq![
                from,
                to,
                user.stats_pda,
                f.perp_oracle_pda,
                f.spot_1_oracle_pda,
                f.perp_market_pda,
            ]
            &&& reads(t@) == seq![
                user.authority(),
                f.state_pda,
                f.spot_market_pda,
                f.spot_market_1_pda,
            ]
            &&& t@.instructions[0].accounts[3].is_signer
            &&& tag(t@) == D_TRANSFER_PERP_POSITION@
            &&& number(t@, 8, 2) == 0
            &&& with_amount != 1
                    ==> t@.instructions[0].data[10] == 0 && t@.instructions[0].data.len() == 11
            &&& with_amount == 1
                    ==> t@.instructions[0].data[10] == 1
                    && number(t@, 11, 8) == complement(amount_mag, negative == 1)
                    && t@.instructions[0].data.len() == 19
        },
{
    if let Some(t) = r {
        let user = f.users@[user_idx as int];
        let sub = pda_key(
            seq![text("user"), user.authority().bytes@, le(sub_account_id as int, 2)],
            f.program_id,
        );
        let from = if reverse == 1 { sub } else { user.user_pda };
        let to = if reverse == 1 { user.user_pda } else { sub };
        let i = t@.instructions[0];
        reveal_with_fuel(written, 12);
        reveal_with_fuel(consulted, 12);
        widths();
        spelled(
            D_TRANSFER_PERP_POSITION@,
            0,
            2,
            opt(with_amount == 1, le_signed(signed(amount_mag, negative == 1), 8)),
        );
        assert(i.data =~= D_TRANSFER_PERP_POSITION@ + le(0, 2) + (opt(with_amount
            == 1, le_signed(signed(amount_mag, negative == 1), 8))));
        if with_amount == 1 {
            let v = complement(amount_mag, negative == 1);
            assert(i.data =~= D_TRANSFER_PERP_POSITION@ + le(0, 2) + seq![1u8] + le(v, 8));
            spelled(D_TRANSFER_PERP_POSITION@ + le(0, 2) + seq![1u8], v, 8, Seq::<u8>::empty());
            assert(i.data =~= D_TRANSFER_PERP_POSITION@ + le(0, 2) + seq![1u8] + le(v, 8)
                + Seq::<u8>::empty());
        } else {
            assert(i.data =~= D_TRANSFER_PERP_POSITION@ + le(0, 2) + seq![0u8]);
        }
        assert(i.data.take(8) =~= D_TRANSFER_PERP_POSITION@);
    }
}

/// Collateral moves from the owner's main account to its sub-account by the word of
/// the other user, its delegate, who signs in its place; the owner's stats are only
/// read.
pub proof fn delegates_move_collateral(
    f: &Fixture,
    owner_idx: usize,
    sub_account_id: u16,
    amount: u64,
    equity_floor_delta: u64,
    r: Option<Transaction>,
)
    requires
        call_ensures(
            Fixture::action_transfer_deposit_by_delegate,
            (f, owner_idx, sub_account_id, amount, equity_floor_delta),
            r,
        ),
        f.wf(),
        owner_idx < 2,
    ensures
        r matches Some(t) ==> {
            let owner = f.users@[owner_idx as int];
            let delegate = f.users@[1 - owner_idx];
            let sub = pda_key(
                seq![text("user"), owner.authority().bytes@, le(sub_account_id as int, 2)],
                f.program_id,
            );
            &&& sent_by(t@, f.program_id, delegate.authority())
            &&& writes(t@) == seq![
                owner.user_pda,
                sub,
                f.perp_oracle_pda,
                f.spot_1_oracle_pda,
                f.spot_market_pda,
                f.spot_market_1_pda,
                f.perp_market_pda,
            ]
            &&& reads(t@) == seq![
                owner.stats_pda,
                delegate.authority(),
                f.state_pda,
                f.spot_vault_pda,
            ]
            &&& t@.instructions[0].accounts[3].is_signer
            &&& tag(t@) == D_TRANSFER_DEPOSIT_BY_DELEGATE@
            &&& number(t@, 8, 2) == 0
            &&& number(t@, 10, 8) == amount
            &&& number(t@, 18, 8) == equity_floor_delta
            &&& t@.instructions[0].data.len() == 26
        },
{
    if let Some(t) = r {
        let owner = f.users@[owner_idx as int];
        let delegate = f.users@[1 - owner_idx];
        let sub = pda_key(
            seq![text("user"), owner.authority().bytes@, le(sub_account_id as int, 2)],
            f.program_id,
        );
        let i = t@.instructions[0];
        reveal_with_fuel(written, 13);
        reveal_with_fuel(consulted, 13);
        widths();
        spelled(
            D_TRANSFER_DEPOSIT_BY_DELEGATE@,
            0,
            2,
            le(amount as int, 8) + le(equity_floor_delta as int, 8),
        );
        spelled(
            D_TRANSFER_DEPOSIT_BY_DELEGATE@ + le(0, 2),
            amount as int,
            8,
            le(equity_floor_delta as int, 8),
        );
        spelled(
            D_TRANSFER_DEPOSIT_BY_DELEGATE@ + le(0, 2) + le(amount as int, 8),
            equity_floor_delta as int,
            8,
            Seq::<u8>::empty(),
        );
        assert(i.data =~= D_TRANSFER_DEPOSIT_BY_DELEGATE@ + le(0, 2) + (le(amount as int, 8)
            + le(equity_floor_delta as int, 8)));
        assert(i.data =~= D_TRANSFER_DEPOSIT_BY_DELEGATE@ + le(0, 2) + le(amount as int, 8)
            + (le(equity_floor_delta as int, 8)));
        assert(i.data =~= D_TRANSFER_DEPOSIT_BY_DELEGATE@ + le(0, 2) + le(amount as int, 8)
            + le(equity_floor_delta as int, 8) + Seq::<u8>::empty());
        assert(i.data.take(8) =~= D_TRANSFER_DEPOSIT_BY_DELEGATE@);
    }
}

/// A user hands its perp position back, all of it or a signed amount.
pub proof fn hedgers_hand_positions_back(
    f: &Fixture,
    user_idx: usize,
    with_amount: u8,
    amount_mag: u64,
    negative: u8,
    r: Transaction,
)
    requires
        call_ensures(
            Fixture::action_special_transfer_perp_to_vamm,
            (f, user_idx, with_amount, amount_mag, negative),
            r,
        ),
        f.wf(),
        user_idx < 2,
        amount_mag <= i64::MAX,
    ensures
        ({
            let user = f.users@[user_idx as int];
            &&& sent_by(r@, f.program_id, user.authority())
            &&& writes(r@) == seq![
                user.user_pda,
                f.perp_oracle_pda,
                f.spot_1_oracle_pda,
                f.spot_market_pda,
                f.spot_market_1_pda,
                f.perp_market_pda,
            ]
            &&& reads(r@) == seq![user.authority(), f.state_pda]
            &&& r@.instructions[0].accounts[1].is_signer
            &&& tag(r@) == D_SPECIAL_TRANSFER_PERP_TO_VAMM@
            &&& number(r@, 8, 2) == 0
            &&& with_amount != 1
                    ==> r@.instructions[0].data[10] == 0 && r@.instructions[0].data.len() == 11
            &&& with_amount == 1
                    ==> r@.instructions[0].data[10] == 1
                    && number(r@, 11, 8) == complement(amount_mag, negative == 1)
                    && r@.instructions[0].data.len() == 19
        }),
{
    let user = f.users@[user_idx as int];
    let i = r@.instructions[0];
    reveal_with_fuel(written, 10);
    reveal_with_fuel(consulted, 10);
    widths();
    spelled(
        D_SPECIAL_TRANSFER_PERP_TO_VAMM@,
        0,
        2,
        opt(with_amount == 1, le_signed(signed(amount_mag, negative == 1), 8)),
    );
    assert(i.data =~= D_SPECIAL_TRANSFER_PERP_TO_VAMM@ + le(0, 2) + (opt(with_amount
        == 1, le_signed(signed(amount_mag, negative == 1), 8))));
    if with_amount == 1 {
        let v = complement(amount_mag, negative == 1);
        assert(i.data =~= D_SPECIAL_TRANSFER_PERP_TO_VAMM@ + le(0, 2) + seq![1u8] + le(v, 8));
        spelled(D_SPECIAL_TRANSFER_PERP_TO_VAMM@ + le(0, 2) + seq![1u8], v, 8, Seq::<u8>::empty());
        assert(i.data =~= D_SPECIAL_TRANSFER_PERP_TO_VAMM@ + le(0, 2) + seq![1u8] + le(v, 8)
            + Seq::<u8>::empty());
    } else {
        assert(i.data =~= D_SPECIAL_TRANSFER_PERP_TO_VAMM@ + le(0, 2) + seq![0u8]);
    }
    assert(i.data.take(8) =~= D_SPECIAL_TRANSFER_PERP_TO_VAMM@);
}

// ---------------------------------------------------------------------------
// Keeper pokes
// ---------------------------------------------------------------------------

/// The crank trips the breaker of the quote market: it signs, the market is written,
/// and its vault is only read.
pub proof fn the_crank_trips_the_quote_market(f: &Fixture, r: Transaction)
    requires
        call_ensures(Fixture::action_pause_spot_market_deposit_withdraw, (f,), r),
    ensures
        ({
            &&& sent_by(r@, f.program_id, addr(f.crank))
            &&& writes(r@) == seq![f.spot_market_pda]
            &&& reads(r@) == seq![f.state_pda, addr(f.crank), f.spot_vault_pda]
            &&& r@.instructions[0].accounts[1].is_signer
            &&& tag(r@) == D_PAUSE_SPOT_MARKET_DEPOSIT_WITHDRAW@
            &&& r@.instructions[0].data.len() == 8
        }),
{
    let i = r@.instructions[0];
    reveal_with_fuel(written, 6);
    reveal_with_fuel(consulted, 6);
    widths();
    assert(i.data.take(8) =~= D_PAUSE_SPOT_MARKET_DEPOSIT_WITHDRAW@);
}

/// The admin, and nobody else, gives a user an equity floor: with choice zero half of
/// what a word holds, with any other a single unit.
pub proof fn the_admin_sets_floors(f: &Fixture, user_idx: usize, floor_sel: u8, r: Transaction)
    requires
        call_ensures(Fixture::set_equity_floor, (f, user_idx, floor_sel), r),
        f.wf(),
        user_idx < 2,
    ensures
        ({
            let user = f.users@[user_idx as int];
            &&& sent_by(r@, f.program_id, addr(f.admin))
            &&& writes(r@) == seq![user.user_pda]
            &&& reads(r@) == seq![addr(f.admin), f.state_pda]
            &&& r@.instructions[0].accounts[0].is_signer
            &&& tag(r@) == D_UPDATE_USER_EQUITY_FLOOR@
            &&& number(r@, 8, 8) == (if floor_sel == 0 { u64::MAX / 2 } else { 1 })
            &&& r@.instructions[0].data.len() == 16
        }),
{
    let user = f.users@[user_idx as int];
    let i = r@.instructions[0];
    reveal_with_fuel(written, 5);
    reveal_with_fuel(consulted, 5);
    widths();
    spelled(
        D_UPDATE_USER_EQUITY_FLOOR@,
        (if floor_sel == 0 { u64::MAX as int / 2 } else { 1 }),
        8,
        Seq::<u8>::empty(),
    );
    assert(i.data =~= D_UPDATE_USER_EQUITY_FLOOR@ + le((if floor_sel
        == 0 { u64::MAX as int / 2 } else { 1 }), 8) + Seq::<u8>::empty());
    assert(i.data.take(8) =~= D_UPDATE_USER_EQUITY_FLOOR@);
}

/// The crank flags a user whose equity fell through its floor: the user's account is
/// only read, and its stats are written.
pub proof fn the_crank_trips_fallen_users(f: &Fixture, user_idx: usize, r: Transaction)
    requires
        call_ensures(Fixture::action_trip_equity_floor_breaker, (f, user_idx), r),
        f.wf(),
        user_idx < 2,
    ensures
        ({
            let user = f.users@[user_idx as int];
            &&& sent_by(r@, f.program_id, addr(f.crank))
            &&& writes(r@) == seq![
                user.stats_pda,
                f.perp_oracle_pda,
                f.spot_1_oracle_pda,
                f.perp_market_pda,
            ]
            &&& reads(r@) == seq![
                f.state_pda,
                addr(f.crank),
                user.user_pda,
                f.spot_market_pda,
                f.spot_market_1_pda,
            ]
            &&& r@.instructions[0].accounts[1].is_signer
            &&& tag(r@) == D_TRIP_EQUITY_FLOOR_BREAKER@
            &&& r@.instructions[0].data.len() == 8
        }),
{
    let user = f.users@[user_idx as int];
    let i = r@.instructions[0];
    reveal_with_fuel(written, 11);
    reveal_with_fuel(consulted, 11);
    widths();
    assert(i.data.take(8) =~= D_TRIP_EQUITY_FLOOR_BREAKER@);
}

/// A user refreshes its own referrer flags, which lie in its stats.
pub proof fn users_refresh_their_referrals(f: &Fixture, user_idx: usize, r: Transaction)
    requires
        call_ensures(Fixture::action_update_user_stats_referrer_status, (f, user_idx), r),
        f.wf(),
        user_idx < 2,
    ensures
        ({
            let user = f.users@[user_idx as int];
            &&& sent_by(r@, f.program_id, user.authority())
            &&& writes(r@) == seq![user.stats_pda]
            &&& reads(r@) == seq![f.state_pda, user.authority()]
            &&& r@.instructions[0].accounts[1].is_signer
            &&& tag(r@) == D_UPDATE_USER_STATS_REFERRER_STATUS@
            &&& r@.instructions[0].data.len() == 8
        }),
{
    let user = f.users@[user_idx as int];
    let i = r@.instructions[0];
    reveal_with_fuel(written, 5);
    reveal_with_fuel(consulted, 5);
    widths();
    assert(i.data.take(8) =~= D_UPDATE_USER_STATS_REFERRER_STATUS@);
}

/// The crank refreshes the AMM cache: it pays, the cache is written, and no spot
/// market is.
pub proof fn the_crank_refreshes_the_cache(f: &Fixture, r: Transaction)
    requires
        call_ensures(Fixture::action_update_amm_cache, (f,), r),
    ensures
        ({
            &&& sent_by(r@, f.program_id, addr(f.crank))
            &&& writes(r@) == seq![
                addr(f.crank),
                f.amm_cache_pda,
                f.perp_oracle_pda,
                f.spot_1_oracle_pda,
                f.perp_market_pda,
            ]
            &&& reads(r@) == seq![
                f.state_pda,
                f.spot_market_pda,
                f.spot_market_pda,
                f.spot_market_1_pda,
            ]
            &&& r@.instructions[0].accounts[0].is_signer
            &&& tag(r@) == D_UPDATE_AMM_CACHE@
            &&& r@.instructions[0].data.len() == 8
        }),
{
    let i = r@.instructions[0];
    reveal_with_fuel(written, 11);
    reveal_with_fuel(consulted, 11);
    widths();
    assert(i.data.take(8) =~= D_UPDATE_AMM_CACHE@);
}

} // verus!
