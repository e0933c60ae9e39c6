//! What the calls of the liquidation scenario may change, and who makes them.

use vstd::prelude::*;
use crate::call_laws::{consulted, number, reads, sent_by, spelled, tag, widths, writes, written};
use crate::discriminators::{
    D_ADD_IF_STAKE, D_DEPOSIT, D_INITIALIZE_IF_STAKE, D_LIQUIDATE_PERP,
    D_LIQUIDATE_PERP_PNL_FOR_DEPOSIT, D_LIQUIDATE_SPOT, D_REMOVE_IF_STAKE,
    D_REQUEST_REMOVE_IF_STAKE, D_RESOLVE_PERP_BANKRUPTCY, D_RESOLVE_PERP_PNL_DEFICIT,
    D_RESOLVE_SPOT_BANKRUPTCY, D_SET_USER_STATUS_BEING_LIQUIDATED,
};
use crate::liq::{Fixture, UserAcct};
use crate::keys::{rent_sysvar_id, system_program_id, token_program_id, Transaction};
use crate::wire::le;

verus! {

// ---------------------------------------------------------------------------
// Liquidation
// ---------------------------------------------------------------------------

/// The liquidator, who is the first user, flags a user: it signs, the user's account
/// is written, and the markets are only read.
pub proof fn liquidators_flag_users(f: &Fixture, user_idx: usize, r: Transaction)
    requires
        call_ensures(Fixture::action_set_being_liquidated, (f, user_idx), r),
        f.wf(),
        user_idx < 3,
    ensures
        ({
            let user = f.users@[user_idx as int];
            let liq = f.users@[0];
            &&& sent_by(r@, f.program_id, liq.authority())
            &&& writes(r@) == seq![user.user_pda]
            &&& reads(r@) == seq![
                f.state_pda,
                liq.authority(),
                f.spot_market_pda,
                f.perp_market_pda,
            ]
            &&& r@.instructions[0].accounts[2].is_signer
            &&& tag(r@) == D_SET_USER_STATUS_BEING_LIQUIDATED@
            &&& r@.instructions[0].data.len() == 8
        }),
{
    let user = f.users@[user_idx as int];
    let liq = f.users@[0];
    let i = r@.instructions[0];
    reveal_with_fuel(written, 7);
    reveal_with_fuel(consulted, 7);
    widths();
    assert(i.data.take(8) =~= D_SET_USER_STATUS_BEING_LIQUIDATED@);
}

/// The liquidator takes the position of the victim, who is the third user, in perp
/// market 0, up to an amount of base and at any price: both accounts and stats are
/// written, its own first, and the perp market.
pub proof fn liquidators_take_positions(f: &Fixture, max_base: u64, r: Transaction)
    requires
        call_ensures(Fixture::action_liquidate_perp, (f, max_base), r),
        f.wf(),
    ensures
        ({
            let liq = f.users@[0];
            let victim = f.users@[2];
            &&& sent_by(r@, f.program_id, liq.authority())
            &&& writes(r@) == seq![
                liq.user_pda,
                liq.stats_pda,
                victim.user_pda,
                victim.stats_pda,
                f.perp_market_pda,
            ]
            &&& reads(r@) == seq![f.state_pda, liq.authority(), f.spot_market_pda]
            &&& r@.instructions[0].accounts[1].is_signer
            &&& tag(r@) == D_LIQUIDATE_PERP@
            &&& number(r@, 8, 2) == 0
            &&& number(r@, 10, 8) == max_base
            &&& r@.instructions[0].data[18] == 0u8
            &&& r@.instructions[0].data.len() == 19
        }),
{
    let liq = f.users@[0];
    let victim = f.users@[2];
    let i = r@.instructions[0];
    reveal_with_fuel(written, 10);
    reveal_with_fuel(consulted, 10);
    widths();
    spelled(D_LIQUIDATE_PERP@, 0, 2, le(max_base as int, 8) + seq![0u8]);
    spelled(D_LIQUIDATE_PERP@ + le(0, 2), max_base as int, 8, seq![0u8]);
    assert(i.data =~= D_LIQUIDATE_PERP@ + le(0, 2) + (le(max_base as int, 8) + seq![0u8]));
    assert(i.data =~= D_LIQUIDATE_PERP@ + le(0, 2) + le(max_base as int, 8) + (seq![0u8]));
    assert(i.data =~= D_LIQUIDATE_PERP@ + le(0, 2) + le(max_base as int, 8) + seq![0u8]);
    assert(i.data.take(8) =~= D_LIQUIDATE_PERP@);
}

/// The liquidator asks to liquidate the victim's loan in the quote market against a
/// deposit in the same market.
pub proof fn loans_are_not_liquidated_against_themselves(
    f: &Fixture,
    max_liab: u64,
    r: Transaction,
)
    requires
        call_ensures(Fixture::action_liquidate_spot, (f, max_liab), r),
        f.wf(),
    ensures
        ({
            let liq = f.users@[0];
            let victim = f.users@[2];
            &&& sent_by(r@, f.program_id, liq.authority())
            &&& writes(r@) == seq![
                liq.user_pda,
                victim.user_pda,
                f.spot_market_pda,
                f.perp_market_pda,
            ]
            &&& reads(r@) == seq![f.state_pda, liq.authority()]
            &&& r@.instructions[0].accounts[1].is_signer
            &&& tag(r@) == D_LIQUIDATE_SPOT@
            &&& number(r@, 8, 2) == 0
            &&& number(r@, 10, 2) == 0
            &&& number(r@, 12, 16) == max_liab
            &&& r@.instructions[0].data[28] == 0u8
            &&& r@.instructions[0].data.len() == 29
        }),
{
    let liq = f.users@[0];
    let victim = f.users@[2];
    let i = r@.instructions[0];
    reveal_with_fuel(written, 8);
    reveal_with_fuel(consulted, 8);
    widths();
    spelled(D_LIQUIDATE_SPOT@, 0, 2, le(0, 2) + le(max_liab as int, 16) + seq![0u8]);
    spelled(D_LIQUIDATE_SPOT@ + le(0, 2), 0, 2, le(max_liab as int, 16) + seq![0u8]);
    spelled(D_LIQUIDATE_SPOT@ + le(0, 2) + le(0, 2), max_liab as int, 16, seq![0u8]);
    assert(i.data =~= D_LIQUIDATE_SPOT@ + le(0, 2) + (le(0, 2) + le(max_liab as int, 16)
        + seq![0u8]));
    assert(i.data =~= D_LIQUIDATE_SPOT@ + le(0, 2) + le(0, 2) + (le(max_liab as int, 16)
        + seq![0u8]));
    assert(i.data =~= D_LIQUIDATE_SPOT@ + le(0, 2) + le(0, 2) + le(max_liab as int, 16)
        + (seq![0u8]));
    assert(i.data =~= D_LIQUIDATE_SPOT@ + le(0, 2) + le(0, 2) + le(max_liab as int, 16)
        + seq![0u8]);
    assert(i.data.take(8) =~= D_LIQUIDATE_SPOT@);
}

/// The liquidator takes the victim's loss in perp market 0 for its deposit in the
/// quote market, up to an amount; the perp market is only read.
pub proof fn liquidators_take_losses(f: &Fixture, max_pnl: u64, r: Transaction)
    requires
        call_ensures(Fixture::action_liquidate_pnl_for_deposit, (f, max_pnl), r),
        f.wf(),
    ensures
        ({
            let liq = f.users@[0];
            let victim = f.users@[2];
            &&& sent_by(r@, f.program_id, liq.authority())
            &&& writes(r@) == seq![
                liq.user_pda,
                liq.stats_pda,
                victim.user_pda,
                victim.stats_pda,
                f.spot_market_pda,
            ]
            &&& reads(r@) == seq![f.state_pda, liq.authority(), f.perp_market_pda]
            &&& r@.instructions[0].accounts[1].is_signer
            &&& tag(r@) == D_LIQUIDATE_PERP_PNL_FOR_DEPOSIT@
            &&& number(r@, 8, 2) == 0
            &&& number(r@, 10, 2) == 0
            &&& number(r@, 12, 16) == max_pnl
            &&& r@.instructions[0].data[28] == 0u8
            &&& r@.instructions[0].data.len() == 29
        }),
{
    let liq = f.users@[0];
    let victim = f.users@[2];
    let i = r@.instructions[0];
    reveal_with_fuel(written, 10);
    reveal_with_fuel(consulted, 10);
    widths();
    spelled(D_LIQUIDATE_PERP_PNL_FOR_DEPOSIT@, 0, 2, le(0, 2) + le(max_pnl as int, 16) + seq![0u8]);
    spelled(D_LIQUIDATE_PERP_PNL_FOR_DEPOSIT@ + le(0, 2), 0, 2, le(max_pnl as int, 16) + seq![0u8]);
    spelled(D_LIQUIDATE_PERP_PNL_FOR_DEPOSIT@ + le(0, 2) + le(0, 2), max_pnl as int, 16, seq![0u8]);
    assert(i.data =~= D_LIQUIDATE_PERP_PNL_FOR_DEPOSIT@ + le(0, 2) + (le(0, 2)
        + le(max_pnl as int, 16) + seq![0u8]));
    assert(i.data =~= D_LIQUIDATE_PERP_PNL_FOR_DEPOSIT@ + le(0, 2) + le(0, 2)
        + (le(max_pnl as int, 16) + seq![0u8]));
    assert(i.data =~= D_LIQUIDATE_PERP_PNL_FOR_DEPOSIT@ + le(0, 2) + le(0, 2)
        + le(max_pnl as int, 16) + (seq![0u8]));
    assert(i.data =~= D_LIQUIDATE_PERP_PNL_FOR_DEPOSIT@ + le(0, 2) + le(0, 2)
        + le(max_pnl as int, 16) + seq![0u8]);
    assert(i.data.take(8) =~= D_LIQUIDATE_PERP_PNL_FOR_DEPOSIT@);
}

/// The liquidator resolves the victim's loss in perp market 0: out of the insurance
/// vault into the quote vault.
pub proof fn losses_are_resolved_by_the_liquidator(f: &Fixture, r: Transaction)
    requires
        call_ensures(Fixture::action_resolve_perp_bankruptcy, (f,), r),
        f.wf(),
    ensures
        ({
            let liq = f.users@[0];
            let victim = f.users@[2];
            &&& sent_by(r@, f.program_id, liq.authority())
            &&& writes(r@) == seq![
                liq.user_pda,
                liq.stats_pda,
                victim.user_pda,
                victim.stats_pda,
                f.spot_vault_pda,
                f.if_vault_pda,
                f.spot_market_pda,
                f.perp_market_pda,
            ]
            &&& reads(r@) == seq![
                f.state_pda,
                liq.authority(),
                f.signer_pda,
                token_program_id(),
                f.usdc_mint,
            ]
            &&& r@.instructions[0].accounts[1].is_signer
            &&& tag(r@) == D_RESOLVE_PERP_BANKRUPTCY@
            &&& number(r@, 8, 2) == 0
            &&& number(r@, 10, 2) == 0
            &&& r@.instructions[0].data.len() == 12
        }),
{
    let liq = f.users@[0];
    let victim = f.users@[2];
    let i = r@.instructions[0];
    reveal_with_fuel(written, 15);
    reveal_with_fuel(consulted, 15);
    widths();
    spelled(D_RESOLVE_PERP_BANKRUPTCY@, 0, 2, le(0, 2));
    spelled(D_RESOLVE_PERP_BANKRUPTCY@ + le(0, 2), 0, 2, Seq::<u8>::empty());
    assert(i.data =~= D_RESOLVE_PERP_BANKRUPTCY@ + le(0, 2) + (le(0, 2)));
    assert(i.data =~= D_RESOLVE_PERP_BANKRUPTCY@ + le(0, 2) + le(0, 2) + Seq::<u8>::empty());
    assert(i.data.take(8) =~= D_RESOLVE_PERP_BANKRUPTCY@);
}

/// The liquidator resolves the victim's loan in the quote market in the same way.
pub proof fn loans_are_resolved_by_the_liquidator(f: &Fixture, r: Transaction)
    requires
        call_ensures(Fixture::action_resolve_spot_bankruptcy, (f,), r),
        f.wf(),
    ensures
        ({
            let liq = f.users@[0];
            let victim = f.users@[2];
            &&& sent_by(r@, f.program_id, liq.authority())
            &&& writes(r@) == seq![
                liq.user_pda,
                liq.stats_pda,
                victim.user_pda,
                victim.stats_pda,
                f.spot_vault_pda,
                f.if_vault_pda,
                f.spot_market_pda,
                f.perp_market_pda,
            ]
            &&& reads(r@) == seq![
                f.state_pda,
                liq.authority(),
                f.signer_pda,
                token_program_id(),
                f.usdc_mint,
            ]
            &&& r@.instructions[0].accounts[1].is_signer
            &&& tag(r@) == D_RESOLVE_SPOT_BANKRUPTCY@
            &&& number(r@, 8, 2) == 0
            &&& r@.instructions[0].data.len() == 10
        }),
{
    let liq = f.users@[0];
    let victim = f.users@[2];
    let i = r@.instructions[0];
    reveal_with_fuel(written, 15);
    reveal_with_fuel(consulted, 15);
    widths();
    spelled(D_RESOLVE_SPOT_BANKRUPTCY@, 0, 2, Seq::<u8>::empty());
    assert(i.data =~= D_RESOLVE_SPOT_BANKRUPTCY@ + le(0, 2) + Seq::<u8>::empty());
    assert(i.data.take(8) =~= D_RESOLVE_SPOT_BANKRUPTCY@);
}

/// The liquidator has the perp market's deficit covered out of the insurance vault;
/// no user's account is touched.
pub proof fn deficits_are_covered_by_insurance(f: &Fixture, r: Transaction)
    requires
        call_ensures(Fixture::action_resolve_perp_pnl_deficit, (f,), r),
        f.wf(),
    ensures
        ({
            let liq = f.users@[0];
            &&& sent_by(r@, f.program_id, liq.authority())
            &&& writes(r@) == seq![
                f.spot_vault_pda,
                f.if_vault_pda,
                f.perp_market_pda,
                f.spot_market_pda,
            ]
            &&& reads(r@) == seq![
                f.state_pda,
                liq.authority(),
                f.signer_pda,
                token_program_id(),
                f.usdc_mint,
            ]
            &&& r@.instructions[0].accounts[1].is_signer
            &&& tag(r@) == D_RESOLVE_PERP_PNL_DEFICIT@
            &&& number(r@, 8, 2) == 0
            &&& number(r@, 10, 2) == 0
            &&& r@.instructions[0].data.len() == 12
        }),
{
    let liq = f.users@[0];
    let i = r@.instructions[0];
    reveal_with_fuel(written, 11);
    reveal_with_fuel(consulted, 11);
    widths();
    spelled(D_RESOLVE_PERP_PNL_DEFICIT@, 0, 2, le(0, 2));
    spelled(D_RESOLVE_PERP_PNL_DEFICIT@ + le(0, 2), 0, 2, Seq::<u8>::empty());
    assert(i.data =~= D_RESOLVE_PERP_PNL_DEFICIT@ + le(0, 2) + (le(0, 2)));
    assert(i.data =~= D_RESOLVE_PERP_PNL_DEFICIT@ + le(0, 2) + le(0, 2) + Seq::<u8>::empty());
    assert(i.data.take(8) =~= D_RESOLVE_PERP_PNL_DEFICIT@);
}

// ---------------------------------------------------------------------------
// The stake
// ---------------------------------------------------------------------------

/// The liquidator opens its stake, pays and signs; the market is only read.
pub proof fn the_liquidator_opens_its_stake(f: &Fixture, r: Transaction)
    requires
        call_ensures(Fixture::init_if_stake, (f,), r),
        f.wf(),
    ensures
        ({
            let liq = f.users@[0];
            &&& sent_by(r@, f.program_id, liq.authority())
            &&& writes(r@) == seq![f.if_stake_pda, liq.stats_pda, liq.authority()]
            &&& reads(r@) == seq![
                f.spot_market_pda,
                f.state_pda,
                liq.authority(),
                rent_sysvar_id(),
                system_program_id(),
            ]
            &&& r@.instructions[0].accounts[4].is_signer
            &&& tag(r@) == D_INITIALIZE_IF_STAKE@
            &&& number(r@, 8, 2) == 0
            &&& r@.instructions[0].data.len() == 10
        }),
{
    let liq = f.users@[0];
    let i = r@.instructions[0];
    reveal_with_fuel(written, 10);
    reveal_with_fuel(consulted, 10);
    widths();
    spelled(D_INITIALIZE_IF_STAKE@, 0, 2, Seq::<u8>::empty());
    assert(i.data =~= D_INITIALIZE_IF_STAKE@ + le(0, 2) + Seq::<u8>::empty());
    assert(i.data.take(8) =~= D_INITIALIZE_IF_STAKE@);
}

/// The liquidator stakes as much as it was asked to and its wallet holds, out of its
/// wallet into the insurance vault; nothing where that is nothing.
pub proof fn the_liquidator_stakes_what_it_can_pay(
    f: &Fixture,
    amount: u64,
    balance: u64,
    r: Option<Transaction>,
)
    requires
        call_ensures(Fixture::action_add_if_stake, (f, amount, balance), r),
        f.wf(),
    ensures
        r is Some <==> amount > 0 && balance > 0,
        r matches Some(t) ==> {
            let liq = f.users@[0];
            let paid = if amount <= balance { amount } else { balance };
            &&& sent_by(t@, f.program_id, liq.authority())
            &&& writes(t@) == seq![
                f.spot_market_pda,
                f.if_stake_pda,
                liq.stats_pda,
                f.spot_vault_pda,
                f.if_vault_pda,
                liq.token_account,
            ]
            &&& reads(t@) == seq![f.state_pda, liq.authority(), f.signer_pda, token_program_id()]
            &&& t@.instructions[0].accounts[4].is_signer
            &&& tag(t@) == D_ADD_IF_STAKE@
            &&& number(t@, 8, 2) == 0
            &&& number(t@, 10, 8) == paid
            &&& t@.instructions[0].data.len() == 18
        },
{
    if let Some(t) = r {
        let liq = f.users@[0];
        let paid = if amount <= balance { amount } else { balance };
        let i = t@.instructions[0];
        reveal_with_fuel(written, 12);
        reveal_with_fuel(consulted, 12);
        widths();
        spelled(D_ADD_IF_STAKE@, 0, 2, le(paid as int, 8));
        spelled(D_ADD_IF_STAKE@ + le(0, 2), paid as int, 8, Seq::<u8>::empty());
        assert(i.data =~= D_ADD_IF_STAKE@ + le(0, 2) + (le(paid as int, 8)));
        assert(i.data =~= D_ADD_IF_STAKE@ + le(0, 2) + le(paid as int, 8) + Seq::<u8>::empty());
        assert(i.data.take(8) =~= D_ADD_IF_STAKE@);
    }
}

/// The liquidator asks for an amount of its stake back.
pub proof fn the_liquidator_asks_for_its_stake(f: &Fixture, amount: u64, r: Transaction)
    requires
        call_ensures(Fixture::action_request_remove_if_stake, (f, amount), r),
        f.wf(),
    ensures
        ({
            let liq = f.users@[0];
            &&& sent_by(r@, f.program_id, liq.authority())
            &&& writes(r@) == seq![f.spot_market_pda, f.if_stake_pda, liq.stats_pda, f.if_vault_pda]
            &&& reads(r@) == seq![liq.authority()]
            &&& r@.instructions[0].accounts[3].is_signer
            &&& tag(r@) == D_REQUEST_REMOVE_IF_STAKE@
            &&& number(r@, 8, 2) == 0
            &&& number(r@, 10, 8) == amount
            &&& r@.instructions[0].data.len() == 18
        }),
{
    let liq = f.users@[0];
    let i = r@.instructions[0];
    reveal_with_fuel(written, 7);
    reveal_with_fuel(consulted, 7);
    widths();
    spelled(D_REQUEST_REMOVE_IF_STAKE@, 0, 2, le(amount as int, 8));
    spelled(D_REQUEST_REMOVE_IF_STAKE@ + le(0, 2), amount as int, 8, Seq::<u8>::empty());
    assert(i.data =~= D_REQUEST_REMOVE_IF_STAKE@ + le(0, 2) + (le(amount as int, 8)));
    assert(i.data =~= D_REQUEST_REMOVE_IF_STAKE@ + le(0, 2) + le(amount as int, 8)
        + Seq::<u8>::empty());
    assert(i.data.take(8) =~= D_REQUEST_REMOVE_IF_STAKE@);
}

/// The liquidator takes back what it asked for, out of the insurance vault into its
/// wallet.
pub proof fn the_liquidator_takes_its_stake_back(f: &Fixture, r: Transaction)
    requires
        call_ensures(Fixture::action_remove_if_stake, (f,), r),
        f.wf(),
    ensures
        ({
            let liq = f.users@[0];
            &&& sent_by(r@, f.program_id, liq.authority())
            &&& writes(r@) == seq![
                f.spot_market_pda,
                f.if_stake_pda,
                liq.stats_pda,
                f.if_vault_pda,
                liq.token_account,
            ]
            &&& reads(r@) == seq![f.state_pda, liq.authority(), f.signer_pda, token_program_id()]
            &&& r@.instructions[0].accounts[4].is_signer
            &&& tag(r@) == D_REMOVE_IF_STAKE@
            &&& number(r@, 8, 2) == 0
            &&& r@.instructions[0].data.len() == 10
        }),
{
    let liq = f.users@[0];
    let i = r@.instructions[0];
    reveal_with_fuel(written, 11);
    reveal_with_fuel(consulted, 11);
    widths();
    spelled(D_REMOVE_IF_STAKE@, 0, 2, Seq::<u8>::empty());
    assert(i.data =~= D_REMOVE_IF_STAKE@ + le(0, 2) + Seq::<u8>::empty());
    assert(i.data.take(8) =~= D_REMOVE_IF_STAKE@);
}

// ---------------------------------------------------------------------------
// Deposits
// ---------------------------------------------------------------------------

/// A user deposits as much as it was asked to and its wallet holds, out of its wallet
/// into the quote vault; nothing where that is nothing.
pub proof fn users_deposit_what_they_can_pay(
    f: &Fixture,
    user_idx: usize,
    amount: u64,
    balance: u64,
    r: Option<Transaction>,
)
    requires
        call_ensures(Fixture::action_deposit, (f, user_idx, amount, balance), r),
        f.wf(),
        user_idx < 3,
    ensures
        r is Some <==> amount > 0 && balance > 0,
        r matches Some(t) ==> {
            let user = f.users@[user_idx as int];
            let paid = if amount <= balance { amount } else { balance };
            &&& sent_by(t@, f.program_id, user.authority())
            &&& writes(t@) == seq![
                user.user_pda,
                user.stats_pda,
                f.spot_vault_pda,
                user.token_account,
                f.spot_market_pda,
            ]
            &&& reads(t@) == seq![f.state_pda, user.authority(), token_program_id()]
            &&& t@.instructions[0].accounts[3].is_signer
            &&& tag(t@) == D_DEPOSIT@
            &&& number(t@, 8, 2) == 0
            &&& number(t@, 10, 8) == paid
            &&& t@.instructions[0].data[18] == 0u8
            &&& t@.instructions[0].data.len() == 19
        },
{
    if let Some(t) = r {
        let user = f.users@[user_idx as int];
        let paid = if amount <= balance { amount } else { balance };
        let i = t@.instructions[0];
        reveal_with_fuel(written, 10);
        reveal_with_fuel(consulted, 10);
        widths();
        spelled(D_DEPOSIT@, 0, 2, le(paid as int, 8) + seq![0u8]);
        spelled(D_DEPOSIT@ + le(0, 2), paid as int, 8, seq![0u8]);
        assert(i.data =~= D_DEPOSIT@ + le(0, 2) + (le(paid as int, 8) + seq![0u8]));
        assert(i.data =~= D_DEPOSIT@ + le(0, 2) + le(paid as int, 8) + (seq![0u8]));
        assert(i.data =~= D_DEPOSIT@ + le(0, 2) + le(paid as int, 8) + seq![0u8]);
        assert(i.data.take(8) =~= D_DEPOSIT@);
    }
}

/// The liquidator is the first user and the victim the third.
pub proof fn the_first_liquidates_the_third(f: &Fixture, r: (UserAcct, UserAcct))
    requires
        call_ensures(Fixture::liquidator_meta, (f,), r),
    ensures
        r.0 == f.users@[0],
        r.1 == f.users@[2],
{
}

} // verus!
