//! What the calls on spot markets and insurance may change, and who makes them.

use vstd::prelude::*;
use crate::call_laws::{
    complement, consulted, nobody_need_sign, number, reads, sent_by, spelled, tag, widths, writes,
    written,
};
use crate::discriminators::{
    D_ADD_IF_STAKE, D_BEGIN_SWAP, D_CANCEL_REQUEST_REMOVE_IF_STAKE, D_DEPOSIT_INTO_ISOLATED,
    D_DEPOSIT_INTO_REVENUE_POOL, D_END_SWAP, D_INITIALIZE_IF_STAKE, D_LIQUIDATE_BORROW_FOR_PERP_PNL,
    D_LIQUIDATE_SPOT, D_LIQUIDATE_SPOT_WITH_SWAP_BEGIN, D_LIQUIDATE_SPOT_WITH_SWAP_END,
    D_REMOVE_IF_STAKE, D_REQUEST_REMOVE_IF_STAKE, D_RESOLVE_PERP_BANKRUPTCY,
    D_RESOLVE_SPOT_BANKRUPTCY, D_SETTLE_REVENUE_TO_IF, D_SWEEP_PERP_MARKET_FEES,
    D_TRANSFER_ISOLATED_DEPOSIT, D_TRANSFER_POOLS, D_UPDATE_SPOT_MARKET_CUMULATIVE_INTEREST,
    D_UPDATE_USER_QUOTE_ASSET_IF_STAKE, D_WITHDRAW_FROM_ISOLATED, D_WITHDRAW_PROTOCOL_FEES_PERP,
    D_WITHDRAW_PROTOCOL_FEES_SPOT,
};
use crate::fixture::{addr, derivable, pda_key, Fixture};
use crate::keys::{compute_budget_program_id, AccountMeta, InstructionView};
use crate::programs::spl_transfer;
use crate::spot_actions::{pool_legs_of, reduce_tag, PoolLegs};
use crate::user_actions::signed;
use crate::wire::{le_round_trip, le_value};
use crate::keys::{
    associated_token_program_id, ata_of, instructions_sysvar_id, rent_sysvar_id, system_program_id,
    text, token_program_id, Pubkey, Transaction,
};
use crate::wire::{le, le_len, le_signed, opt};

verus! {

// ---------------------------------------------------------------------------
// Liquidation
// ---------------------------------------------------------------------------

/// The user after the one that is named liquidates a victim: it signs, both accounts
/// are written, its own before the victim's, and every market. It names the market it
/// seizes from, the market it repays in, and how much at most; and a limit price
/// where one is asked for.
pub proof fn liquidators_seize_deposits(
    f: &Fixture,
    victim_idx: usize,
    liq_idx: usize,
    asset_market_index: u16,
    liability_market_index: u16,
    max_liability_transfer: u64,
    with_limit_price: u8,
    limit_price: u64,
    r: Transaction,
)
    requires
        call_ensures(
            Fixture::action_liquidate_spot,
            (
                f,
                victim_idx,
                liq_idx,
                asset_market_index,
                liability_market_index,
                max_liability_transfer,
                with_limit_price,
                limit_price,
            ),
            r,
        ),
        f.wf(),
        victim_idx < 2,
        liq_idx < usize::MAX,
    ensures
        ({
            let victim = f.users@[victim_idx as int];
            let liq = f.users@[(liq_idx + 1) % 2];
            &&& sent_by(r@, f.program_id, liq.authority())
            &&& writes(r@) == seq![
                liq.user_pda,
                victim.user_pda,
                f.perp_oracle_pda,
                f.spot_1_oracle_pda,
                f.spot_market_pda,
                f.spot_market_1_pda,
                f.perp_market_pda,
            ]
            &&& reads(r@) == seq![f.state_pda, liq.authority(), liq.stats_pda]
            &&& r@.instructions[0].accounts[1].is_signer
            &&& tag(r@) == D_LIQUIDATE_SPOT@
            &&& number(r@, 8, 2) == asset_market_index
            &&& number(r@, 10, 2) == liability_market_index
            &&& number(r@, 12, 16) == max_liability_transfer
            &&& with_limit_price != 1
                    ==> r@.instructions[0].data[28] == 0 && r@.instructions[0].data.len() == 29
            &&& with_limit_price == 1
                    ==> r@.instructions[0].data[28] == 1 && number(r@, 29, 8) == limit_price
                    && r@.instructions[0].data.len() == 37
        }),
{
    let victim = f.users@[victim_idx as int];
    let liq = f.users@[(liq_idx + 1) % 2];
    let i = r@.instructions[0];
    reveal_with_fuel(written, 12);
    reveal_with_fuel(consulted, 12);
    widths();
    spelled(
        D_LIQUIDATE_SPOT@,
        asset_market_index as int,
        2,
        le(liability_market_index as int, 2) + le(max_liability_transfer as int, 16)
            + opt(with_limit_price == 1, le(limit_price as int, 8)),
    );
    spelled(
        D_LIQUIDATE_SPOT@ + le(asset_market_index as int, 2),
        liability_market_index as int,
        2,
        le(max_liability_transfer as int, 16) + opt(with_limit_price
            == 1, le(limit_price as int, 8)),
    );
    spelled(
        D_LIQUIDATE_SPOT@ + le(asset_market_index as int, 2) + le(liability_market_index as int, 2),
        max_liability_transfer as int,
        16,
        opt(with_limit_price == 1, le(limit_price as int, 8)),
    );
    le_len(limit_price as int, 8);
    assert(i.data =~= D_LIQUIDATE_SPOT@ + le(asset_market_index as int, 2)
        + (le(liability_market_index as int, 2) + le(max_liability_transfer as int, 16)
        + opt(with_limit_price == 1, le(limit_price as int, 8))));
    assert(i.data =~= D_LIQUIDATE_SPOT@ + le(asset_market_index as int, 2)
        + le(liability_market_index as int, 2) + (le(max_liability_transfer as int, 16)
        + opt(with_limit_price == 1, le(limit_price as int, 8))));
    assert(i.data =~= D_LIQUIDATE_SPOT@ + le(asset_market_index as int, 2)
        + le(liability_market_index as int, 2) + le(max_liability_transfer as int, 16)
        + (opt(with_limit_price == 1, le(limit_price as int, 8))));
    if with_limit_price == 1 {
        assert(i.data =~= D_LIQUIDATE_SPOT@ + le(asset_market_index as int, 2)
            + le(liability_market_index as int, 2) + le(max_liability_transfer as int, 16)
            + seq![1u8] + le(limit_price as int, 8));
        spelled(
            D_LIQUIDATE_SPOT@ + le(asset_market_index as int, 2)
                + le(liability_market_index as int, 2) + le(max_liability_transfer as int, 16)
                + seq![1u8],
            limit_price as int,
            8,
            Seq::<u8>::empty(),
        );
        assert(i.data =~= D_LIQUIDATE_SPOT@ + le(asset_market_index as int, 2)
            + le(liability_market_index as int, 2) + le(max_liability_transfer as int, 16)
            + seq![1u8] + le(limit_price as int, 8) + Seq::<u8>::empty());
    } else {
        assert(i.data =~= D_LIQUIDATE_SPOT@ + le(asset_market_index as int, 2)
            + le(liability_market_index as int, 2) + le(max_liability_transfer as int, 16)
            + seq![0u8]);
    }
    assert(i.data.take(8) =~= D_LIQUIDATE_SPOT@);
}

/// A borrow is settled against the victim's profit on perp market 0 in the same way;
/// both users' stats are written as well.
pub proof fn liquidators_take_profits(
    f: &Fixture,
    victim_idx: usize,
    liq_idx: usize,
    spot_market_index: u16,
    max_liability_transfer: u64,
    with_limit_price: u8,
    limit_price: u64,
    r: Transaction,
)
    requires
        call_ensures(
            Fixture::action_liquidate_borrow_for_perp_pnl,
            (
                f,
                victim_idx,
                liq_idx,
                spot_market_index,
                max_liability_transfer,
                with_limit_price,
                limit_price,
            ),
            r,
        ),
        f.wf(),
        victim_idx < 2,
        liq_idx < usize::MAX,
    ensures
        ({
            let victim = f.users@[victim_idx as int];
            let liq = f.users@[(liq_idx + 1) % 2];
            &&& sent_by(r@, f.program_id, liq.authority())
            &&& writes(r@) == seq![
                liq.user_pda,
                liq.stats_pda,
                victim.user_pda,
                victim.stats_pda,
                f.perp_oracle_pda,
                f.spot_1_oracle_pda,
                f.spot_market_pda,
                f.spot_market_1_pda,
                f.perp_market_pda,
            ]
            &&& reads(r@) == seq![f.state_pda, liq.authority()]
            &&& r@.instructions[0].accounts[1].is_signer
            &&& tag(r@) == D_LIQUIDATE_BORROW_FOR_PERP_PNL@
            &&& number(r@, 8, 2) == 0
            &&& number(r@, 10, 2) == spot_market_index
            &&& number(r@, 12, 16) == max_liability_transfer
            &&& with_limit_price != 1
                    ==> r@.instructions[0].data[28] == 0 && r@.instructions[0].data.len() == 29
            &&& with_limit_price == 1
                    ==> r@.instructions[0].data[28] == 1 && number(r@, 29, 8) == limit_price
                    && r@.instructions[0].data.len() == 37
        }),
{
    let victim = f.users@[victim_idx as int];
    let liq = f.users@[(liq_idx + 1) % 2];
    let i = r@.instructions[0];
    reveal_with_fuel(written, 13);
    reveal_with_fuel(consulted, 13);
    widths();
    spelled(
        D_LIQUIDATE_BORROW_FOR_PERP_PNL@,
        0,
        2,
        le(spot_market_index as int, 2) + le(max_liability_transfer as int, 16)
            + opt(with_limit_price == 1, le(limit_price as int, 8)),
    );
    spelled(
        D_LIQUIDATE_BORROW_FOR_PERP_PNL@ + le(0, 2),
        spot_market_index as int,
        2,
        le(max_liability_transfer as int, 16) + opt(with_limit_price
            == 1, le(limit_price as int, 8)),
    );
    spelled(
        D_LIQUIDATE_BORROW_FOR_PERP_PNL@ + le(0, 2) + le(spot_market_index as int, 2),
        max_liability_transfer as int,
        16,
        opt(with_limit_price == 1, le(limit_price as int, 8)),
    );
    le_len(limit_price as int, 8);
    assert(i.data =~= D_LIQUIDATE_BORROW_FOR_PERP_PNL@ + le(0, 2)
        + (le(spot_market_index as int, 2) + le(max_liability_transfer as int, 16)
        + opt(with_limit_price == 1, le(limit_price as int, 8))));
    assert(i.data =~= D_LIQUIDATE_BORROW_FOR_PERP_PNL@ + le(0, 2)
        + le(spot_market_index as int, 2) + (le(max_liability_transfer as int, 16)
        + opt(with_limit_price == 1, le(limit_price as int, 8))));
    assert(i.data =~= D_LIQUIDATE_BORROW_FOR_PERP_PNL@ + le(0, 2)
        + le(spot_market_index as int, 2) + le(max_liability_transfer as int, 16)
        + (opt(with_limit_price == 1, le(limit_price as int, 8))));
    if with_limit_price == 1 {
        assert(i.data =~= D_LIQUIDATE_BORROW_FOR_PERP_PNL@ + le(0, 2)
            + le(spot_market_index as int, 2) + le(max_liability_transfer as int, 16)
            + seq![1u8] + le(limit_price as int, 8));
        spelled(
            D_LIQUIDATE_BORROW_FOR_PERP_PNL@ + le(0, 2) + le(spot_market_index as int, 2)
                + le(max_liability_transfer as int, 16) + seq![1u8],
            limit_price as int,
            8,
            Seq::<u8>::empty(),
        );
        assert(i.data =~= D_LIQUIDATE_BORROW_FOR_PERP_PNL@ + le(0, 2)
            + le(spot_market_index as int, 2) + le(max_liability_transfer as int, 16)
            + seq![1u8] + le(limit_price as int, 8) + Seq::<u8>::empty());
    } else {
        assert(i.data =~= D_LIQUIDATE_BORROW_FOR_PERP_PNL@ + le(0, 2)
            + le(spot_market_index as int, 2) + le(max_liability_transfer as int, 16) + seq![0u8]);
    }
    assert(i.data.take(8) =~= D_LIQUIDATE_BORROW_FOR_PERP_PNL@);
}

/// A bankrupt's borrow is resolved by another user, who signs: out of the insurance
/// vault of the market that is named into that market's vault, in its token. Nobody
/// resolves itself.
pub proof fn bankrupt_borrows_are_resolved_by_another(
    f: &Fixture,
    victim_idx: usize,
    liq_idx: usize,
    market_index: u16,
    r: Option<Transaction>,
)
    requires
        call_ensures(
            Fixture::action_resolve_spot_bankruptcy,
            (f, victim_idx, liq_idx, market_index),
            r,
        ),
        f.wf(),
        victim_idx < 2,
        liq_idx < usize::MAX,
    ensures
        r is Some <==> f.users@[(liq_idx + 1) % 2].user_pda != f.users@[victim_idx as int].user_pda,
        r matches Some(t) ==> {
            let victim = f.users@[victim_idx as int];
            let liq = f.users@[(liq_idx + 1) % 2];
            let vault = if market_index == 1 { f.spot_vault_1_pda } else { f.spot_vault_pda };
            let if_vault = if market_index == 1 { f.if_vault_1_pda } else { f.if_vault_pda };
            let mint = if market_index == 1 { f.sol_mint } else { f.usdc_mint };
            &&& sent_by(t@, f.program_id, liq.authority())
            &&& writes(t@) == seq![
                liq.user_pda,
                liq.stats_pda,
                victim.user_pda,
                victim.stats_pda,
                vault,
                if_vault,
                f.perp_oracle_pda,
                f.spot_1_oracle_pda,
                f.spot_market_pda,
                f.spot_market_1_pda,
                f.perp_market_pda,
            ]
            &&& reads(t@) == seq![
                f.state_pda,
                liq.authority(),
                f.signer_pda,
                token_program_id(),
                mint,
            ]
            &&& t@.instructions[0].accounts[1].is_signer
            &&& tag(t@) == D_RESOLVE_SPOT_BANKRUPTCY@
            &&& number(t@, 8, 2) == market_index
            &&& t@.instructions[0].data.len() == 10
        },
{
    if let Some(t) = r {
        let victim = f.users@[victim_idx as int];
        let liq = f.users@[(liq_idx + 1) % 2];
        let vault = if market_index == 1 { f.spot_vault_1_pda } else { f.spot_vault_pda };
        let if_vault = if market_index == 1 { f.if_vault_1_pda } else { f.if_vault_pda };
        let mint = if market_index == 1 { f.sol_mint } else { f.usdc_mint };
        let i = t@.instructions[0];
        reveal_with_fuel(written, 18);
        reveal_with_fuel(consulted, 18);
        widths();
        spelled(D_RESOLVE_SPOT_BANKRUPTCY@, market_index as int, 2, Seq::<u8>::empty());
        assert(i.data =~= D_RESOLVE_SPOT_BANKRUPTCY@ + le(market_index as int, 2)
            + Seq::<u8>::empty());
        assert(i.data.take(8) =~= D_RESOLVE_SPOT_BANKRUPTCY@);
    }
}

/// A bankrupt's loss on perp market 0 is resolved in the same way, in the quote
/// market.
pub proof fn bankrupt_losses_are_resolved_in_the_quote_token(
    f: &Fixture,
    victim_idx: usize,
    liq_idx: usize,
    r: Option<Transaction>,
)
    requires
        call_ensures(Fixture::action_resolve_perp_bankruptcy, (f, victim_idx, liq_idx), r),
        f.wf(),
        victim_idx < 2,
        liq_idx < usize::MAX,
    ensures
        r is Some <==> f.users@[(liq_idx + 1) % 2].user_pda != f.users@[victim_idx as int].user_pda,
        r matches Some(t) ==> {
            let victim = f.users@[victim_idx as int];
            let liq = f.users@[(liq_idx + 1) % 2];
            &&& sent_by(t@, f.program_id, liq.authority())
            &&& writes(t@) == seq![
                liq.user_pda,
                liq.stats_pda,
                victim.user_pda,
                victim.stats_pda,
                f.spot_vault_pda,
                f.if_vault_pda,
                f.perp_oracle_pda,
                f.spot_1_oracle_pda,
                f.spot_market_pda,
                f.spot_market_1_pda,
                f.perp_market_pda,
            ]
            &&& reads(t@) == seq![
                f.state_pda,
                liq.authority(),
                f.signer_pda,
                token_program_id(),
                f.usdc_mint,
            ]
            &&& t@.instructions[0].accounts[1].is_signer
            &&& tag(t@) == D_RESOLVE_PERP_BANKRUPTCY@
            &&& number(t@, 8, 2) == 0
            &&& number(t@, 10, 2) == 0
            &&& t@.instructions[0].data.len() == 12
        },
{
    if let Some(t) = r {
        let victim = f.users@[victim_idx as int];
        let liq = f.users@[(liq_idx + 1) % 2];
        let i = t@.instructions[0];
        reveal_with_fuel(written, 18);
        reveal_with_fuel(consulted, 18);
        widths();
        spelled(D_RESOLVE_PERP_BANKRUPTCY@, 0, 2, le(0, 2));
        spelled(D_RESOLVE_PERP_BANKRUPTCY@ + le(0, 2), 0, 2, Seq::<u8>::empty());
        assert(i.data =~= D_RESOLVE_PERP_BANKRUPTCY@ + le(0, 2) + (le(0, 2)));
        assert(i.data =~= D_RESOLVE_PERP_BANKRUPTCY@ + le(0, 2) + le(0, 2) + Seq::<u8>::empty());
        assert(i.data.take(8) =~= D_RESOLVE_PERP_BANKRUPTCY@);
    }
}

// ---------------------------------------------------------------------------
// Isolated positions
// ---------------------------------------------------------------------------

/// An isolated deposit moves tokens out of the user's wallet into the vault of the
/// market it names, for the position in perp market 0.
pub proof fn isolated_deposits_come_from_the_wallet(
    f: &Fixture,
    user_idx: usize,
    spot_market_index: u16,
    amount: u64,
    r: Transaction,
)
    requires
        call_ensures(
            Fixture::action_deposit_into_isolated,
            (f, user_idx, spot_market_index, amount),
            r,
        ),
        f.wf(),
        user_idx < 2,
    ensures
        ({
            let user = f.users@[user_idx as int];
            let vault = if spot_market_index == 1 { f.spot_vault_1_pda } else { f.spot_vault_pda };
            let wallet = if spot_market_index == 1 {
                user.token_account_1
            } else {
                user.token_account
            };
            &&& sent_by(r@, f.program_id, user.authority())
            &&& writes(r@) == seq![
                user.user_pda,
                user.stats_pda,
                vault,
                wallet,
                f.perp_oracle_pda,
                f.spot_1_oracle_pda,
                f.spot_market_pda,
                f.spot_market_1_pda,
                f.perp_market_pda,
            ]
            &&& reads(r@) == seq![f.state_pda, user.authority(), token_program_id()]
            &&& r@.instructions[0].accounts[3].is_signer
            &&& tag(r@) == D_DEPOSIT_INTO_ISOLATED@
            &&& number(r@, 8, 2) == spot_market_index
            &&& number(r@, 10, 2) == 0
            &&& number(r@, 12, 8) == amount
            &&& r@.instructions[0].data.len() == 20
        }),
{
    let user = f.users@[user_idx as int];
    let vault = if spot_market_index == 1 { f.spot_vault_1_pda } else { f.spot_vault_pda };
    let wallet = if spot_market_index == 1 { user.token_account_1 } else { user.token_account };
    let i = r@.instructions[0];
    reveal_with_fuel(written, 14);
    reveal_with_fuel(consulted, 14);
    widths();
    spelled(D_DEPOSIT_INTO_ISOLATED@, spot_market_index as int, 2, le(0, 2) + le(amount as int, 8));
    spelled(D_DEPOSIT_INTO_ISOLATED@ + le(spot_market_index as int, 2), 0, 2, le(amount as int, 8));
    spelled(
        D_DEPOSIT_INTO_ISOLATED@ + le(spot_market_index as int, 2) + le(0, 2),
        amount as int,
        8,
        Seq::<u8>::empty(),
    );
    assert(i.data =~= D_DEPOSIT_INTO_ISOLATED@ + le(spot_market_index as int, 2) + (le(0, 2)
        + le(amount as int, 8)));
    assert(i.data =~= D_DEPOSIT_INTO_ISOLATED@ + le(spot_market_index as int, 2) + le(0, 2)
        + (le(amount as int, 8)));
    assert(i.data =~= D_DEPOSIT_INTO_ISOLATED@ + le(spot_market_index as int, 2) + le(0, 2)
        + le(amount as int, 8) + Seq::<u8>::empty());
    assert(i.data.take(8) =~= D_DEPOSIT_INTO_ISOLATED@);
}

/// An isolated withdrawal moves them back, by the exchange's own signer.
pub proof fn isolated_withdrawals_go_to_the_wallet(
    f: &Fixture,
    user_idx: usize,
    spot_market_index: u16,
    amount: u64,
    r: Transaction,
)
    requires
        call_ensures(
            Fixture::action_withdraw_from_isolated,
            (f, user_idx, spot_market_index, amount),
            r,
        ),
        f.wf(),
        user_idx < 2,
    ensures
        ({
            let user = f.users@[user_idx as int];
            let vault = if spot_market_index == 1 { f.spot_vault_1_pda } else { f.spot_vault_pda };
            let wallet = if spot_market_index == 1 {
                user.token_account_1
            } else {
                user.token_account
            };
            &&& sent_by(r@, f.program_id, user.authority())
            &&& writes(r@) == seq![
                user.user_pda,
                user.stats_pda,
                vault,
                wallet,
                f.perp_oracle_pda,
                f.spot_1_oracle_pda,
                f.spot_market_pda,
                f.spot_market_1_pda,
                f.perp_market_pda,
            ]
            &&& reads(r@) == seq![f.state_pda, user.authority(), f.signer_pda, token_program_id()]
            &&& r@.instructions[0].accounts[3].is_signer
            &&& tag(r@) == D_WITHDRAW_FROM_ISOLATED@
            &&& number(r@, 8, 2) == spot_market_index
            &&& number(r@, 10, 2) == 0
            &&& number(r@, 12, 8) == amount
            &&& r@.instructions[0].data.len() == 20
        }),
{
    let user = f.users@[user_idx as int];
    let vault = if spot_market_index == 1 { f.spot_vault_1_pda } else { f.spot_vault_pda };
    let wallet = if spot_market_index == 1 { user.token_account_1 } else { user.token_account };
    let i = r@.instructions[0];
    reveal_with_fuel(written, 15);
    reveal_with_fuel(consulted, 15);
    widths();
    spelled(
        D_WITHDRAW_FROM_ISOLATED@,
        spot_market_index as int,
        2,
        le(0, 2) + le(amount as int, 8),
    );
    spelled(
        D_WITHDRAW_FROM_ISOLATED@ + le(spot_market_index as int, 2),
        0,
        2,
        le(amount as int, 8),
    );
    spelled(
        D_WITHDRAW_FROM_ISOLATED@ + le(spot_market_index as int, 2) + le(0, 2),
        amount as int,
        8,
        Seq::<u8>::empty(),
    );
    assert(i.data =~= D_WITHDRAW_FROM_ISOLATED@ + le(spot_market_index as int, 2) + (le(0, 2)
        + le(amount as int, 8)));
    assert(i.data =~= D_WITHDRAW_FROM_ISOLATED@ + le(spot_market_index as int, 2) + le(0, 2)
        + (le(amount as int, 8)));
    assert(i.data =~= D_WITHDRAW_FROM_ISOLATED@ + le(spot_market_index as int, 2) + le(0, 2)
        + le(amount as int, 8) + Seq::<u8>::empty());
    assert(i.data.take(8) =~= D_WITHDRAW_FROM_ISOLATED@);
}

/// Collateral moves between the user's cross margin and its position in perp market 0
/// with no vault written: into the position with choice zero, as a positive number,
/// and back with any other, as a negative one in two's complement.
pub proof fn isolated_transfers_leave_the_vault_alone(
    f: &Fixture,
    user_idx: usize,
    spot_market_index: u16,
    direction: u8,
    amount: u64,
    r: Transaction,
)
    requires
        call_ensures(
            Fixture::action_transfer_isolated_deposit,
            (f, user_idx, spot_market_index, direction, amount),
            r,
        ),
        f.wf(),
        user_idx < 2,
        amount <= i64::MAX,
    ensures
        ({
            let user = f.users@[user_idx as int];
            let vault = if spot_market_index == 1 { f.spot_vault_1_pda } else { f.spot_vault_pda };
            &&& sent_by(r@, f.program_id, user.authority())
            &&& writes(r@) == seq![
                user.user_pda,
                user.stats_pda,
                f.perp_oracle_pda,
                f.spot_1_oracle_pda,
                f.spot_market_pda,
                f.spot_market_1_pda,
                f.perp_market_pda,
            ]
            &&& reads(r@) == seq![user.authority(), f.state_pda, vault]
            &&& r@.instructions[0].accounts[2].is_signer
            &&& tag(r@) == D_TRANSFER_ISOLATED_DEPOSIT@
            &&& number(r@, 8, 2) == spot_market_index
            &&& number(r@, 10, 2) == 0
            &&& number(r@, 12, 8) == complement(amount, direction != 0)
            &&& r@.instructions[0].data.len() == 20
        }),
{
    let user = f.users@[user_idx as int];
    let vault = if spot_market_index == 1 { f.spot_vault_1_pda } else { f.spot_vault_pda };
    let i = r@.instructions[0];
    reveal_with_fuel(written, 12);
    reveal_with_fuel(consulted, 12);
    widths();
    spelled(
        D_TRANSFER_ISOLATED_DEPOSIT@,
        spot_market_index as int,
        2,
        le(0, 2) + le_signed(signed(amount, direction != 0), 8),
    );
    spelled(
        D_TRANSFER_ISOLATED_DEPOSIT@ + le(spot_market_index as int, 2),
        0,
        2,
        le_signed(signed(amount, direction != 0), 8),
    );
    spelled(
        D_TRANSFER_ISOLATED_DEPOSIT@ + le(spot_market_index as int, 2) + le(0, 2),
        complement(amount, direction != 0),
        8,
        Seq::<u8>::empty(),
    );
    assert(i.data =~= D_TRANSFER_ISOLATED_DEPOSIT@ + le(spot_market_index as int, 2)
        + (le(0, 2) + le_signed(signed(amount, direction != 0), 8)));
    assert(i.data =~= D_TRANSFER_ISOLATED_DEPOSIT@ + le(spot_market_index as int, 2)
        + le(0, 2) + (le_signed(signed(amount, direction != 0), 8)));
    assert(i.data =~= D_TRANSFER_ISOLATED_DEPOSIT@ + le(spot_market_index as int, 2)
        + le(0, 2) + le(complement(amount, direction != 0), 8) + Seq::<u8>::empty());
    assert(i.data.take(8) =~= D_TRANSFER_ISOLATED_DEPOSIT@);
}

// ---------------------------------------------------------------------------
// Insurance
// ---------------------------------------------------------------------------

/// A stake is opened by its owner, who signs and pays; the market is only read. There
/// is one wherever its address can be derived, as for every call on a stake.
pub proof fn stakes_are_opened_by_their_owner(
    f: &Fixture,
    user_idx: usize,
    market_index: u16,
    r: Option<Transaction>,
)
    requires
        call_ensures(Fixture::action_initialize_if_stake, (f, user_idx, market_index), r),
        f.wf(),
        user_idx < 2,
    ensures
        r is Some <==> derivable(
            seq![text("insurance_fund_stake"), f.users@[user_idx as int].authority().bytes@, le(0, 2)],
            f.program_id,
        ),
        r matches Some(t) ==> {
            let user = f.users@[user_idx as int];
            let stake = pda_key(
                seq![text("insurance_fund_stake"), user.authority().bytes@, le(0, 2)],
                f.program_id,
            );
            &&& sent_by(t@, f.program_id, user.authority())
            &&& writes(t@) == seq![stake, user.stats_pda, user.authority()]
            &&& reads(t@) == seq![
                f.spot_market_pda,
                f.state_pda,
                user.authority(),
                rent_sysvar_id(),
                system_program_id(),
            ]
            &&& t@.instructions[0].accounts[4].is_signer
            &&& tag(t@) == D_INITIALIZE_IF_STAKE@
            &&& number(t@, 8, 2) == market_index
            &&& t@.instructions[0].data.len() == 10
        },
{
    if let Some(t) = r {
        let user = f.users@[user_idx as int];
        let stake = pda_key(
            seq![text("insurance_fund_stake"), user.authority().bytes@, le(0, 2)],
            f.program_id,
        );
        let i = t@.instructions[0];
        reveal_with_fuel(written, 10);
        reveal_with_fuel(consulted, 10);
        widths();
        spelled(D_INITIALIZE_IF_STAKE@, market_index as int, 2, Seq::<u8>::empty());
        assert(i.data =~= D_INITIALIZE_IF_STAKE@ + le(market_index as int, 2) + Seq::<u8>::empty());
        assert(i.data.take(8) =~= D_INITIALIZE_IF_STAKE@);
    }
}

/// A stake in the quote market is paid out of the owner's wallet into the insurance
/// vault, with revenue settled from the market's vault first.
pub proof fn stakes_are_paid_from_the_wallet(
    f: &Fixture,
    user_idx: usize,
    amount: u64,
    r: Option<Transaction>,
)
    requires
        call_ensures(Fixture::action_add_if_stake, (f, user_idx, amount), r),
        f.wf(),
        user_idx < 2,
    ensures
        r is Some <==> derivable(
            seq![text("insurance_fund_stake"), f.users@[user_idx as int].authority().bytes@, le(0, 2)],
            f.program_id,
        ),
        r matches Some(t) ==> {
            let user = f.users@[user_idx as int];
            let stake = pda_key(
                seq![text("insurance_fund_stake"), user.authority().bytes@, le(0, 2)],
                f.program_id,
            );
            &&& sent_by(t@, f.program_id, user.authority())
            &&& writes(t@) == seq![
                f.spot_market_pda,
                stake,
                user.stats_pda,
                f.spot_vault_pda,
                f.if_vault_pda,
                user.token_account,
            ]
            &&& reads(t@) == seq![f.state_pda, user.authority(), f.signer_pda, token_program_id()]
            &&& t@.instructions[0].accounts[4].is_signer
            &&& tag(t@) == D_ADD_IF_STAKE@
            &&& number(t@, 8, 2) == 0
            &&& number(t@, 10, 8) == amount
            &&& t@.instructions[0].data.len() == 18
        },
{
    if let Some(t) = r {
        let user = f.users@[user_idx as int];
        let stake = pda_key(
            seq![text("insurance_fund_stake"), user.authority().bytes@, le(0, 2)],
            f.program_id,
        );
        let i = t@.instructions[0];
        reveal_with_fuel(written, 12);
        reveal_with_fuel(consulted, 12);
        widths();
        spelled(D_ADD_IF_STAKE@, 0, 2, le(amount as int, 8));
        spelled(D_ADD_IF_STAKE@ + le(0, 2), amount as int, 8, Seq::<u8>::empty());
        assert(i.data =~= D_ADD_IF_STAKE@ + le(0, 2) + (le(amount as int, 8)));
        assert(i.data =~= D_ADD_IF_STAKE@ + le(0, 2) + le(amount as int, 8) + Seq::<u8>::empty());
        assert(i.data.take(8) =~= D_ADD_IF_STAKE@);
    }
}

/// An unstake is asked for by an amount; no wallet is touched yet.
pub proof fn unstakes_are_asked_for(
    f: &Fixture,
    user_idx: usize,
    amount: u64,
    r: Option<Transaction>,
)
    requires
        call_ensures(Fixture::action_request_remove_if_stake, (f, user_idx, amount), r),
        f.wf(),
        user_idx < 2,
    ensures
        r is Some <==> derivable(
            seq![text("insurance_fund_stake"), f.users@[user_idx as int].authority().bytes@, le(0, 2)],
            f.program_id,
        ),
        r matches Some(t) ==> {
            let user = f.users@[user_idx as int];
            let stake = pda_key(
                seq![text("insurance_fund_stake"), user.authority().bytes@, le(0, 2)],
                f.program_id,
            );
            &&& sent_by(t@, f.program_id, user.authority())
            &&& writes(t@) == seq![
                f.spot_market_pda,
                stake,
                user.stats_pda,
                f.spot_vault_pda,
                f.if_vault_pda,
            ]
            &&& reads(t@) == seq![f.state_pda, user.authority(), f.signer_pda, token_program_id()]
            &&& t@.instructions[0].accounts[4].is_signer
            &&& tag(t@) == D_REQUEST_REMOVE_IF_STAKE@
            &&& number(t@, 8, 2) == 0
            &&& number(t@, 10, 8) == amount
            &&& t@.instructions[0].data.len() == 18
        },
{
    if let Some(t) = r {
        let user = f.users@[user_idx as int];
        let stake = pda_key(
            seq![text("insurance_fund_stake"), user.authority().bytes@, le(0, 2)],
            f.program_id,
        );
        let i = t@.instructions[0];
        reveal_with_fuel(written, 11);
        reveal_with_fuel(consulted, 11);
        widths();
        spelled(D_REQUEST_REMOVE_IF_STAKE@, 0, 2, le(amount as int, 8));
        spelled(D_REQUEST_REMOVE_IF_STAKE@ + le(0, 2), amount as int, 8, Seq::<u8>::empty());
        assert(i.data =~= D_REQUEST_REMOVE_IF_STAKE@ + le(0, 2) + (le(amount as int, 8)));
        assert(i.data =~= D_REQUEST_REMOVE_IF_STAKE@ + le(0, 2) + le(amount as int, 8)
            + Seq::<u8>::empty());
        assert(i.data.take(8) =~= D_REQUEST_REMOVE_IF_STAKE@);
    }
}

/// An unstake is called off with nothing but the market's number.
pub proof fn unstakes_are_called_off(f: &Fixture, user_idx: usize, r: Option<Transaction>)
    requires
        call_ensures(Fixture::action_cancel_request_remove_if_stake, (f, user_idx), r),
        f.wf(),
        user_idx < 2,
    ensures
        r is Some <==> derivable(
            seq![text("insurance_fund_stake"), f.users@[user_idx as int].authority().bytes@, le(0, 2)],
            f.program_id,
        ),
        r matches Some(t) ==> {
            let user = f.users@[user_idx as int];
            let stake = pda_key(
                seq![text("insurance_fund_stake"), user.authority().bytes@, le(0, 2)],
                f.program_id,
            );
            &&& sent_by(t@, f.program_id, user.authority())
            &&& writes(t@) == seq![f.spot_market_pda, stake, user.stats_pda, f.if_vault_pda]
            &&& reads(t@) == seq![user.authority()]
            &&& t@.instructions[0].accounts[3].is_signer
            &&& tag(t@) == D_CANCEL_REQUEST_REMOVE_IF_STAKE@
            &&& number(t@, 8, 2) == 0
            &&& t@.instructions[0].data.len() == 10
        },
{
    if let Some(t) = r {
        let user = f.users@[user_idx as int];
        let stake = pda_key(
            seq![text("insurance_fund_stake"), user.authority().bytes@, le(0, 2)],
            f.program_id,
        );
        let i = t@.instructions[0];
        reveal_with_fuel(written, 7);
        reveal_with_fuel(consulted, 7);
        widths();
        spelled(D_CANCEL_REQUEST_REMOVE_IF_STAKE@, 0, 2, Seq::<u8>::empty());
        assert(i.data =~= D_CANCEL_REQUEST_REMOVE_IF_STAKE@ + le(0, 2) + Seq::<u8>::empty());
        assert(i.data.take(8) =~= D_CANCEL_REQUEST_REMOVE_IF_STAKE@);
    }
}

/// A served unstake is paid out of the insurance vault into the owner's wallet, by
/// the exchange's own signer; the market's vault is not touched.
pub proof fn unstakes_are_paid_to_the_wallet(f: &Fixture, user_idx: usize, r: Option<Transaction>)
    requires
        call_ensures(Fixture::action_remove_if_stake, (f, user_idx), r),
        f.wf(),
        user_idx < 2,
    ensures
        r is Some <==> derivable(
            seq![text("insurance_fund_stake"), f.users@[user_idx as int].authority().bytes@, le(0, 2)],
            f.program_id,
        ),
        r matches Some(t) ==> {
            let user = f.users@[user_idx as int];
            let stake = pda_key(
                seq![text("insurance_fund_stake"), user.authority().bytes@, le(0, 2)],
                f.program_id,
            );
            &&& sent_by(t@, f.program_id, user.authority())
            &&& writes(t@) == seq![
                f.spot_market_pda,
                stake,
                user.stats_pda,
                f.if_vault_pda,
                user.token_account,
            ]
            &&& reads(t@) == seq![f.state_pda, user.authority(), f.signer_pda, token_program_id()]
            &&& t@.instructions[0].accounts[4].is_signer
            &&& tag(t@) == D_REMOVE_IF_STAKE@
            &&& number(t@, 8, 2) == 0
            &&& t@.instructions[0].data.len() == 10
        },
{
    if let Some(t) = r {
        let user = f.users@[user_idx as int];
        let stake = pda_key(
            seq![text("insurance_fund_stake"), user.authority().bytes@, le(0, 2)],
            f.program_id,
        );
        let i = t@.instructions[0];
        reveal_with_fuel(written, 11);
        reveal_with_fuel(consulted, 11);
        widths();
        spelled(D_REMOVE_IF_STAKE@, 0, 2, Seq::<u8>::empty());
        assert(i.data =~= D_REMOVE_IF_STAKE@ + le(0, 2) + Seq::<u8>::empty());
        assert(i.data.take(8) =~= D_REMOVE_IF_STAKE@);
    }
}

/// The crank has a user's stats learn of its stake; the user does not sign.
pub proof fn the_crank_counts_stakes(f: &Fixture, user_idx: usize, r: Option<Transaction>)
    requires
        call_ensures(Fixture::action_update_user_quote_asset_if_stake, (f, user_idx), r),
        f.wf(),
        user_idx < 2,
    ensures
        r is Some <==> derivable(
            seq![text("insurance_fund_stake"), f.users@[user_idx as int].authority().bytes@, le(0, 2)],
            f.program_id,
        ),
        r matches Some(t) ==> {
            let user = f.users@[user_idx as int];
            let stake = pda_key(
                seq![text("insurance_fund_stake"), user.authority().bytes@, le(0, 2)],
                f.program_id,
            );
            &&& sent_by(t@, f.program_id, addr(f.crank))
            &&& writes(t@) == seq![f.spot_market_pda, stake, user.stats_pda, f.if_vault_pda]
            &&& reads(t@) == seq![f.state_pda, addr(f.crank)]
            &&& t@.instructions[0].accounts[4].is_signer
            &&& tag(t@) == D_UPDATE_USER_QUOTE_ASSET_IF_STAKE@
            &&& t@.instructions[0].data.len() == 8
        },
{
    if let Some(t) = r {
        let user = f.users@[user_idx as int];
        let stake = pda_key(
            seq![text("insurance_fund_stake"), user.authority().bytes@, le(0, 2)],
            f.program_id,
        );
        let i = t@.instructions[0];
        reveal_with_fuel(written, 8);
        reveal_with_fuel(consulted, 8);
        widths();
        assert(i.data.take(8) =~= D_UPDATE_USER_QUOTE_ASSET_IF_STAKE@);
    }
}

/// A donation moves tokens out of the donor's quote wallet into the quote vault; the
/// donor signs.
pub proof fn donations_come_from_the_wallet(
    f: &Fixture,
    user_idx: usize,
    amount: u64,
    r: Transaction,
)
    requires
        call_ensures(Fixture::action_deposit_into_revenue_pool, (f, user_idx, amount), r),
        f.wf(),
        user_idx < 2,
    ensures
        ({
            let user = f.users@[user_idx as int];
            &&& sent_by(r@, f.program_id, user.authority())
            &&& writes(r@) == seq![
                f.spot_market_pda,
                user.authority(),
                f.spot_vault_pda,
                user.token_account,
            ]
            &&& reads(r@) == seq![f.state_pda, token_program_id()]
            &&& r@.instructions[0].accounts[2].is_signer
            &&& tag(r@) == D_DEPOSIT_INTO_REVENUE_POOL@
            &&& number(r@, 8, 8) == amount
            &&& r@.instructions[0].data.len() == 16
        }),
{
    let user = f.users@[user_idx as int];
    let i = r@.instructions[0];
    reveal_with_fuel(written, 8);
    reveal_with_fuel(consulted, 8);
    widths();
    spelled(D_DEPOSIT_INTO_REVENUE_POOL@, amount as int, 8, Seq::<u8>::empty());
    assert(i.data =~= D_DEPOSIT_INTO_REVENUE_POOL@ + le(amount as int, 8) + Seq::<u8>::empty());
    assert(i.data.take(8) =~= D_DEPOSIT_INTO_REVENUE_POOL@);
}

/// Anyone may have the quote market's revenue moved from its vault to its insurance
/// vault, by the exchange's own signer.
pub proof fn revenue_goes_to_the_insurance_vault(f: &Fixture, market_index: u16, r: Transaction)
    requires
        call_ensures(Fixture::action_settle_revenue_to_if, (f, market_index), r),
    ensures
        ({
            &&& sent_by(r@, f.program_id, addr(f.crank))
            &&& writes(r@) == seq![f.spot_market_pda, f.spot_vault_pda, f.if_vault_pda]
            &&& reads(r@) == seq![f.state_pda, f.signer_pda, token_program_id()]
            &&& nobody_need_sign(r@)
            &&& tag(r@) == D_SETTLE_REVENUE_TO_IF@
            &&& number(r@, 8, 2) == market_index
            &&& r@.instructions[0].data.len() == 10
        }),
{
    let i = r@.instructions[0];
    reveal_with_fuel(written, 8);
    reveal_with_fuel(consulted, 8);
    widths();
    spelled(D_SETTLE_REVENUE_TO_IF@, market_index as int, 2, Seq::<u8>::empty());
    assert(i.data =~= D_SETTLE_REVENUE_TO_IF@ + le(market_index as int, 2) + Seq::<u8>::empty());
    assert(i.data.take(8) =~= D_SETTLE_REVENUE_TO_IF@);
}

/// Anyone may have the perp market's fees swept: both markets are written, the perp
/// market first, and the oracle is only read.
pub proof fn fees_are_swept_into_the_quote_market(f: &Fixture, market_index: u16, r: Transaction)
    requires
        call_ensures(Fixture::action_sweep_perp_market_fees, (f, market_index), r),
    ensures
        ({
            &&& sent_by(r@, f.program_id, addr(f.crank))
            &&& writes(r@) == seq![f.perp_market_pda, f.spot_market_pda]
            &&& reads(r@) == seq![f.state_pda, f.perp_oracle_pda]
            &&& nobody_need_sign(r@)
            &&& tag(r@) == D_SWEEP_PERP_MARKET_FEES@
            &&& number(r@, 8, 2) == market_index
            &&& r@.instructions[0].data.len() == 10
        }),
{
    let i = r@.instructions[0];
    reveal_with_fuel(written, 6);
    reveal_with_fuel(consulted, 6);
    widths();
    spelled(D_SWEEP_PERP_MARKET_FEES@, market_index as int, 2, Seq::<u8>::empty());
    assert(i.data =~= D_SWEEP_PERP_MARKET_FEES@ + le(market_index as int, 2) + Seq::<u8>::empty());
    assert(i.data.take(8) =~= D_SWEEP_PERP_MARKET_FEES@);
}

/// Anyone may have the quote market's interest accrued: it has no oracle, and its
/// vault is only read.
pub proof fn anyone_may_accrue_quote_interest(f: &Fixture, r: Transaction)
    requires
        call_ensures(Fixture::action_update_spot_market_cumulative_interest, (f,), r),
    ensures
        ({
            &&& sent_by(r@, f.program_id, addr(f.crank))
            &&& writes(r@) == seq![f.spot_market_pda]
            &&& reads(r@) == seq![f.state_pda, system_program_id(), f.spot_vault_pda]
            &&& nobody_need_sign(r@)
            &&& tag(r@) == D_UPDATE_SPOT_MARKET_CUMULATIVE_INTEREST@
            &&& r@.instructions[0].data.len() == 8
        }),
{
    let i = r@.instructions[0];
    reveal_with_fuel(written, 6);
    reveal_with_fuel(consulted, 6);
    widths();
    assert(i.data.take(8) =~= D_UPDATE_SPOT_MARKET_CUMULATIVE_INTEREST@);
}

/// The protocol's cut of a spot market goes from that market's vault to the crank's
/// own account for that market's token; the crank signs.
pub proof fn spot_fees_go_to_the_keepers_account(
    f: &Fixture,
    market_index: u16,
    amount: u64,
    r: Option<Transaction>,
)
    requires
        call_ensures(Fixture::action_withdraw_protocol_fees_spot, (f, market_index, amount), r),
        f.wf(),
    ensures
        r matches Some(t) ==> {
            let crank = addr(f.crank);
            let market = if market_index == 1 { f.spot_market_1_pda } else { f.spot_market_pda };
            let vault = if market_index == 1 { f.spot_vault_1_pda } else { f.spot_vault_pda };
            let mint = if market_index == 1 { f.sol_mint } else { f.usdc_mint };
            &&& sent_by(t@, f.program_id, crank)
            &&& writes(t@) == seq![crank, market, vault, (ata_of(crank, mint)->0).0]
            &&& reads(t@) == seq![
                f.state_pda,
                crank,
                mint,
                crank,
                token_program_id(),
                f.signer_pda,
                system_program_id(),
                associated_token_program_id(),
            ]
            &&& t@.instructions[0].accounts[1].is_signer
            &&& tag(t@) == D_WITHDRAW_PROTOCOL_FEES_SPOT@
            &&& number(t@, 8, 2) == market_index
            &&& number(t@, 10, 8) == amount
            &&& t@.instructions[0].data.len() == 18
        },
{
    if let Some(t) = r {
        let crank = addr(f.crank);
        let market = if market_index == 1 { f.spot_market_1_pda } else { f.spot_market_pda };
        let vault = if market_index == 1 { f.spot_vault_1_pda } else { f.spot_vault_pda };
        let mint = if market_index == 1 { f.sol_mint } else { f.usdc_mint };
        let i = t@.instructions[0];
        reveal_with_fuel(written, 14);
        reveal_with_fuel(consulted, 14);
        widths();
        spelled(D_WITHDRAW_PROTOCOL_FEES_SPOT@, market_index as int, 2, le(amount as int, 8));
        spelled(
            D_WITHDRAW_PROTOCOL_FEES_SPOT@ + le(market_index as int, 2),
            amount as int,
            8,
            Seq::<u8>::empty(),
        );
        assert(i.data =~= D_WITHDRAW_PROTOCOL_FEES_SPOT@ + le(market_index as int, 2)
            + (le(amount as int, 8)));
        assert(i.data =~= D_WITHDRAW_PROTOCOL_FEES_SPOT@ + le(market_index as int, 2)
            + le(amount as int, 8) + Seq::<u8>::empty());
        assert(i.data.take(8) =~= D_WITHDRAW_PROTOCOL_FEES_SPOT@);
    }
}

/// The protocol's cut of the perp market goes from the quote vault to the crank's own
/// account for the quote token.
pub proof fn perp_fees_go_to_the_keepers_account(f: &Fixture, amount: u64, r: Option<Transaction>)
    requires
        call_ensures(Fixture::action_withdraw_protocol_fees_perp, (f, amount), r),
    ensures
        r matches Some(t) ==> {
            let crank = addr(f.crank);
            &&& sent_by(t@, f.program_id, crank)
            &&& writes(t@) == seq![
                crank,
                f.perp_market_pda,
                f.spot_market_pda,
                f.spot_vault_pda,
                (ata_of(crank, f.usdc_mint)->0).0,
            ]
            &&& reads(t@) == seq![
                f.state_pda,
                crank,
                f.usdc_mint,
                crank,
                token_program_id(),
                f.signer_pda,
                system_program_id(),
                associated_token_program_id(),
            ]
            &&& t@.instructions[0].accounts[1].is_signer
            &&& tag(t@) == D_WITHDRAW_PROTOCOL_FEES_PERP@
            &&& number(t@, 8, 2) == 0
            &&& number(t@, 10, 8) == amount
            &&& t@.instructions[0].data.len() == 18
        },
{
    if let Some(t) = r {
        let crank = addr(f.crank);
        let i = t@.instructions[0];
        reveal_with_fuel(written, 15);
        reveal_with_fuel(consulted, 15);
        widths();
        spelled(D_WITHDRAW_PROTOCOL_FEES_PERP@, 0, 2, le(amount as int, 8));
        spelled(D_WITHDRAW_PROTOCOL_FEES_PERP@ + le(0, 2), amount as int, 8, Seq::<u8>::empty());
        assert(i.data =~= D_WITHDRAW_PROTOCOL_FEES_PERP@ + le(0, 2) + (le(amount as int, 8)));
        assert(i.data =~= D_WITHDRAW_PROTOCOL_FEES_PERP@ + le(0, 2) + le(amount as int, 8)
            + Seq::<u8>::empty());
        assert(i.data.take(8) =~= D_WITHDRAW_PROTOCOL_FEES_PERP@);
    }
}

// ---------------------------------------------------------------------------
// Swaps and migrations
// ---------------------------------------------------------------------------

/// What an instruction may write.
pub open spec fn ix_writes(i: InstructionView) -> Seq<Pubkey> {
    written(i.accounts, i.accounts.len())
}

/// What an instruction only reads.
pub open spec fn ix_reads(i: InstructionView) -> Seq<Pubkey> {
    consulted(i.accounts, i.accounts.len())
}

/// A transfer of tokens between two wallets, by their owner's word.
pub open spec fn pays(
    i: InstructionView,
    from: Pubkey,
    to: Pubkey,
    owner: Pubkey,
    amount: u64,
) -> bool {
    &&& i.program_id == token_program_id()
    &&& ix_writes(i) == seq![from, to]
    &&& ix_reads(i) == seq![owner]
    &&& i.accounts[2].is_signer
    &&& i.data.len() == 9 && i.data[0] == 3
    &&& le_value(i.data.subrange(1, 9)) == amount
}

proof fn transfers_pay(from: Pubkey, to: Pubkey, owner: Pubkey, amount: u64)
    ensures
        pays(spl_transfer(from, to, owner, amount), from, to, owner, amount),
{
    let i = spl_transfer(from, to, owner, amount);
    reveal_with_fuel(written, 5);
    reveal_with_fuel(consulted, 5);
    widths();
    spelled(seq![3u8], amount as int, 8, Seq::<u8>::empty());
    assert(i.data =~= seq![3u8] + le(amount as int, 8) + Seq::<u8>::empty());
    assert(seq![3u8].len() == 1);
    assert(i.data.subrange(1, 9) =~= le(amount as int, 8));
    assert(ix_writes(i) =~= seq![from, to]);
    assert(ix_reads(i) =~= seq![owner]);
    le_round_trip(amount as int, 8);
}

/// A swap is three steps in one transaction: the exchange hands the user what it
/// gives, the other user pays what the user takes, and the exchange takes that in.
/// What is taken comes into the taken market's wallet and vault; both legs touch the
/// same accounts and name both markets, the given one first. A market is not swapped
/// for itself.
pub proof fn swaps_are_paid_between_their_legs(
    f: &Fixture,
    user_idx: usize,
    in_market_index: u16,
    out_market_index: u16,
    amount_in: u64,
    amount_out: u64,
    with_limit_price: u8,
    limit_price: u64,
    reduce_only: u8,
    r: Option<Transaction>,
)
    requires
        call_ensures(
            Fixture::action_swap,
            (
                f,
                user_idx,
                in_market_index,
                out_market_index,
                amount_in,
                amount_out,
                with_limit_price,
                limit_price,
                reduce_only,
            ),
            r,
        ),
        f.wf(),
        user_idx < 2,
    ensures
        r is None <==> in_market_index == out_market_index,
        r matches Some(t) ==> {
            let user = f.users@[user_idx as int];
            let other = f.users@[1 - user_idx];
            let open = t@.instructions[0];
            let close = t@.instructions[2];
            let given_vault = if in_market_index == 1 { f.spot_vault_1_pda } else { f.spot_vault_pda };
            let taken_vault = if out_market_index == 1 { f.spot_vault_1_pda } else { f.spot_vault_pda };
            let given_wallet = if in_market_index == 1 { user.token_account_1 } else { user.token_account };
            let taken_wallet = if out_market_index == 1 { user.token_account_1 } else { user.token_account };
            let paying = if out_market_index == 1 { other.token_account_1 } else { other.token_account };
            &&& t@.instructions.len() == 3
            &&& t@.signers == seq![user.authority(), other.authority()]
            &&& pays(t@.instructions[1], paying, taken_wallet, other.authority(), amount_out)
            &&& open.program_id == f.program_id && close.program_id == f.program_id
            &&& open.accounts == close.accounts
            &&& open.accounts[3].is_signer
            &&& ix_writes(open) == seq![
                user.user_pda,
                user.stats_pda,
                taken_vault,
                given_vault,
                taken_wallet,
                given_wallet,
                f.perp_oracle_pda,
                f.spot_1_oracle_pda,
                f.spot_market_pda,
                f.spot_market_1_pda,
                f.perp_market_pda,
            ]
            &&& ix_reads(open) == seq![
                f.state_pda,
                user.authority(),
                token_program_id(),
                f.signer_pda,
                instructions_sysvar_id(),
            ]
            &&& open.data.take(8) == D_BEGIN_SWAP@ && close.data.take(8) == D_END_SWAP@
            &&& le_value(open.data.subrange(8, 10)) == in_market_index
            &&& le_value(open.data.subrange(10, 12)) == out_market_index
            &&& le_value(open.data.subrange(12, 20)) == amount_in
            &&& open.data.len() == 20
            &&& close.data.subrange(8, 12) == open.data.subrange(8, 12)
            &&& with_limit_price == 1 <==> close.data[12] == 1
            &&& with_limit_price != 1 <==> close.data[12] == 0
            &&& with_limit_price == 1 ==> le_value(close.data.subrange(13, 21)) == limit_price
            &&& reduce_only == 0 ==> close.data.last() == 0
            &&& reduce_only > 0 ==> close.data[close.data.len() - 2] == 1 && close.data.last()
                == reduce_only - 1
            &&& close.data.len() == 14 + (if with_limit_price == 1 { 8int } else { 0 }) + (
            if reduce_only > 0 { 1int } else { 0 })
        },
{
    if let Some(t) = r {
        let user = f.users@[user_idx as int];
        let other = f.users@[1 - user_idx];
        let open = t@.instructions[0];
        let close = t@.instructions[2];
        reveal_with_fuel(written, 18);
        reveal_with_fuel(consulted, 18);
        widths();
        transfers_pay(
            f.side(out_market_index, other).wallet,
            f.side(out_market_index, user).wallet,
            other.authority(),
            amount_out,
        );
        let a = le(in_market_index as int, 2);
        let b = le(out_market_index as int, 2);
        let c = le(amount_in as int, 8);
        spelled(D_BEGIN_SWAP@, in_market_index as int, 2, b + c);
        spelled(D_BEGIN_SWAP@ + a, out_market_index as int, 2, c);
        spelled(D_BEGIN_SWAP@ + a + b, amount_in as int, 8, Seq::<u8>::empty());
        assert(open.data =~= D_BEGIN_SWAP@ + a + (b + c));
        assert(open.data =~= D_BEGIN_SWAP@ + a + b + c);
        assert(open.data =~= D_BEGIN_SWAP@ + a + b + c + Seq::<u8>::empty());
        assert(open.data.take(8) =~= D_BEGIN_SWAP@);
        assert(close.data.take(8) =~= D_END_SWAP@);
        assert(close.data.subrange(8, 12) =~= a + b);
        assert(open.data.subrange(8, 12) =~= a + b);
        let tail = opt(reduce_only > 0, seq![reduce_tag(reduce_only)]);
        let p = le(limit_price as int, 8);
        spelled(D_END_SWAP@ + a + b + seq![1u8], limit_price as int, 8, tail);
        if with_limit_price == 1 {
            assert(close.data =~= D_END_SWAP@ + a + b + seq![1u8] + p + tail);
        } else {
            assert(close.data =~= D_END_SWAP@ + a + b + seq![0u8] + tail);
        }
    }
}

/// A liquidation through a swap: the exchange hands the liquidator the seized asset,
/// the user after it pays the liability into the liquidator's wallet, and the
/// exchange takes that in. Both legs touch the same accounts and name both markets,
/// the asset first.
pub proof fn swap_liquidations_are_paid_between_their_legs(
    f: &Fixture,
    victim_idx: usize,
    liq_idx: usize,
    asset_market_index: u16,
    liability_market_index: u16,
    swap_amount: u64,
    r: Transaction,
)
    requires
        call_ensures(
            Fixture::action_liquidate_spot_with_swap,
            (
                f,
                victim_idx,
                liq_idx,
                asset_market_index,
                liability_market_index,
                swap_amount,
            ),
            r,
        ),
        f.wf(),
        victim_idx < 2,
        liq_idx < usize::MAX - 1,
    ensures
        ({
            let victim = f.users@[victim_idx as int];
            let liq = f.users@[(liq_idx + 1) % 2];
            let other = f.users@[(liq_idx + 2) % 2];
            let open = r@.instructions[0];
            let close = r@.instructions[2];
            let asset_vault = if asset_market_index == 1 { f.spot_vault_1_pda } else { f.spot_vault_pda };
            let owed_vault = if liability_market_index == 1 { f.spot_vault_1_pda } else { f.spot_vault_pda };
            let asset_wallet = if asset_market_index == 1 { liq.token_account_1 } else { liq.token_account };
            let owed_wallet = if liability_market_index == 1 { liq.token_account_1 } else { liq.token_account };
            let paying = if liability_market_index == 1 { other.token_account_1 } else { other.token_account };
            &&& r@.instructions.len() == 3
            &&& r@.signers == seq![liq.authority(), other.authority()]
            &&& pays(r@.instructions[1], paying, owed_wallet, other.authority(), swap_amount)
            &&& open.program_id == f.program_id && close.program_id == f.program_id
            &&& open.accounts == close.accounts
            &&& open.accounts[1].is_signer
            &&& ix_writes(open) == seq![
                liq.user_pda,
                victim.user_pda,
                owed_vault,
                asset_vault,
                owed_wallet,
                asset_wallet,
                f.perp_oracle_pda,
                f.spot_1_oracle_pda,
                f.spot_market_pda,
                f.spot_market_1_pda,
                f.perp_market_pda,
            ]
            &&& ix_reads(open) == seq![
                f.state_pda,
                liq.authority(),
                token_program_id(),
                f.signer_pda,
                instructions_sysvar_id(),
            ]
            &&& open.data.take(8) == D_LIQUIDATE_SPOT_WITH_SWAP_BEGIN@
            &&& close.data.take(8) == D_LIQUIDATE_SPOT_WITH_SWAP_END@
            &&& le_value(open.data.subrange(8, 10)) == asset_market_index
            &&& le_value(open.data.subrange(10, 12)) == liability_market_index
            &&& le_value(open.data.subrange(12, 20)) == swap_amount
            &&& open.data.len() == 20 && close.data.len() == 12
            &&& close.data.subrange(8, 12) == open.data.subrange(8, 12)
        }),
{
    let liq = f.users@[(liq_idx + 1) % 2];
    let other = f.users@[(liq_idx + 2) % 2];
    let open = r@.instructions[0];
    let close = r@.instructions[2];
    let disc = D_LIQUIDATE_SPOT_WITH_SWAP_BEGIN@;
    reveal_with_fuel(written, 18);
    reveal_with_fuel(consulted, 18);
    widths();
    transfers_pay(
        f.side(liability_market_index, other).wallet,
        f.side(liability_market_index, liq).wallet,
        other.authority(),
        swap_amount,
    );
    let a = le(asset_market_index as int, 2);
    let b = le(liability_market_index as int, 2);
    let c = le(swap_amount as int, 8);
    spelled(disc, asset_market_index as int, 2, b + c);
    spelled(disc + a, liability_market_index as int, 2, c);
    spelled(disc + a + b, swap_amount as int, 8, Seq::<u8>::empty());
    assert(open.data =~= disc + a + (b + c));
    assert(open.data =~= disc + a + b + c);
    assert(open.data =~= disc + a + b + c + Seq::<u8>::empty());
    assert(open.data.take(8) =~= disc);
    assert(close.data.take(8) =~= D_LIQUIDATE_SPOT_WITH_SWAP_END@);
    assert(close.data.subrange(8, 12) =~= a + b);
    assert(open.data.subrange(8, 12) =~= a + b);
}

/// A migration moves a deposit in one token and a borrow in the other between a
/// market and its mirror, which is two further on. Legs start in the first pool
/// unless turned round: the deposit's by the low bit of the variant, the borrow's by
/// the next. Choice zero moves the deposit in the quote token.
pub proof fn migrations_cross_between_mirrors(deposit_leg: u16, leg_variant: u8, l: PoolLegs)
    requires
        call_ensures(pool_legs_of, (deposit_leg, leg_variant), l),
    ensures
        l.deposit_from % 2 == (if deposit_leg == 0 { 0int } else { 1 }),
        l.borrow_from % 2 == (if deposit_leg == 0 { 1int } else { 0 }),
        leg_variant % 2 == 0 ==> l.deposit_from < 2 && l.deposit_to == l.deposit_from + 2,
        leg_variant % 2 == 1 ==> l.deposit_to < 2 && l.deposit_from == l.deposit_to + 2,
        (leg_variant / 2) % 2 == 0 ==> l.borrow_from < 2 && l.borrow_to == l.borrow_from + 2,
        (leg_variant / 2) % 2 == 1 ==> l.borrow_to < 2 && l.borrow_from == l.borrow_to + 2,
{
}

/// A market's vault is its own.
pub proof fn vaults_belong_to_their_market(f: &Fixture, market_index: u16, r: Pubkey, mint: Pubkey)
    requires
        call_ensures(Fixture::vault_of, (f, market_index), r),
        call_ensures(Fixture::mint_of, (f, market_index), mint),
    ensures
        market_index == 1 ==> r == f.spot_vault_1_pda && mint == f.sol_mint,
        market_index == 2 ==> r == f.pool1_vault_a_pda,
        market_index == 3 ==> r == f.pool1_vault_b_pda,
        market_index == 0 || market_index > 3 ==> r == f.spot_vault_pda,
        market_index != 1 ==> mint == f.usdc_mint,
{
}

/// A migration raises its compute limit first, then moves between the user's main
/// account and its sub-account through the four vaults of its legs, in the order of
/// the legs: where the deposit leaves and arrives, then the borrow. Every spot market
/// is written.
pub proof fn migrations_go_through_four_vaults(
    f: &Fixture,
    user_idx: usize,
    sub_account_id: u16,
    deposit_leg: u16,
    leg_variant: u8,
    with_deposit_amount: u8,
    deposit_amount: u64,
    with_borrow_amount: u8,
    borrow_amount: u64,
    r: Option<Transaction>,
    legs: PoolLegs,
)
    requires
        call_ensures(
            Fixture::action_transfer_pools,
            (
                f,
                user_idx,
                sub_account_id,
                deposit_leg,
                leg_variant,
                with_deposit_amount,
                deposit_amount,
                with_borrow_amount,
                borrow_amount,
            ),
            r,
        ),
        call_ensures(pool_legs_of, (deposit_leg, leg_variant), legs),
        f.wf(),
        user_idx < 2,
    ensures
        r matches Some(t) ==> {
            let user = f.users@[user_idx as int];
            let sub = pda_key(
                seq![text("user"), user.authority().bytes@, le(sub_account_id as int, 2)],
                f.program_id,
            );
            let i = t@.instructions[1];
            let deposited = if with_deposit_amount == 1 { 8int } else { 0 };
            let borrowed = if with_borrow_amount == 1 { 8int } else { 0 };
            &&& t@.instructions.len() == 2
            &&& t@.signers == seq![user.authority()]
            &&& t@.instructions[0].program_id == compute_budget_program_id()
            &&& t@.instructions[0].data == seq![2u8] + le(1_400_000, 4)
            &&& i.program_id == f.program_id
            &&& i.accounts[3].is_signer
            &&& ix_writes(i) == seq![
                user.user_pda,
                sub,
                user.stats_pda,
                f.vault(legs.deposit_from),
                f.vault(legs.deposit_to),
                f.vault(legs.borrow_from),
                f.vault(legs.borrow_to),
                f.perp_oracle_pda,
                f.spot_1_oracle_pda,
                f.spot_market_pda,
                f.spot_market_1_pda,
                f.pool1_market_a_pda,
                f.pool1_market_b_pda,
                f.perp_market_pda,
            ]
            &&& ix_reads(i) == seq![user.authority(), f.state_pda, f.signer_pda]
            &&& i.data.take(8) == D_TRANSFER_POOLS@
            &&& le_value(i.data.subrange(8, 10)) == legs.deposit_from
            &&& le_value(i.data.subrange(10, 12)) == legs.deposit_to
            &&& le_value(i.data.subrange(12, 14)) == legs.borrow_from
            &&& le_value(i.data.subrange(14, 16)) == legs.borrow_to
            &&& i.data[16] == (if with_deposit_amount == 1 { 1u8 } else { 0u8 })
            &&& with_deposit_amount == 1 ==> le_value(i.data.subrange(17, 25)) == deposit_amount
            &&& i.data[17 + deposited] == (if with_borrow_amount == 1 { 1u8 } else { 0u8 })
            &&& with_borrow_amount == 1 ==> le_value(
                i.data.subrange(18 + deposited, 26 + deposited),
            ) == borrow_amount
            &&& i.data.len() == 18 + deposited + borrowed
        },
{
    if let Some(t) = r {
        let i = t@.instructions[1];
        let user = f.users@[user_idx as int];
        let sub = pda_key(
            seq![text("user"), user.authority().bytes@, le(sub_account_id as int, 2)],
            f.program_id,
        );
        migrations_touch(
            i.accounts,
            seq![
                user.user_pda,
                sub,
                user.stats_pda,
                user.authority(),
                f.state_pda,
                f.vault(legs.deposit_from),
                f.vault(legs.deposit_to),
                f.vault(legs.borrow_from),
                f.vault(legs.borrow_to),
                f.signer_pda,
                f.perp_oracle_pda,
                f.spot_1_oracle_pda,
                f.spot_market_pda,
                f.spot_market_1_pda,
                f.pool1_market_a_pda,
                f.pool1_market_b_pda,
                f.perp_market_pda,
            ],
        );
        migrations_say(
            i.data,
            legs,
            with_deposit_amount == 1,
            deposit_amount,
            with_borrow_amount == 1,
            borrow_amount,
        );
    }
}

proof fn migrations_touch(accounts: Seq<AccountMeta>, k: Seq<Pubkey>)
    requires
        accounts.len() == 17,
        k.len() == 17,
        forall|j: int| 0 <= j < 17 ==> (#[trigger] accounts[j]).pubkey == k[j],
        forall|j: int|
            0 <= j < 17 ==> ((#[trigger] accounts[j]).is_writable <==> j != 3 && j != 4 && j != 9),
    ensures
        written(accounts, 17) == seq![
            k[0], k[1], k[2], k[5], k[6], k[7], k[8], k[10], k[11], k[12], k[13], k[14], k[15], k[16],
        ],
        consulted(accounts, 17) == seq![k[3], k[4], k[9]],
{
    reveal_with_fuel(written, 18);
    reveal_with_fuel(consulted, 18);
}

proof fn migrations_say(
    data: Seq<u8>,
    legs: PoolLegs,
    with_deposit: bool,
    deposit: u64,
    with_borrow: bool,
    borrow: u64,
)
    requires
        data == D_TRANSFER_POOLS@ + (le(legs.deposit_from as int, 2) + le(legs.deposit_to as int, 2)
            + le(legs.borrow_from as int, 2) + le(legs.borrow_to as int, 2) + opt(
            with_deposit,
            le(deposit as int, 8),
        ) + opt(with_borrow, le(borrow as int, 8))),
    ensures
        ({
            let deposited = if with_deposit { 8int } else { 0 };
            let borrowed = if with_borrow { 8int } else { 0 };
            &&& data.take(8) == D_TRANSFER_POOLS@
            &&& le_value(data.subrange(8, 10)) == legs.deposit_from
            &&& le_value(data.subrange(10, 12)) == legs.deposit_to
            &&& le_value(data.subrange(12, 14)) == legs.borrow_from
            &&& le_value(data.subrange(14, 16)) == legs.borrow_to
            &&& data[16] == (if with_deposit { 1u8 } else { 0u8 })
            &&& with_deposit ==> le_value(data.subrange(17, 25)) == deposit
            &&& data[17 + deposited] == (if with_borrow { 1u8 } else { 0u8 })
            &&& with_borrow ==> le_value(data.subrange(18 + deposited, 26 + deposited)) == borrow
            &&& data.len() == 18 + deposited + borrowed
        }),
{
    widths();
    let d = D_TRANSFER_POOLS@;
    let a = le(legs.deposit_from as int, 2);
    let b = le(legs.deposit_to as int, 2);
    let c = le(legs.borrow_from as int, 2);
    let e = le(legs.borrow_to as int, 2);
    let p = le(deposit as int, 8);
    let q = le(borrow as int, 8);
    le_len(legs.deposit_from as int, 2);
    le_len(legs.deposit_to as int, 2);
    le_len(legs.borrow_from as int, 2);
    le_len(legs.borrow_to as int, 2);
    le_len(deposit as int, 8);
    le_len(borrow as int, 8);
    le_round_trip(legs.deposit_from as int, 2);
    le_round_trip(legs.deposit_to as int, 2);
    le_round_trip(legs.borrow_from as int, 2);
    le_round_trip(legs.borrow_to as int, 2);
    le_round_trip(deposit as int, 8);
    le_round_trip(borrow as int, 8);
    assert(data.take(8) =~= d);
    assert(data.subrange(8, 10) =~= a);
    assert(data.subrange(10, 12) =~= b);
    assert(data.subrange(12, 14) =~= c);
    assert(data.subrange(14, 16) =~= e);
    if with_deposit {
        assert(data.subrange(17, 25) =~= p);
        if with_borrow {
            assert(data.subrange(26, 34) =~= q);
        }
    } else if with_borrow {
        assert(data.subrange(18, 26) =~= q);
    }
}

} // verus!
