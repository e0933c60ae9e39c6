//! Spot liquidation, bankruptcy, swaps, pool migration and isolated positions.

use vstd::prelude::*;
use crate::constants::NUM_USERS;
use crate::discriminators::{
    D_BEGIN_SWAP, D_DEPOSIT_INTO_ISOLATED, D_END_SWAP, D_LIQUIDATE_BORROW_FOR_PERP_PNL,
    D_LIQUIDATE_SPOT, D_LIQUIDATE_SPOT_WITH_SWAP_BEGIN, D_LIQUIDATE_SPOT_WITH_SWAP_END,
    D_RESOLVE_PERP_BANKRUPTCY, D_RESOLVE_SPOT_BANKRUPTCY, D_TRANSFER_ISOLATED_DEPOSIT,
    D_TRANSFER_POOLS, D_WITHDRAW_FROM_ISOLATED,
};
use crate::fixture::{derivable, pda_key, user_pda, user_seeds, Fixture, UserAcct};
use crate::keys::{
    call, instructions_sysvar_id, ix, token_program_id, tx, AccountMeta, Instruction, Pubkey,
    Transaction,
};
use crate::programs::{compute_budget, compute_budget_ix, spl_transfer, spl_transfer_ix};
use crate::trading::{join, next_user, next_user_index};
use crate::user_actions::{signed, signed_amount};
use crate::wire::{
    ix_data, le, le_signed, opt, push_i64, push_opt, push_opt_u8, push_u128, push_u16, push_u64,
    u64_bytes,
};

verus! {

// ---------------------------------------------------------------------------
// Liquidation
// ---------------------------------------------------------------------------

/// The user after the given one, counting round.
pub open spec fn following(i: int, by: int) -> int {
    (i + by) % NUM_USERS as int
}

/// [`following`], for any index.
pub fn following_index(i: usize, by: usize) -> (r: usize)
    requires
        i + by <= usize::MAX,
    ensures
        r == following(i as int, by as int),
        r < NUM_USERS,
{
    (i + by) % NUM_USERS
}

impl Fixture {
    /// Seizes a victim's deposit in one market to repay its borrow in another.
    /// The liquidator is the user after `liq_idx`.
    pub fn action_liquidate_spot(
        &self,
        victim_idx: usize,
        liq_idx: usize,
        asset_market_index: u16,
        liability_market_index: u16,
        max_liability_transfer: u64,
        with_limit_price: u8,
        limit_price: u64,
    ) -> (r: Transaction)
        requires
            self.wf(),
            victim_idx < NUM_USERS,
            liq_idx < usize::MAX,
        ensures
            ({
                let victim = self.users@[victim_idx as int];
                let liq = self.users@[following(liq_idx as int, 1)];
                r@ == call(
                    self.program_id,
                    seq![
                        AccountMeta::new_readonly(self.state_pda, false),
                        AccountMeta::new_readonly(liq.authority(), true),
                        AccountMeta::new(liq.user_pda, false),
                        AccountMeta::new_readonly(liq.stats_pda, false),
                        AccountMeta::new(victim.user_pda, false),
                    ] + self.markets(true),
                    D_LIQUIDATE_SPOT@ + (le(asset_market_index as int, 2)
                        + le(liability_market_index as int, 2)
                        + le(max_liability_transfer as int, 16)
                        + opt(with_limit_price == 1, le(limit_price as int, 8))),
                    liq.authority(),
                )
            }),
    {
        let victim = self.users[victim_idx];
        let liq = self.users[following_index(liq_idx, 1)];
        let mut args: Vec<u8> = Vec::new();
        push_u16(&mut args, asset_market_index);
        assert(args@ =~= le(asset_market_index as int, 2));
        push_u16(&mut args, liability_market_index);
        push_u128(&mut args, max_liability_transfer as u128);
        push_opt(&mut args, with_limit_price == 1, &u64_bytes(limit_price));
        let accounts = join(
            vec![
                AccountMeta::new_readonly(self.state_pda, false),
                AccountMeta::new_readonly(liq.keypair.pubkey(), true),
                AccountMeta::new(liq.user_pda, false),
                AccountMeta::new_readonly(liq.stats_pda, false),
                AccountMeta::new(victim.user_pda, false),
            ],
            self.market_ras(true),
        );
        self.submit(accounts, D_LIQUIDATE_SPOT, &args, liq.keypair.pubkey())
    }

    /// Settles a victim's spot borrow against its profit on the perp market.
    pub fn action_liquidate_borrow_for_perp_pnl(
        &self,
        victim_idx: usize,
        liq_idx: usize,
        spot_market_index: u16,
        max_liability_transfer: u64,
        with_limit_price: u8,
        limit_price: u64,
    ) -> (r: Transaction)
        requires
            self.wf(),
            victim_idx < NUM_USERS,
            liq_idx < usize::MAX,
        ensures
            ({
                let victim = self.users@[victim_idx as int];
                let liq = self.users@[following(liq_idx as int, 1)];
                r@ == call(
                    self.program_id,
                    seq![
                        AccountMeta::new_readonly(self.state_pda, false),
                        AccountMeta::new_readonly(liq.authority(), true),
                        AccountMeta::new(liq.user_pda, false),
                        AccountMeta::new(liq.stats_pda, false),
                        AccountMeta::new(victim.user_pda, false),
                        AccountMeta::new(victim.stats_pda, false),
                    ] + self.markets(true),
                    D_LIQUIDATE_BORROW_FOR_PERP_PNL@ + (le(0, 2) + le(spot_market_index as int, 2)
                        + le(max_liability_transfer as int, 16)
                        + opt(with_limit_price == 1, le(limit_price as int, 8))),
                    liq.authority(),
                )
            }),
    {
        let victim = self.users[victim_idx];
        let liq = self.users[following_index(liq_idx, 1)];
        let mut args: Vec<u8> = Vec::new();
        push_u16(&mut args, 0);
        assert(args@ =~= le(0, 2));
        push_u16(&mut args, spot_market_index);
        push_u128(&mut args, max_liability_transfer as u128);
        push_opt(&mut args, with_limit_price == 1, &u64_bytes(limit_price));
        let accounts = join(
            vec![
                AccountMeta::new_readonly(self.state_pda, false),
                AccountMeta::new_readonly(liq.keypair.pubkey(), true),
                AccountMeta::new(liq.user_pda, false),
                AccountMeta::new(liq.stats_pda, false),
                AccountMeta::new(victim.user_pda, false),
                AccountMeta::new(victim.stats_pda, false),
            ],
            self.market_ras(true),
        );
        self.submit(accounts, D_LIQUIDATE_BORROW_FOR_PERP_PNL, &args, liq.keypair.pubkey())
    }

    /// The accounts of a bankruptcy: those of both users, the market's vaults,
    /// every market, and the market's token last.
    pub open spec fn resolution(self, liq: UserAcct, victim: UserAcct, market_index: u16) -> Seq<
        AccountMeta,
    > {
        let side = self.side(market_index, victim);
        seq![
            AccountMeta::new_readonly(self.state_pda, false),
            AccountMeta::new_readonly(liq.authority(), true),
            AccountMeta::new(liq.user_pda, false),
            AccountMeta::new(liq.stats_pda, false),
            AccountMeta::new(victim.user_pda, false),
            AccountMeta::new(victim.stats_pda, false),
            AccountMeta::new(side.vault, false),
            AccountMeta::new(side.if_vault, false),
            AccountMeta::new_readonly(self.signer_pda, false),
            AccountMeta::new_readonly(token_program_id(), false),
        ] + self.markets(true) + seq![AccountMeta::new_readonly(self.mint(market_index), false)]
    }

    pub fn resolve_accounts(&self, liq: &UserAcct, victim: &UserAcct, market_index: u16) -> (r: Vec<
        AccountMeta,
    >)
        ensures
            r@ == self.resolution(*liq, *victim, market_index),
    {
        let side = self.spot_of(market_index, victim);
        let accounts = join(
            vec![
                AccountMeta::new_readonly(self.state_pda, false),
                AccountMeta::new_readonly(liq.keypair.pubkey(), true),
                AccountMeta::new(liq.user_pda, false),
                AccountMeta::new(liq.stats_pda, false),
                AccountMeta::new(victim.user_pda, false),
                AccountMeta::new(victim.stats_pda, false),
                AccountMeta::new(side.vault, false),
                AccountMeta::new(side.if_vault, false),
                AccountMeta::new_readonly(self.signer_pda, false),
                AccountMeta::new_readonly(token_program_id(), false),
            ],
            self.market_ras(true),
        );
        join(accounts, vec![AccountMeta::new_readonly(self.mint_of(market_index), false)])
    }

    /// Clears a bankrupt account's borrow. Nobody resolves themselves: `None`
    /// where the liquidator is the victim.
    pub fn action_resolve_spot_bankruptcy(
        &self,
        victim_idx: usize,
        liq_idx: usize,
        market_index: u16,
    ) -> (r: Option<Transaction>)
        requires
            self.wf(),
            victim_idx < NUM_USERS,
            liq_idx < usize::MAX,
        ensures
            ({
                let victim = self.users@[victim_idx as int];
                let liq = self.users@[following(liq_idx as int, 1)];
                &&& r is Some <==> liq.user_pda != victim.user_pda
                &&& r matches Some(t) ==> t@ == call(
                    self.program_id,
                    self.resolution(liq, victim, market_index),
                    D_RESOLVE_SPOT_BANKRUPTCY@ + le(market_index as int, 2),
                    liq.authority(),
                )
            }),
    {
        let victim = self.users[victim_idx];
        let liq = self.users[following_index(liq_idx, 1)];
        if liq.user_pda.same(&victim.user_pda) {
            return None;
        }
        let mut args: Vec<u8> = Vec::new();
        push_u16(&mut args, market_index);
        assert(args@ =~= le(market_index as int, 2));
        Some(
            self.submit(
                self.resolve_accounts(&liq, &victim, market_index),
                D_RESOLVE_SPOT_BANKRUPTCY,
                &args,
                liq.keypair.pubkey(),
            ),
        )
    }

    /// Clears a bankrupt account's loss on the perp market, which is owed in the
    /// quote token.
    pub fn action_resolve_perp_bankruptcy(&self, victim_idx: usize, liq_idx: usize) -> (r: Option<
        Transaction,
    >)
        requires
            self.wf(),
            victim_idx < NUM_USERS,
            liq_idx < usize::MAX,
        ensures
            ({
                let victim = self.users@[victim_idx as int];
                let liq = self.users@[following(liq_idx as int, 1)];
                &&& r is Some <==> liq.user_pda != victim.user_pda
                &&& r matches Some(t) ==> t@ == call(
                    self.program_id,
                    self.resolution(liq, victim, 0),
                    D_RESOLVE_PERP_BANKRUPTCY@ + (le(0, 2) + le(0, 2)),
                    liq.authority(),
                )
            }),
    {
        let victim = self.users[victim_idx];
        let liq = self.users[following_index(liq_idx, 1)];
        if liq.user_pda.same(&victim.user_pda) {
            return None;
        }
        let mut args: Vec<u8> = Vec::new();
        push_u16(&mut args, 0);
        assert(args@ =~= le(0, 2));
        push_u16(&mut args, 0);
        Some(
            self.submit(
                self.resolve_accounts(&liq, &victim, 0),
                D_RESOLVE_PERP_BANKRUPTCY,
                &args,
                liq.keypair.pubkey(),
            ),
        )
    }
}

// ---------------------------------------------------------------------------
// Swaps
// ---------------------------------------------------------------------------

/// The tag of the balance that a swap must reduce: zero leaves the swap free,
/// one and two hold it to the in and the out balance.
pub open spec fn reduce_tag(reduce_only: u8) -> u8 {
    if reduce_only > 0 {
        (reduce_only - 1) as u8
    } else {
        0
    }
}

impl Fixture {
    /// The accounts of either leg of a swap.
    pub open spec fn swap_accounts(self, user: UserAcct, in_market: u16, out_market: u16) -> Seq<
        AccountMeta,
    > {
        let given = self.side(in_market, user);
        let taken = self.side(out_market, user);
        seq![
            AccountMeta::new_readonly(self.state_pda, false),
            AccountMeta::new(user.user_pda, false),
            AccountMeta::new(user.stats_pda, false),
            AccountMeta::new_readonly(user.authority(), true),
            AccountMeta::new(taken.vault, false),
            AccountMeta::new(given.vault, false),
            AccountMeta::new(taken.wallet, false),
            AccountMeta::new(given.wallet, false),
            AccountMeta::new_readonly(token_program_id(), false),
            AccountMeta::new_readonly(self.signer_pda, false),
            AccountMeta::new_readonly(instructions_sysvar_id(), false),
        ] + self.markets(true)
    }

    fn swap_leg_accounts(&self, user: &UserAcct, in_market: u16, out_market: u16) -> (r: Vec<
        AccountMeta,
    >)
        ensures
            r@ == self.swap_accounts(*user, in_market, out_market),
    {
        let given = self.spot_of(in_market, user);
        let taken = self.spot_of(out_market, user);
        join(
            vec![
                AccountMeta::new_readonly(self.state_pda, false),
                AccountMeta::new(user.user_pda, false),
                AccountMeta::new(user.stats_pda, false),
                AccountMeta::new_readonly(user.keypair.pubkey(), true),
                AccountMeta::new(taken.vault, false),
                AccountMeta::new(given.vault, false),
                AccountMeta::new(taken.wallet, false),
                AccountMeta::new(given.wallet, false),
                AccountMeta::new_readonly(token_program_id(), false),
                AccountMeta::new_readonly(self.signer_pda, false),
                AccountMeta::new_readonly(instructions_sysvar_id(), false),
            ],
            self.market_ras(true),
        )
    }

    /// A swap: the opening leg, the counterparty's payment, the closing leg, all
    /// in one transaction, since neither leg is accepted without the other.
    /// A market is not swapped for itself: `None` then.
    pub fn action_swap(
        &self,
        user_idx: usize,
        in_market_index: u16,
        out_market_index: u16,
        amount_in: u64,
        amount_out: u64,
        with_limit_price: u8,
        limit_price: u64,
        reduce_only: u8,
    ) -> (r: Option<Transaction>)
        requires
            self.wf(),
            user_idx < NUM_USERS,
        ensures
            r is Some <==> in_market_index != out_market_index,
            r matches Some(t) ==> ({
                let user = self.users@[user_idx as int];
                let other = self.users@[next_user(user_idx as int)];
                let accounts = self.swap_accounts(user, in_market_index, out_market_index);
                t@ == tx(
                    seq![
                        ix(
                            self.program_id,
                            accounts,
                            D_BEGIN_SWAP@ + (le(in_market_index as int, 2) + le(
                                out_market_index as int,
                                2,
                            ) + le(amount_in as int, 8)),
                        ),
                        spl_transfer(
                            self.side(out_market_index, other).wallet,
                            self.side(out_market_index, user).wallet,
                            other.authority(),
                            amount_out,
                        ),
                        ix(
                            self.program_id,
                            accounts,
                            D_END_SWAP@ + (le(in_market_index as int, 2) + le(
                                out_market_index as int,
                                2,
                            ) + opt(with_limit_price == 1, le(limit_price as int, 8)) + opt(
                                reduce_only > 0,
                                seq![reduce_tag(reduce_only)],
                            )),
                        ),
                    ],
                    seq![user.authority(), other.authority()],
                )
            }),
    {
        if in_market_index == out_market_index {
            return None;
        }
        let user = self.users[user_idx];
        let other = self.users[next_user_index(user_idx)];
        let mut begin_args: Vec<u8> = Vec::new();
        push_u16(&mut begin_args, in_market_index);
        assert(begin_args@ =~= le(in_market_index as int, 2));
        push_u16(&mut begin_args, out_market_index);
        push_u64(&mut begin_args, amount_in);
        let mut end_args: Vec<u8> = Vec::new();
        push_u16(&mut end_args, in_market_index);
        assert(end_args@ =~= le(in_market_index as int, 2));
        push_u16(&mut end_args, out_market_index);
        push_opt(&mut end_args, with_limit_price == 1, &u64_bytes(limit_price));
        let tag: u8 = if reduce_only > 0 {
            reduce_only - 1
        } else {
            0
        };
        push_opt_u8(&mut end_args, reduce_only > 0, tag);
        let begin = Instruction::new(
            self.program_id,
            self.swap_leg_accounts(&user, in_market_index, out_market_index),
            ix_data(D_BEGIN_SWAP, &begin_args),
        );
        let end = Instruction::new(
            self.program_id,
            self.swap_leg_accounts(&user, in_market_index, out_market_index),
            ix_data(D_END_SWAP, &end_args),
        );
        let fill = spl_transfer_ix(
            self.spot_of(out_market_index, &other).wallet,
            self.spot_of(out_market_index, &user).wallet,
            other.keypair.pubkey(),
            amount_out,
        );
        let signers = vec![user.keypair.pubkey(), other.keypair.pubkey()];
        assert(signers@ =~= seq![user.authority(), other.authority()]);
        Some(Transaction::triple(begin, fill, end, signers))
    }

    /// The accounts of either leg of a liquidation through a swap.
    pub open spec fn swap_liquidation_accounts(
        self,
        liq: UserAcct,
        victim: UserAcct,
        asset_market: u16,
        liability_market: u16,
    ) -> Seq<AccountMeta> {
        let asset = self.side(asset_market, liq);
        let liability = self.side(liability_market, liq);
        seq![
            AccountMeta::new_readonly(self.state_pda, false),
            AccountMeta::new_readonly(liq.authority(), true),
            AccountMeta::new(liq.user_pda, false),
            AccountMeta::new(victim.user_pda, false),
            AccountMeta::new(liability.vault, false),
            AccountMeta::new(asset.vault, false),
            AccountMeta::new(liability.wallet, false),
            AccountMeta::new(asset.wallet, false),
            AccountMeta::new_readonly(token_program_id(), false),
            AccountMeta::new_readonly(self.signer_pda, false),
            AccountMeta::new_readonly(instructions_sysvar_id(), false),
        ] + self.markets(true)
    }

    fn swap_liquidation_leg_accounts(
        &self,
        liq: &UserAcct,
        victim: &UserAcct,
        asset_market: u16,
        liability_market: u16,
    ) -> (r: Vec<AccountMeta>)
        ensures
            r@ == self.swap_liquidation_accounts(*liq, *victim, asset_market, liability_market),
    {
        let asset = self.spot_of(asset_market, liq);
        let liability = self.spot_of(liability_market, liq);
        join(
            vec![
                AccountMeta::new_readonly(self.state_pda, false),
                AccountMeta::new_readonly(liq.keypair.pubkey(), true),
                AccountMeta::new(liq.user_pda, false),
                AccountMeta::new(victim.user_pda, false),
                AccountMeta::new(liability.vault, false),
                AccountMeta::new(asset.vault, false),
                AccountMeta::new(liability.wallet, false),
                AccountMeta::new(asset.wallet, false),
                AccountMeta::new_readonly(token_program_id(), false),
                AccountMeta::new_readonly(self.signer_pda, false),
                AccountMeta::new_readonly(instructions_sysvar_id(), false),
            ],
            self.market_ras(true),
        )
    }

    /// A liquidation through a swap. The opening leg hands the liquidator the
    /// seized asset, a counterparty delivers the liability, the closing leg
    /// expects it repaid.
    pub fn action_liquidate_spot_with_swap(
        &self,
        victim_idx: usize,
        liq_idx: usize,
        asset_market_index: u16,
        liability_market_index: u16,
        swap_amount: u64,
    ) -> (r: Transaction)
        requires
            self.wf(),
            victim_idx < NUM_USERS,
            liq_idx < usize::MAX - 1,
        ensures
            ({
                let victim = self.users@[victim_idx as int];
                let liq = self.users@[following(liq_idx as int, 1)];
                let other = self.users@[following(liq_idx as int, 2)];
                let accounts = self.swap_liquidation_accounts(
                    liq,
                    victim,
                    asset_market_index,
                    liability_market_index,
                );
                r@ == tx(
                    seq![
                        ix(
                            self.program_id,
                            accounts,
                            D_LIQUIDATE_SPOT_WITH_SWAP_BEGIN@ + (le(asset_market_index as int, 2)
                                + le(liability_market_index as int, 2) + le(swap_amount as int, 8)),
                        ),
                        spl_transfer(
                            self.side(liability_market_index, other).wallet,
                            self.side(liability_market_index, liq).wallet,
                            other.authority(),
                            swap_amount,
                        ),
                        ix(
                            self.program_id,
                            accounts,
                            D_LIQUIDATE_SPOT_WITH_SWAP_END@ + (le(asset_market_index as int, 2)
                                + le(liability_market_index as int, 2)),
                        ),
                    ],
                    seq![liq.authority(), other.authority()],
                )
            }),
    {
        let victim = self.users[victim_idx];
        let liq = self.users[following_index(liq_idx, 1)];
        let other = self.users[following_index(liq_idx, 2)];
        let mut begin_args: Vec<u8> = Vec::new();
        push_u16(&mut begin_args, asset_market_index);
        assert(begin_args@ =~= le(asset_market_index as int, 2));
        push_u16(&mut begin_args, liability_market_index);
        push_u64(&mut begin_args, swap_amount);
        let mut end_args: Vec<u8> = Vec::new();
        push_u16(&mut end_args, asset_market_index);
        assert(end_args@ =~= le(asset_market_index as int, 2));
        push_u16(&mut end_args, liability_market_index);
        let begin = Instruction::new(
            self.program_id,
            self.swap_liquidation_leg_accounts(
                &liq,
                &victim,
                asset_market_index,
                liability_market_index,
            ),
            ix_data(D_LIQUIDATE_SPOT_WITH_SWAP_BEGIN, &begin_args),
        );
        let end = Instruction::new(
            self.program_id,
            self.swap_liquidation_leg_accounts(
                &liq,
                &victim,
                asset_market_index,
                liability_market_index,
            ),
            ix_data(D_LIQUIDATE_SPOT_WITH_SWAP_END, &end_args),
        );
        let fill = spl_transfer_ix(
            self.spot_of(liability_market_index, &other).wallet,
            self.spot_of(liability_market_index, &liq).wallet,
            other.keypair.pubkey(),
            swap_amount,
        );
        let signers = vec![liq.keypair.pubkey(), other.keypair.pubkey()];
        assert(signers@ =~= seq![liq.authority(), other.authority()]);
        Transaction::triple(begin, fill, end, signers)
    }
}

// ---------------------------------------------------------------------------
// Pool migration
// ---------------------------------------------------------------------------

/// The four markets of a migration between pools.
#[derive(Clone, Copy, PartialEq, Eq, Structural, Debug)]
pub struct PoolLegs {
    pub deposit_from: u16,
    pub deposit_to: u16,
    pub borrow_from: u16,
    pub borrow_to: u16,
}

/// One leg between a market of the first pool and its mirror in the second,
/// which is two further on; possibly the other way round.
pub open spec fn leg(market: u16, back: bool) -> (u16, u16) {
    if back {
        ((market + 2) as u16, market)
    } else {
        (market, (market + 2) as u16)
    }
}

fn leg_of(market: u16, back: bool) -> (r: (u16, u16))
    requires
        market <= 1,
    ensures
        r == leg(market, back),
{
    if back {
        (market + 2, market)
    } else {
        (market, market + 2)
    }
}

/// The markets of a migration. The deposit moves in one token, the borrow in the
/// other. The low bit of the variant turns the deposit's leg round, the next
/// that of the borrow.
pub open spec fn pool_legs(deposit_leg: u16, leg_variant: u8) -> PoolLegs {
    let deposit_market: u16 = if deposit_leg == 0 {
        0
    } else {
        1
    };
    let borrow_market: u16 = if deposit_leg == 0 {
        1
    } else {
        0
    };
    let deposit = leg(deposit_market, leg_variant % 2 == 1);
    let borrow = leg(borrow_market, leg_variant / 2 % 2 == 1);
    PoolLegs {
        deposit_from: deposit.0,
        deposit_to: deposit.1,
        borrow_from: borrow.0,
        borrow_to: borrow.1,
    }
}

pub fn pool_legs_of(deposit_leg: u16, leg_variant: u8) -> (r: PoolLegs)
    ensures
        r == pool_legs(deposit_leg, leg_variant),
{
    let deposit_market: u16 = if deposit_leg == 0 {
        0
    } else {
        1
    };
    let borrow_market: u16 = if deposit_leg == 0 {
        1
    } else {
        0
    };
    let (deposit_from, deposit_to) = leg_of(deposit_market, leg_variant % 2 == 1);
    let (borrow_from, borrow_to) = leg_of(borrow_market, leg_variant / 2 % 2 == 1);
    PoolLegs { deposit_from, deposit_to, borrow_from, borrow_to }
}

/// Whichever legs are drawn, the four markets are the four there are, each once,
/// and each leg crosses from one pool to the other within one token.
pub proof fn migration_legs_never_meet(deposit_leg: u16, leg_variant: u8)
    ensures
        ({
            let l = pool_legs(deposit_leg, leg_variant);
            &&& l.deposit_from < 4 && l.deposit_to < 4 && l.borrow_from < 4 && l.borrow_to < 4
            &&& l.deposit_from != l.deposit_to && l.deposit_from != l.borrow_from && l.deposit_from
                != l.borrow_to
            &&& l.deposit_to != l.borrow_from && l.deposit_to != l.borrow_to
            &&& l.borrow_from != l.borrow_to
            &&& l.deposit_from % 2 == l.deposit_to % 2
            &&& l.borrow_from % 2 == l.borrow_to % 2
        }),
{
}

impl Fixture {
    /// The vault of one of the four spot markets.
    pub open spec fn vault(self, market_index: u16) -> Pubkey {
        if market_index == 1 {
            self.spot_vault_1_pda
        } else if market_index == 2 {
            self.pool1_vault_a_pda
        } else if market_index == 3 {
            self.pool1_vault_b_pda
        } else {
            self.spot_vault_pda
        }
    }

    pub fn vault_of(&self, market_index: u16) -> (r: Pubkey)
        ensures
            r == self.vault(market_index),
    {
        if market_index == 1 {
            self.spot_vault_1_pda
        } else if market_index == 2 {
            self.pool1_vault_a_pda
        } else if market_index == 3 {
            self.pool1_vault_b_pda
        } else {
            self.spot_vault_pda
        }
    }

    /// The accounts of a migration between pools, every spot market among them.
    pub open spec fn migration_accounts(self, user: UserAcct, sub: Pubkey, legs: PoolLegs) -> Seq<
        AccountMeta,
    > {
        seq![
            AccountMeta::new(user.user_pda, false),
            AccountMeta::new(sub, false),
            AccountMeta::new(user.stats_pda, false),
            AccountMeta::new_readonly(user.authority(), true),
            AccountMeta::new_readonly(self.state_pda, false),
            AccountMeta::new(self.vault(legs.deposit_from), false),
            AccountMeta::new(self.vault(legs.deposit_to), false),
            AccountMeta::new(self.vault(legs.borrow_from), false),
            AccountMeta::new(self.vault(legs.borrow_to), false),
            AccountMeta::new_readonly(self.signer_pda, false),
            AccountMeta::new(self.perp_oracle_pda, false),
            AccountMeta::new(self.spot_1_oracle_pda, false),
            AccountMeta::new(self.spot_market_pda, false),
            AccountMeta::new(self.spot_market_1_pda, false),
            AccountMeta::new(self.pool1_market_a_pda, false),
            AccountMeta::new(self.pool1_market_b_pda, false),
            AccountMeta::new(self.perp_market_pda, false),
        ]
    }

    /// Migrates a deposit and a borrow from a user's main account to a
    /// sub-account in the other pool, in a transaction with a raised compute
    /// limit. `None` where the sub-account's address has no derivation.
    pub fn action_transfer_pools(
        &self,
        user_idx: usize,
        sub_account_id: u16,
        deposit_leg: u16,
        leg_variant: u8,
        with_deposit_amount: u8,
        deposit_amount: u64,
        with_borrow_amount: u8,
        borrow_amount: u64,
    ) -> (r: Option<Transaction>)
        requires
            self.wf(),
            user_idx < NUM_USERS,
        ensures
            r is Some <==> derivable(
                user_seeds(self.users@[user_idx as int].authority(), sub_account_id),
                self.program_id,
            ),
            r matches Some(t) ==> ({
                let user = self.users@[user_idx as int];
                let sub = pda_key(user_seeds(user.authority(), sub_account_id), self.program_id);
                let legs = pool_legs(deposit_leg, leg_variant);
                t@ == tx(
                    seq![
                        compute_budget(1_400_000),
                        ix(
                            self.program_id,
                            self.migration_accounts(user, sub, legs),
                            D_TRANSFER_POOLS@ + (le(legs.deposit_from as int, 2) + le(
                                legs.deposit_to as int,
                                2,
                            ) + le(legs.borrow_from as int, 2) + le(legs.borrow_to as int, 2) + opt(
                                with_deposit_amount == 1,
                                le(deposit_amount as int, 8),
                            ) + opt(with_borrow_amount == 1, le(borrow_amount as int, 8))),
                        ),
                    ],
                    seq![user.authority()],
                )
            }),
    {
        let user = self.users[user_idx];
        let authority = user.keypair.pubkey();
        let (sub, _) = user_pda(&authority, sub_account_id, self.program_id)?;
        let legs = pool_legs_of(deposit_leg, leg_variant);
        let mut args: Vec<u8> = Vec::new();
        push_u16(&mut args, legs.deposit_from);
        assert(args@ =~= le(legs.deposit_from as int, 2));
        push_u16(&mut args, legs.deposit_to);
        push_u16(&mut args, legs.borrow_from);
        push_u16(&mut args, legs.borrow_to);
        push_opt(&mut args, with_deposit_amount == 1, &u64_bytes(deposit_amount));
        push_opt(&mut args, with_borrow_amount == 1, &u64_bytes(borrow_amount));
        let accounts = vec![
            AccountMeta::new(user.user_pda, false),
            AccountMeta::new(sub, false),
            AccountMeta::new(user.stats_pda, false),
            AccountMeta::new_readonly(authority, true),
            AccountMeta::new_readonly(self.state_pda, false),
            AccountMeta::new(self.vault_of(legs.deposit_from), false),
            AccountMeta::new(self.vault_of(legs.deposit_to), false),
            AccountMeta::new(self.vault_of(legs.borrow_from), false),
            AccountMeta::new(self.vault_of(legs.borrow_to), false),
            AccountMeta::new_readonly(self.signer_pda, false),
            AccountMeta::new(self.perp_oracle_pda, false),
            AccountMeta::new(self.spot_1_oracle_pda, false),
            AccountMeta::new(self.spot_market_pda, false),
            AccountMeta::new(self.spot_market_1_pda, false),
            AccountMeta::new(self.pool1_market_a_pda, false),
            AccountMeta::new(self.pool1_market_b_pda, false),
            AccountMeta::new(self.perp_market_pda, false),
        ];
        let transfer = Instruction::new(
            self.program_id,
            accounts,
            ix_data(D_TRANSFER_POOLS, &args),
        );
        let signers = vec![authority];
        assert(signers@ =~= seq![user.authority()]);
        Some(Transaction::pair(compute_budget_ix(1_400_000), transfer, signers))
    }
}

// ---------------------------------------------------------------------------
// Isolated positions
// ---------------------------------------------------------------------------

impl Fixture {
    /// Moves tokens from a user's wallet into its isolated perp position.
    pub fn action_deposit_into_isolated(
        &self,
        user_idx: usize,
        spot_market_index: u16,
        amount: u64,
    ) -> (r: Transaction)
        requires
            self.wf(),
            user_idx < NUM_USERS,
        ensures
            ({
                let user = self.users@[user_idx as int];
                let side = self.side(spot_market_index, user);
                r@ == call(
                    self.program_id,
                    seq![
                        AccountMeta::new_readonly(self.state_pda, false),
                        AccountMeta::new(user.user_pda, false),
                        AccountMeta::new(user.stats_pda, false),
                        AccountMeta::new_readonly(user.authority(), true),
                        AccountMeta::new(side.vault, false),
                        AccountMeta::new(side.wallet, false),
                        AccountMeta::new_readonly(token_program_id(), false),
                    ] + self.markets(true),
                    D_DEPOSIT_INTO_ISOLATED@ + (le(spot_market_index as int, 2) + le(0, 2)
                        + le(amount as int, 8)),
                    user.authority(),
                )
            }),
    {
        let user = self.users[user_idx];
        let side = self.spot_of(spot_market_index, &user);
        let mut args: Vec<u8> = Vec::new();
        push_u16(&mut args, spot_market_index);
        assert(args@ =~= le(spot_market_index as int, 2));
        push_u16(&mut args, 0);
        push_u64(&mut args, amount);
        let accounts = join(
            vec![
                AccountMeta::new_readonly(self.state_pda, false),
                AccountMeta::new(user.user_pda, false),
                AccountMeta::new(user.stats_pda, false),
                AccountMeta::new_readonly(user.keypair.pubkey(), true),
                AccountMeta::new(side.vault, false),
                AccountMeta::new(side.wallet, false),
                AccountMeta::new_readonly(token_program_id(), false),
            ],
            self.market_ras(true),
        );
        self.submit(accounts, D_DEPOSIT_INTO_ISOLATED, &args, user.keypair.pubkey())
    }

    /// Moves tokens from a user's isolated perp position into its wallet.
    pub fn action_withdraw_from_isolated(
        &self,
        user_idx: usize,
        spot_market_index: u16,
        amount: u64,
    ) -> (r: Transaction)
        requires
            self.wf(),
            user_idx < NUM_USERS,
        ensures
            ({
                let user = self.users@[user_idx as int];
                let side = self.side(spot_market_index, user);
                r@ == call(
                    self.program_id,
                    seq![
                        AccountMeta::new_readonly(self.state_pda, false),
                        AccountMeta::new(user.user_pda, false),
                        AccountMeta::new(user.stats_pda, false),
                        AccountMeta::new_readonly(user.authority(), true),
                        AccountMeta::new(side.vault, false),
                        AccountMeta::new_readonly(self.signer_pda, false),
                        AccountMeta::new(side.wallet, false),
                        AccountMeta::new_readonly(token_program_id(), false),
                    ] + self.markets(true),
                    D_WITHDRAW_FROM_ISOLATED@ + (le(spot_market_index as int, 2) + le(0, 2)
                        + le(amount as int, 8)),
                    user.authority(),
                )
            }),
    {
        let user = self.users[user_idx];
        let side = self.spot_of(spot_market_index, &user);
        let mut args: Vec<u8> = Vec::new();
        push_u16(&mut args, spot_market_index);
        assert(args@ =~= le(spot_market_index as int, 2));
        push_u16(&mut args, 0);
        push_u64(&mut args, amount);
        let accounts = join(
            vec![
                AccountMeta::new_readonly(self.state_pda, false),
                AccountMeta::new(user.user_pda, false),
                AccountMeta::new(user.stats_pda, false),
                AccountMeta::new_readonly(user.keypair.pubkey(), true),
                AccountMeta::new(side.vault, false),
                AccountMeta::new_readonly(self.signer_pda, false),
                AccountMeta::new(side.wallet, false),
                AccountMeta::new_readonly(token_program_id(), false),
            ],
            self.market_ras(true),
        );
        self.submit(accounts, D_WITHDRAW_FROM_ISOLATED, &args, user.keypair.pubkey())
    }

    /// Moves collateral between the cross-margin pool and an isolated position.
    /// The sign is the direction: a positive amount goes into the position, a
    /// negative one comes back.
    pub fn action_transfer_isolated_deposit(
        &self,
        user_idx: usize,
        spot_market_index: u16,
        direction: u8,
        amount: u64,
    ) -> (r: Transaction)
        requires
            self.wf(),
            user_idx < NUM_USERS,
            amount <= i64::MAX,
        ensures
            ({
                let user = self.users@[user_idx as int];
                let side = self.side(spot_market_index, user);
                r@ == call(
                    self.program_id,
                    seq![
                        AccountMeta::new(user.user_pda, false),
                        AccountMeta::new(user.stats_pda, false),
                        AccountMeta::new_readonly(user.authority(), true),
                        AccountMeta::new_readonly(self.state_pda, false),
                        AccountMeta::new_readonly(side.vault, false),
                    ] + self.markets(true),
                    D_TRANSFER_ISOLATED_DEPOSIT@ + (le(spot_market_index as int, 2) + le(0, 2)
                        + le_signed(signed(amount, direction != 0), 8)),
                    user.authority(),
                )
            }),
    {
        let user = self.users[user_idx];
        let side = self.spot_of(spot_market_index, &user);
        let mut args: Vec<u8> = Vec::new();
        push_u16(&mut args, spot_market_index);
        assert(args@ =~= le(spot_market_index as int, 2));
        push_u16(&mut args, 0);
        push_i64(&mut args, signed_amount(amount, direction != 0));
        let accounts = join(
            vec![
                AccountMeta::new(user.user_pda, false),
                AccountMeta::new(user.stats_pda, false),
                AccountMeta::new_readonly(user.keypair.pubkey(), true),
                AccountMeta::new_readonly(self.state_pda, false),
                AccountMeta::new_readonly(side.vault, false),
            ],
            self.market_ras(true),
        );
        self.submit(accounts, D_TRANSFER_ISOLATED_DEPOSIT, &args, user.keypair.pubkey())
    }
}

} // verus!
