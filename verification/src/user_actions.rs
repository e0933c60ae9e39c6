//! Account settings, sub-accounts and the pokes that anyone may give.

use vstd::prelude::*;
use crate::constants::{NUM_FRESH, NUM_USERS};
use crate::discriminators::{
    D_DELETE_USER, D_FORCE_CANCEL_ORDERS, D_FORCE_DELETE_USER, D_INITIALIZE_REFERRER_NAME,
    D_LOG_USER_BALANCES, D_PAUSE_SPOT_MARKET_DEPOSIT_WITHDRAW, D_RECLAIM_RENT,
    D_SPECIAL_TRANSFER_PERP_TO_VAMM, D_TRANSFER_DEPOSIT, D_TRANSFER_DEPOSIT_BY_DELEGATE,
    D_TRANSFER_PERP_POSITION, D_TRIP_EQUITY_FLOOR_BREAKER, D_UPDATE_USER_ALLOW_DELEGATE_TRANSFER,
    D_UPDATE_USER_CUSTOM_MARGIN_RATIO, D_UPDATE_USER_DELEGATE, D_UPDATE_USER_EQUITY_FLOOR,
    D_UPDATE_USER_IDLE, D_UPDATE_USER_MARGIN_TRADING_ENABLED, D_UPDATE_USER_NAME,
    D_UPDATE_USER_PERP_POSITION_CUSTOM_MARGIN_RATIO, D_UPDATE_USER_POOL_ID,
    D_UPDATE_USER_REDUCE_ONLY, D_UPDATE_USER_STATS_REFERRER_STATUS, D_UPDATE_AMM_CACHE,
};
use crate::fixture::{
    addr, conditions_pda, conditions_seeds, derivable, init_stats, init_stats_call, init_user,
    init_user_call, pda_key, stats_pda, stats_seeds, user_pda, user_seeds, Fixture, UserAcct,
};
use crate::keys::{
    call, key_bytes, pda2, rent_sysvar_id, system_program_id, AccountMeta, Pubkey, Transaction,
    TransactionView,
};
use crate::trading::{join, next_user, next_user_index};
use crate::wire::{
    flag, flag_byte, i64_bytes, le, le_signed, opt, push_bytes, push_opt, push_u16, push_u64,
    push_u8, u16_bytes, u32_bytes,
};

verus! {

// ---------------------------------------------------------------------------
// Settings
// ---------------------------------------------------------------------------

impl Fixture {
    /// A setting of the sub-account at `target`. The sub-account's number leads
    /// the arguments and has to name the account that is passed. Settings that
    /// re-check margin walk every market, so all of them are passed.
    pub open spec fn setting_call(
        self,
        user: UserAcct,
        target: Pubkey,
        sub_account_id: u16,
        disc: Seq<u8>,
        value: Seq<u8>,
    ) -> TransactionView {
        call(
            self.program_id,
            seq![
                AccountMeta::new(target, false),
                AccountMeta::new_readonly(user.authority(), true),
            ] + self.markets(false),
            disc + (le(sub_account_id as int, 2) + value),
            user.authority(),
        )
    }

    fn setting(
        &self,
        user: &UserAcct,
        target: Pubkey,
        sub_account_id: u16,
        disc: [u8; 8],
        value: &Vec<u8>,
    ) -> (r: Transaction)
        ensures
            r@ == self.setting_call(*user, target, sub_account_id, disc@, value@),
    {
        let mut args = u16_bytes(sub_account_id);
        push_bytes(&mut args, value.as_slice());
        let accounts = join(
            vec![
                AccountMeta::new(target, false),
                AccountMeta::new_readonly(user.keypair.pubkey(), true),
            ],
            self.market_ras(false),
        );
        self.submit(accounts, disc, &args, user.keypair.pubkey())
    }

    /// A setting of a user's main account.
    pub fn send_user_setter(&self, user_idx: usize, disc: [u8; 8], value: &Vec<u8>) -> (r: Transaction)
        requires
            self.wf(),
            user_idx < NUM_USERS,
        ensures
            ({
                let user = self.users@[user_idx as int];
                r@ == self.setting_call(user, user.user_pda, 0, disc@, value@)
            }),
    {
        let user = self.users[user_idx];
        self.setting(&user, user.user_pda, 0, disc, value)
    }

    /// The address of a user's sub-account, where it has one.
    pub open spec fn sub_account_of(self, user: UserAcct, sub_account_id: u16) -> Option<Pubkey> {
        if sub_account_id == 0 {
            Some(user.user_pda)
        } else if derivable(user_seeds(user.authority(), sub_account_id), self.program_id) {
            Some(pda_key(user_seeds(user.authority(), sub_account_id), self.program_id))
        } else {
            None
        }
    }

    /// A setting of one of a user's sub-accounts; `None` where its address has
    /// no derivation.
    pub fn send_user_setter_for(
        &self,
        user_idx: usize,
        sub_account_id: u16,
        disc: [u8; 8],
        value: &Vec<u8>,
    ) -> (r: Option<Transaction>)
        requires
            self.wf(),
            user_idx < NUM_USERS,
        ensures
            r is Some <==> self.sub_account_of(self.users@[user_idx as int], sub_account_id) is Some,
            r matches Some(t) ==> ({
                let user = self.users@[user_idx as int];
                t@ == self.setting_call(
                    user,
                    self.sub_account_of(user, sub_account_id)->0,
                    sub_account_id,
                    disc@,
                    value@,
                )
            }),
    {
        let user = self.users[user_idx];
        let target = if sub_account_id == 0 {
            user.user_pda
        } else {
            let authority = user.keypair.pubkey();
            let (key, _) = user_pda(&authority, sub_account_id, self.program_id)?;
            key
        };
        Some(self.setting(&user, target, sub_account_id, disc, value))
    }

    /// Sets a margin ratio of the user's own.
    pub fn action_update_user_custom_margin_ratio(&self, user_idx: usize, margin_ratio: u32) -> (r:
        Transaction)
        requires
            self.wf(),
            user_idx < NUM_USERS,
        ensures
            ({
                let user = self.users@[user_idx as int];
                r@ == self.setting_call(
                    user,
                    user.user_pda,
                    0,
                    D_UPDATE_USER_CUSTOM_MARGIN_RATIO@,
                    le(margin_ratio as int, 4),
                )
            }),
    {
        self.send_user_setter(user_idx, D_UPDATE_USER_CUSTOM_MARGIN_RATIO, &u32_bytes(margin_ratio))
    }

    /// Turns margin trading on or off.
    pub fn action_update_user_margin_trading_enabled(&self, user_idx: usize, enabled: u8) -> (r:
        Transaction)
        requires
            self.wf(),
            user_idx < NUM_USERS,
        ensures
            r@ == self.margin_trading_call(self.users@[user_idx as int], enabled == 1),
    {
        let value: Vec<u8> = vec![flag_byte(enabled == 1)];
        assert(value@ =~= seq![flag(enabled == 1)]);
        self.send_user_setter(user_idx, D_UPDATE_USER_MARGIN_TRADING_ENABLED, &value)
    }

    pub open spec fn margin_trading_call(self, user: UserAcct, enabled: bool) -> TransactionView {
        self.setting_call(
            user,
            user.user_pda,
            0,
            D_UPDATE_USER_MARGIN_TRADING_ENABLED@,
            seq![flag(enabled)],
        )
    }

    /// Turns reduce-only on or off.
    pub fn action_update_user_reduce_only(&self, user_idx: usize, reduce_only: u8) -> (r:
        Transaction)
        requires
            self.wf(),
            user_idx < NUM_USERS,
        ensures
            ({
                let user = self.users@[user_idx as int];
                r@ == self.setting_call(
                    user,
                    user.user_pda,
                    0,
                    D_UPDATE_USER_REDUCE_ONLY@,
                    seq![flag(reduce_only == 1)],
                )
            }),
    {
        let value: Vec<u8> = vec![flag_byte(reduce_only == 1)];
        assert(value@ =~= seq![flag(reduce_only == 1)]);
        self.send_user_setter(user_idx, D_UPDATE_USER_REDUCE_ONLY, &value)
    }

    /// Names a user with one byte thirty-two times: the low byte of the choice.
    pub fn action_update_user_name(&self, user_idx: usize, byte: u16) -> (r: Transaction)
        requires
            self.wf(),
            user_idx < NUM_USERS,
        ensures
            ({
                let user = self.users@[user_idx as int];
                r@ == self.setting_call(
                    user,
                    user.user_pda,
                    0,
                    D_UPDATE_USER_NAME@,
                    Seq::new(32, |i: int| (byte % 256) as u8),
                )
            }),
    {
        let letter: u8 = (byte % 256) as u8;
        let value: Vec<u8> = vec![letter; 32];
        assert(value@ =~= Seq::new(32, |i: int| (byte % 256) as u8));
        self.send_user_setter(user_idx, D_UPDATE_USER_NAME, &value)
    }

    /// Moves a user to a pool.
    pub fn action_update_user_pool_id(&self, user_idx: usize, pool_id: u8) -> (r: Transaction)
        requires
            self.wf(),
            user_idx < NUM_USERS,
        ensures
            ({
                let user = self.users@[user_idx as int];
                r@ == self.setting_call(
                    user,
                    user.user_pda,
                    0,
                    D_UPDATE_USER_POOL_ID@,
                    seq![pool_id],
                )
            }),
    {
        let value: Vec<u8> = vec![pool_id];
        assert(value@ =~= seq![pool_id]);
        self.send_user_setter(user_idx, D_UPDATE_USER_POOL_ID, &value)
    }

    /// Moves a sub-account to a pool.
    pub fn sub_account_pool(&self, user_idx: usize, sub_account_id: u16, pool_id: u8) -> (r: Option<
        Transaction,
    >)
        requires
            self.wf(),
            user_idx < NUM_USERS,
        ensures
            r is Some <==> self.sub_account_of(self.users@[user_idx as int], sub_account_id) is Some,
            r matches Some(t) ==> ({
                let user = self.users@[user_idx as int];
                t@ == self.setting_call(
                    user,
                    self.sub_account_of(user, sub_account_id)->0,
                    sub_account_id,
                    D_UPDATE_USER_POOL_ID@,
                    seq![pool_id],
                )
            }),
    {
        let value: Vec<u8> = vec![pool_id];
        assert(value@ =~= seq![pool_id]);
        self.send_user_setter_for(user_idx, sub_account_id, D_UPDATE_USER_POOL_ID, &value)
    }

    /// Delegates a sub-account to the next user, or clears its delegate.
    pub fn action_update_user_delegate(&self, user_idx: usize, clear: u8, sub_account_id: u16) -> (r:
        Option<Transaction>)
        requires
            self.wf(),
            user_idx < NUM_USERS,
        ensures
            r is Some <==> self.sub_account_of(self.users@[user_idx as int], sub_account_id) is Some,
            r matches Some(t) ==> ({
                let user = self.users@[user_idx as int];
                let delegate = if clear == 1 {
                    system_program_id()
                } else {
                    self.users@[next_user(user_idx as int)].authority()
                };
                t@ == self.setting_call(
                    user,
                    self.sub_account_of(user, sub_account_id)->0,
                    sub_account_id,
                    D_UPDATE_USER_DELEGATE@,
                    delegate.bytes@,
                )
            }),
    {
        let delegate = if clear == 1 {
            system_program_id()
        } else {
            self.users[next_user_index(user_idx)].keypair.pubkey()
        };
        self.send_user_setter_for(
            user_idx,
            sub_account_id,
            D_UPDATE_USER_DELEGATE,
            &key_bytes(&delegate),
        )
    }

    /// Sets a margin ratio for one perp position.
    pub fn action_update_user_perp_position_custom_margin_ratio(
        &self,
        user_idx: usize,
        perp_market_index: u16,
        margin_ratio: u16,
    ) -> (r: Transaction)
        requires
            self.wf(),
            user_idx < NUM_USERS,
        ensures
            ({
                let user = self.users@[user_idx as int];
                r@ == self.setting_call(
                    user,
                    user.user_pda,
                    0,
                    D_UPDATE_USER_PERP_POSITION_CUSTOM_MARGIN_RATIO@,
                    le(perp_market_index as int, 2) + le(margin_ratio as int, 2),
                )
            }),
    {
        let mut value = u16_bytes(perp_market_index);
        push_u16(&mut value, margin_ratio);
        self.send_user_setter(user_idx, D_UPDATE_USER_PERP_POSITION_CUSTOM_MARGIN_RATIO, &value)
    }

    /// Allows or forbids transfers by a delegate. This setting belongs to the
    /// stats account and names no sub-account.
    pub fn action_update_user_allow_delegate_transfer(
        &self,
        user_idx: usize,
        allow: u8,
    ) -> (r: Transaction)
        requires
            self.wf(),
            user_idx < NUM_USERS,
        ensures
            ({
                let user = self.users@[user_idx as int];
                r@ == call(
                    self.program_id,
                    seq![
                        AccountMeta::new(user.stats_pda, false),
                        AccountMeta::new_readonly(user.authority(), true),
                    ],
                    D_UPDATE_USER_ALLOW_DELEGATE_TRANSFER@ + seq![flag(allow == 1)],
                    user.authority(),
                )
            }),
    {
        let user = self.users[user_idx];
        let mut args: Vec<u8> = Vec::new();
        push_u8(&mut args, flag_byte(allow == 1));
        assert(args@ =~= seq![flag(allow == 1)]);
        let accounts = vec![
            AccountMeta::new(user.stats_pda, false),
            AccountMeta::new_readonly(user.keypair.pubkey(), true),
        ];
        self.submit(accounts, D_UPDATE_USER_ALLOW_DELEGATE_TRANSFER, &args, user.keypair.pubkey())
    }
}

// ---------------------------------------------------------------------------
// Pokes
// ---------------------------------------------------------------------------

impl Fixture {
    /// A filler pokes the account at `target`. Balances may be settled, so the
    /// spot markets are writable.
    pub open spec fn poke_call(self, filler: UserAcct, target: Pubkey, disc: Seq<u8>) -> TransactionView {
        call(
            self.program_id,
            seq![
                AccountMeta::new_readonly(self.state_pda, false),
                AccountMeta::new_readonly(filler.authority(), true),
                AccountMeta::new(filler.user_pda, false),
                AccountMeta::new(target, false),
            ] + self.markets(true),
            disc,
            filler.authority(),
        )
    }

    fn poke(&self, filler: &UserAcct, target: Pubkey, disc: [u8; 8]) -> (r: Transaction)
        ensures
            r@ == self.poke_call(*filler, target, disc@),
    {
        let accounts = join(
            vec![
                AccountMeta::new_readonly(self.state_pda, false),
                AccountMeta::new_readonly(filler.keypair.pubkey(), true),
                AccountMeta::new(filler.user_pda, false),
                AccountMeta::new(target, false),
            ],
            self.market_ras(true),
        );
        self.submit_bare(accounts, disc, filler.keypair.pubkey())
    }

    /// One user pokes another.
    pub fn send_filler_ix(&self, target_idx: usize, filler_idx: usize, disc: [u8; 8]) -> (r:
        Transaction)
        requires
            self.wf(),
            target_idx < NUM_USERS,
        ensures
            r@ == self.poke_call(
                self.users@[filler_idx as int % NUM_USERS as int],
                self.users@[target_idx as int].user_pda,
                disc@,
            ),
    {
        let target = self.users[target_idx].user_pda;
        let filler = self.users[filler_idx % NUM_USERS];
        self.poke(&filler, target, disc)
    }

    /// Marks an account idle: another user's, or that of a fresh authority.
    /// `None` where the latter's address has no derivation.
    pub fn action_update_user_idle(
        &self,
        target_idx: usize,
        filler_idx: usize,
        target_fresh: u8,
        fresh_idx: usize,
    ) -> (r: Option<Transaction>)
        requires
            self.wf(),
            target_idx < NUM_USERS,
            fresh_idx < NUM_FRESH,
        ensures
            r is Some <==> (target_fresh == 1 ==> derivable(
                user_seeds(addr(self.fresh@[fresh_idx as int]), 0),
                self.program_id,
            )),
            r matches Some(t) ==> t@ == self.poke_call(
                self.users@[filler_idx as int % NUM_USERS as int],
                if target_fresh == 1 {
                    pda_key(user_seeds(addr(self.fresh@[fresh_idx as int]), 0), self.program_id)
                } else {
                    self.users@[target_idx as int].user_pda
                },
                D_UPDATE_USER_IDLE@,
            ),
    {
        if target_fresh == 1 {
            let authority = self.fresh[fresh_idx].pubkey();
            let (user, _) = user_pda(&authority, 0, self.program_id)?;
            let filler = self.users[filler_idx % NUM_USERS];
            return Some(self.poke(&filler, user, D_UPDATE_USER_IDLE));
        }
        Some(self.send_filler_ix(target_idx, filler_idx, D_UPDATE_USER_IDLE))
    }

    /// Cancels the orders of an account below its margin.
    pub fn action_force_cancel_orders(&self, target_idx: usize, filler_idx: usize) -> (r:
        Transaction)
        requires
            self.wf(),
            target_idx < NUM_USERS,
        ensures
            r@ == self.poke_call(
                self.users@[filler_idx as int % NUM_USERS as int],
                self.users@[target_idx as int].user_pda,
                D_FORCE_CANCEL_ORDERS@,
            ),
    {
        self.send_filler_ix(target_idx, filler_idx, D_FORCE_CANCEL_ORDERS)
    }

    /// Logs a user's balances; any user may ask.
    pub fn action_log_user_balances(&self, target_idx: usize, signer_idx: usize) -> (r: Transaction)
        requires
            self.wf(),
            target_idx < NUM_USERS,
        ensures
            ({
                let target = self.users@[target_idx as int];
                let signer_user = self.users@[signer_idx as int % NUM_USERS as int];
                r@ == call(
                    self.program_id,
                    seq![
                        AccountMeta::new_readonly(self.state_pda, false),
                        AccountMeta::new_readonly(signer_user.authority(), true),
                        AccountMeta::new(target.user_pda, false),
                    ] + self.markets(true),
                    D_LOG_USER_BALANCES@,
                    signer_user.authority(),
                )
            }),
    {
        let target = self.users[target_idx];
        let signer_user = self.users[signer_idx % NUM_USERS];
        let accounts = join(
            vec![
                AccountMeta::new_readonly(self.state_pda, false),
                AccountMeta::new_readonly(signer_user.keypair.pubkey(), true),
                AccountMeta::new(target.user_pda, false),
            ],
            self.market_ras(true),
        );
        self.submit_bare(accounts, D_LOG_USER_BALANCES, signer_user.keypair.pubkey())
    }
}

// ---------------------------------------------------------------------------
// Opening and closing accounts
// ---------------------------------------------------------------------------

/// An account that can be closed.
#[derive(Clone, Copy, PartialEq, Eq, Debug)]
pub struct Target {
    pub authority: Pubkey,
    pub user_pda: Pubkey,
    pub stats_pda: Pubkey,
}

impl Fixture {
    /// The account to close: that of a fresh authority, or a user's.
    pub open spec fn target(self, user_idx: int, target_fresh: bool, fresh_idx: int) -> Target {
        if target_fresh {
            let authority = addr(self.fresh@[fresh_idx]);
            Target {
                authority,
                user_pda: pda_key(user_seeds(authority, 0), self.program_id),
                stats_pda: pda_key(stats_seeds(authority), self.program_id),
            }
        } else {
            let user = self.users@[user_idx];
            Target {
                authority: user.authority(),
                user_pda: user.user_pda,
                stats_pda: user.stats_pda,
            }
        }
    }

    /// The addresses of the account to close can be derived.
    pub open spec fn has_target(self, target_fresh: bool, fresh_idx: int) -> bool {
        target_fresh ==> derivable(stats_seeds(addr(self.fresh@[fresh_idx])), self.program_id)
            && derivable(user_seeds(addr(self.fresh@[fresh_idx]), 0), self.program_id)
    }

    fn pick_target(&self, user_idx: usize, target_fresh: bool, fresh_idx: usize) -> (r: Option<
        Target,
    >)
        requires
            self.wf(),
            user_idx < NUM_USERS,
            fresh_idx < NUM_FRESH,
        ensures
            r is Some <==> self.has_target(target_fresh, fresh_idx as int),
            r matches Some(t) ==> t == self.target(
                user_idx as int,
                target_fresh,
                fresh_idx as int,
            ),
    {
        if target_fresh {
            let authority = self.fresh[fresh_idx].pubkey();
            let (stats, _) = stats_pda(&authority, self.program_id)?;
            let (user, _) = user_pda(&authority, 0, self.program_id)?;
            Some(Target { authority, user_pda: user, stats_pda: stats })
        } else {
            let user = self.users[user_idx];
            Some(
                Target {
                    authority: user.keypair.pubkey(),
                    user_pda: user.user_pda,
                    stats_pda: user.stats_pda,
                },
            )
        }
    }

    /// Closes an account by its authority.
    pub fn action_delete_user(&self, user_idx: usize, target_fresh: u8, fresh_idx: usize) -> (r:
        Option<Transaction>)
        requires
            self.wf(),
            user_idx < NUM_USERS,
            fresh_idx < NUM_FRESH,
        ensures
            r is Some <==> self.has_target(target_fresh == 1, fresh_idx as int),
            r matches Some(t) ==> ({
                let target = self.target(user_idx as int, target_fresh == 1, fresh_idx as int);
                t@ == call(
                    self.program_id,
                    seq![
                        AccountMeta::new(target.user_pda, false),
                        AccountMeta::new(target.stats_pda, false),
                        AccountMeta::new(self.state_pda, false),
                        AccountMeta::new(target.authority, true),
                    ],
                    D_DELETE_USER@,
                    target.authority,
                )
            }),
    {
        let target = self.pick_target(user_idx, target_fresh == 1, fresh_idx)?;
        Some(
            self.submit_bare(
                vec![
                    AccountMeta::new(target.user_pda, false),
                    AccountMeta::new(target.stats_pda, false),
                    AccountMeta::new(self.state_pda, false),
                    AccountMeta::new(target.authority, true),
                ],
                D_DELETE_USER,
                target.authority,
            ),
        )
    }

    /// Closes an abandoned account by the keeper.
    pub fn action_force_delete_user(
        &self,
        user_idx: usize,
        target_fresh: u8,
        fresh_idx: usize,
    ) -> (r: Option<Transaction>)
        requires
            self.wf(),
            user_idx < NUM_USERS,
            fresh_idx < NUM_FRESH,
        ensures
            r is Some <==> self.has_target(target_fresh == 1, fresh_idx as int),
            r matches Some(t) ==> ({
                let target = self.target(user_idx as int, target_fresh == 1, fresh_idx as int);
                t@ == call(
                    self.program_id,
                    seq![
                        AccountMeta::new(target.user_pda, false),
                        AccountMeta::new(target.stats_pda, false),
                        AccountMeta::new(self.state_pda, false),
                        AccountMeta::new(target.authority, false),
                        AccountMeta::new(addr(self.crank), true),
                        AccountMeta::new_readonly(self.signer_pda, false),
                    ] + self.markets(false),
                    D_FORCE_DELETE_USER@,
                    addr(self.crank),
                )
            }),
    {
        let target = self.pick_target(user_idx, target_fresh == 1, fresh_idx)?;
        let accounts = join(
            vec![
                AccountMeta::new(target.user_pda, false),
                AccountMeta::new(target.stats_pda, false),
                AccountMeta::new(self.state_pda, false),
                AccountMeta::new(target.authority, false),
                AccountMeta::new(self.crank.pubkey(), true),
                AccountMeta::new_readonly(self.signer_pda, false),
            ],
            self.market_ras(false),
        );
        Some(self.submit_bare(accounts, D_FORCE_DELETE_USER, self.crank.pubkey()))
    }

    /// Refunds the lamports of a user account above its rent.
    pub fn action_reclaim_rent(&self, user_idx: usize) -> (r: Transaction)
        requires
            self.wf(),
            user_idx < NUM_USERS,
        ensures
            ({
                let user = self.users@[user_idx as int];
                r@ == call(
                    self.program_id,
                    seq![
                        AccountMeta::new(user.user_pda, false),
                        AccountMeta::new(user.stats_pda, false),
                        AccountMeta::new_readonly(self.state_pda, false),
                        AccountMeta::new_readonly(user.authority(), true),
                        AccountMeta::new_readonly(rent_sysvar_id(), false),
                    ],
                    D_RECLAIM_RENT@,
                    user.authority(),
                )
            }),
    {
        let user = self.users[user_idx];
        let accounts = vec![
            AccountMeta::new(user.user_pda, false),
            AccountMeta::new(user.stats_pda, false),
            AccountMeta::new_readonly(self.state_pda, false),
            AccountMeta::new_readonly(user.keypair.pubkey(), true),
            AccountMeta::new_readonly(rent_sysvar_id(), false),
        ];
        self.submit_bare(accounts, D_RECLAIM_RENT, user.keypair.pubkey())
    }

    /// Opens a further sub-account of a user; `None` where an address has no
    /// derivation.
    pub fn action_initialize_sub_account(&self, user_idx: usize, sub_account_id: u16) -> (r: Option<
        Transaction,
    >)
        requires
            self.wf(),
            user_idx < NUM_USERS,
        ensures
            r is Some <==> self.can_open(
                self.users@[user_idx as int].authority(),
                sub_account_id,
            ),
            r matches Some(t) ==> ({
                let user = self.users@[user_idx as int];
                let sub = pda_key(user_seeds(user.authority(), sub_account_id), self.program_id);
                t@ == init_user_call(
                    self.program_id,
                    self.state_pda,
                    user.authority(),
                    user.stats_pda,
                    sub,
                    pda_key(conditions_seeds(sub), self.program_id),
                    sub_account_id,
                )
            }),
    {
        let user = self.users[user_idx];
        let authority = user.keypair.pubkey();
        let (sub, _) = user_pda(&authority, sub_account_id, self.program_id)?;
        let (conditions, _) = conditions_pda(&sub, self.program_id)?;
        Some(
            init_user(
                self.program_id,
                self.state_pda,
                authority,
                user.stats_pda,
                sub,
                conditions,
                sub_account_id,
            ),
        )
    }

    /// A sub-account and the account that watches over it have addresses.
    pub open spec fn can_open(self, authority: Pubkey, sub_account_id: u16) -> bool {
        let seeds = user_seeds(authority, sub_account_id);
        derivable(seeds, self.program_id) && derivable(
            conditions_seeds(pda_key(seeds, self.program_id)),
            self.program_id,
        )
    }

    /// Opens the stats account of a fresh authority.
    pub fn action_initialize_user_stats(&self, fresh_idx: usize) -> (r: Option<Transaction>)
        requires
            self.wf(),
            fresh_idx < NUM_FRESH,
        ensures
            r is Some <==> derivable(
                stats_seeds(addr(self.fresh@[fresh_idx as int])),
                self.program_id,
            ),
            r matches Some(t) ==> ({
                let authority = addr(self.fresh@[fresh_idx as int]);
                t@ == init_stats_call(
                    self.program_id,
                    self.state_pda,
                    authority,
                    pda_key(stats_seeds(authority), self.program_id),
                )
            }),
    {
        let authority = self.fresh[fresh_idx].pubkey();
        let (stats, _) = stats_pda(&authority, self.program_id)?;
        Some(init_stats(self.program_id, self.state_pda, authority, stats))
    }

    /// Opens a sub-account of a fresh authority.
    pub fn action_initialize_fresh_user(&self, fresh_idx: usize, sub_account_id: u16) -> (r: Option<
        Transaction,
    >)
        requires
            self.wf(),
            fresh_idx < NUM_FRESH,
        ensures
            r is Some <==> ({
                let authority = addr(self.fresh@[fresh_idx as int]);
                derivable(stats_seeds(authority), self.program_id) && self.can_open(
                    authority,
                    sub_account_id,
                )
            }),
            r matches Some(t) ==> ({
                let authority = addr(self.fresh@[fresh_idx as int]);
                let user = pda_key(user_seeds(authority, sub_account_id), self.program_id);
                t@ == init_user_call(
                    self.program_id,
                    self.state_pda,
                    authority,
                    pda_key(stats_seeds(authority), self.program_id),
                    user,
                    pda_key(conditions_seeds(user), self.program_id),
                    sub_account_id,
                )
            }),
    {
        let authority = self.fresh[fresh_idx].pubkey();
        let (stats, _) = stats_pda(&authority, self.program_id)?;
        let (user, _) = user_pda(&authority, sub_account_id, self.program_id)?;
        let (conditions, _) = conditions_pda(&user, self.program_id)?;
        Some(
            init_user(
                self.program_id,
                self.state_pda,
                authority,
                stats,
                user,
                conditions,
                sub_account_id,
            ),
        )
    }

    /// Claims a referral name: a letter from `a` on, then zero bytes. The name
    /// derives the account that holds it.
    pub fn action_initialize_referrer_name(&self, user_idx: usize, name_sel: u8) -> (r: Option<
        Transaction,
    >)
        requires
            self.wf(),
            user_idx < NUM_USERS,
            name_sel <= 158,
        ensures
            r is Some <==> derivable(referrer_seeds(name_sel), self.program_id),
            r matches Some(t) ==> ({
                let user = self.users@[user_idx as int];
                t@ == call(
                    self.program_id,
                    seq![
                        AccountMeta::new(pda_key(referrer_seeds(name_sel), self.program_id), false),
                        AccountMeta::new(user.user_pda, false),
                        AccountMeta::new(user.stats_pda, false),
                        AccountMeta::new_readonly(user.authority(), true),
                        AccountMeta::new(user.authority(), true),
                        AccountMeta::new_readonly(rent_sysvar_id(), false),
                        AccountMeta::new_readonly(system_program_id(), false),
                    ],
                    D_INITIALIZE_REFERRER_NAME@ + referrer_name(name_sel),
                    user.authority(),
                )
            }),
    {
        let user = self.users[user_idx];
        let (name_pda, _) = pda2("referrer_name", referrer_name_of(name_sel), self.program_id)?;
        Some(
            self.submit(
                vec![
                    AccountMeta::new(name_pda, false),
                    AccountMeta::new(user.user_pda, false),
                    AccountMeta::new(user.stats_pda, false),
                    AccountMeta::new_readonly(user.keypair.pubkey(), true),
                    AccountMeta::new(user.keypair.pubkey(), true),
                    AccountMeta::new_readonly(rent_sysvar_id(), false),
                    AccountMeta::new_readonly(system_program_id(), false),
                ],
                D_INITIALIZE_REFERRER_NAME,
                &referrer_name_of(name_sel),
                user.keypair.pubkey(),
            ),
        )
    }
}

/// A one-letter name in thirty-two bytes.
pub open spec fn referrer_name(name_sel: u8) -> Seq<u8> {
    Seq::new(
        32,
        |i: int|
            if i == 0 {
                (97 + name_sel) as u8
            } else {
                0u8
            },
    )
}

pub open spec fn referrer_seeds(name_sel: u8) -> Seq<Seq<u8>> {
    seq![crate::keys::text("referrer_name"), referrer_name(name_sel)]
}

fn referrer_name_of(name_sel: u8) -> (r: Vec<u8>)
    requires
        name_sel <= 158,
    ensures
        r@ == referrer_name(name_sel),
{
    let mut name: Vec<u8> = vec![0u8; 32];
    name.set(0, 97 + name_sel);
    assert(name@ =~= referrer_name(name_sel));
    name
}

// ---------------------------------------------------------------------------
// Transfers
// ---------------------------------------------------------------------------

/// The two ends of a transfer between a user's main account and another of its
/// sub-accounts.
pub open spec fn transfer_ends(main: Pubkey, sub: Pubkey, reverse: bool) -> (Pubkey, Pubkey) {
    if reverse {
        (sub, main)
    } else {
        (main, sub)
    }
}

fn transfer_ends_of(main: Pubkey, sub: Pubkey, reverse: bool) -> (r: (Pubkey, Pubkey))
    ensures
        r == transfer_ends(main, sub, reverse),
{
    if reverse {
        (sub, main)
    } else {
        (main, sub)
    }
}

/// A signed amount: the magnitude, negated where asked.
pub open spec fn signed(magnitude: u64, negative: bool) -> int {
    if negative {
        -(magnitude as int)
    } else {
        magnitude as int
    }
}

/// Signs an amount that fits.
pub fn signed_amount(magnitude: u64, negative: bool) -> (r: i64)
    requires
        magnitude <= i64::MAX,
    ensures
        r == signed(magnitude, negative),
{
    if negative {
        -(magnitude as i64)
    } else {
        magnitude as i64
    }
}

impl Fixture {
    /// Moves quote collateral between two sub-accounts of one authority.
    pub fn action_transfer_deposit(
        &self,
        user_idx: usize,
        sub_account_id: u16,
        amount: u64,
        reverse: u8,
    ) -> (r: Option<Transaction>)
        requires
            self.wf(),
            user_idx < NUM_USERS,
        ensures
            r is Some <==> ({
                let user = self.users@[user_idx as int];
                derivable(user_seeds(user.authority(), sub_account_id), self.program_id)
            }),
            r matches Some(t) ==> ({
                let user = self.users@[user_idx as int];
                let sub = pda_key(user_seeds(user.authority(), sub_account_id), self.program_id);
                let (from, to) = transfer_ends(user.user_pda, sub, reverse == 1);
                t@ == call(
                    self.program_id,
                    seq![
                        AccountMeta::new(from, false),
                        AccountMeta::new(to, false),
                        AccountMeta::new(user.stats_pda, false),
                        AccountMeta::new_readonly(user.authority(), true),
                        AccountMeta::new_readonly(self.state_pda, false),
                        AccountMeta::new_readonly(self.spot_vault_pda, false),
                    ] + self.markets(true),
                    D_TRANSFER_DEPOSIT@ + (le(0, 2) + le(amount as int, 8)),
                    user.authority(),
                )
            }),
    {
        let user = self.users[user_idx];
        let (sub, _) = user_pda(&user.keypair.pubkey(), sub_account_id, self.program_id)?;
        let (from, to) = transfer_ends_of(user.user_pda, sub, reverse == 1);
        let mut args: Vec<u8> = Vec::new();
        push_u16(&mut args, 0);
        assert(args@ =~= le(0, 2));
        push_u64(&mut args, amount);
        let accounts = join(
            vec![
                AccountMeta::new(from, false),
                AccountMeta::new(to, false),
                AccountMeta::new(user.stats_pda, false),
                AccountMeta::new_readonly(user.keypair.pubkey(), true),
                AccountMeta::new_readonly(self.state_pda, false),
                AccountMeta::new_readonly(self.spot_vault_pda, false),
            ],
            self.market_ras(true),
        );
        Some(self.submit(accounts, D_TRANSFER_DEPOSIT, &args, user.keypair.pubkey()))
    }

    /// Moves a perp position between two sub-accounts of one authority, all of
    /// it or a signed amount.
    pub fn action_transfer_perp_position(
        &self,
        user_idx: usize,
        sub_account_id: u16,
        with_amount: u8,
        amount_mag: u64,
        negative: u8,
        reverse: u8,
    ) -> (r: Option<Transaction>)
        requires
            self.wf(),
            user_idx < NUM_USERS,
            amount_mag <= i64::MAX,
        ensures
            r is Some <==> ({
                let user = self.users@[user_idx as int];
                derivable(user_seeds(user.authority(), sub_account_id), self.program_id)
            }),
            r matches Some(t) ==> ({
                let user = self.users@[user_idx as int];
                let sub = pda_key(user_seeds(user.authority(), sub_account_id), self.program_id);
                let (from, to) = transfer_ends(user.user_pda, sub, reverse == 1);
                t@ == call(
                    self.program_id,
                    seq![
                        AccountMeta::new(from, false),
                        AccountMeta::new(to, false),
                        AccountMeta::new(user.stats_pda, false),
                        AccountMeta::new_readonly(user.authority(), true),
                        AccountMeta::new_readonly(self.state_pda, false),
                    ] + self.markets(false),
                    D_TRANSFER_PERP_POSITION@ + (le(0, 2)
                        + opt(with_amount == 1, le_signed(signed(amount_mag, negative == 1), 8))),
                    user.authority(),
                )
            }),
    {
        let user = self.users[user_idx];
        let (sub, _) = user_pda(&user.keypair.pubkey(), sub_account_id, self.program_id)?;
        let (from, to) = transfer_ends_of(user.user_pda, sub, reverse == 1);
        let mut args: Vec<u8> = Vec::new();
        push_u16(&mut args, 0);
        assert(args@ =~= le(0, 2));
        push_opt(&mut args, with_amount == 1, &i64_bytes(signed_amount(amount_mag, negative == 1)));
        let accounts = join(
            vec![
                AccountMeta::new(from, false),
                AccountMeta::new(to, false),
                AccountMeta::new(user.stats_pda, false),
                AccountMeta::new_readonly(user.keypair.pubkey(), true),
                AccountMeta::new_readonly(self.state_pda, false),
            ],
            self.market_ras(false),
        );
        Some(self.submit(accounts, D_TRANSFER_PERP_POSITION, &args, user.keypair.pubkey()))
    }

    /// Moves quote collateral to a sub-account, signed by the owner's delegate:
    /// the next user.
    pub fn action_transfer_deposit_by_delegate(
        &self,
        owner_idx: usize,
        sub_account_id: u16,
        amount: u64,
        equity_floor_delta: u64,
    ) -> (r: Option<Transaction>)
        requires
            self.wf(),
            owner_idx < NUM_USERS,
        ensures
            r is Some <==> ({
                let owner = self.users@[owner_idx as int];
                let delegate = self.users@[next_user(owner_idx as int)];
                derivable(user_seeds(owner.authority(), sub_account_id), self.program_id)
            }),
            r matches Some(t) ==> ({
                let owner = self.users@[owner_idx as int];
                let delegate = self.users@[next_user(owner_idx as int)];
                let sub = pda_key(user_seeds(owner.authority(), sub_account_id), self.program_id);
                t@ == call(
                    self.program_id,
                    seq![
                        AccountMeta::new(owner.user_pda, false),
                        AccountMeta::new(sub, false),
                        AccountMeta::new_readonly(owner.stats_pda, false),
                        AccountMeta::new_readonly(delegate.authority(), true),
                        AccountMeta::new_readonly(self.state_pda, false),
                        AccountMeta::new_readonly(self.spot_vault_pda, false),
                    ] + self.markets(true),
                    D_TRANSFER_DEPOSIT_BY_DELEGATE@ + (le(0, 2) + le(amount as int, 8)
                        + le(equity_floor_delta as int, 8)),
                    delegate.authority(),
                )
            }),
    {
        let owner = self.users[owner_idx];
        let delegate = self.users[next_user_index(owner_idx)];
        let (sub, _) = user_pda(&owner.keypair.pubkey(), sub_account_id, self.program_id)?;
        let mut args: Vec<u8> = Vec::new();
        push_u16(&mut args, 0);
        assert(args@ =~= le(0, 2));
        push_u64(&mut args, amount);
        push_u64(&mut args, equity_floor_delta);
        let accounts = join(
            vec![
                AccountMeta::new(owner.user_pda, false),
                AccountMeta::new(sub, false),
                AccountMeta::new_readonly(owner.stats_pda, false),
                AccountMeta::new_readonly(delegate.keypair.pubkey(), true),
                AccountMeta::new_readonly(self.state_pda, false),
                AccountMeta::new_readonly(self.spot_vault_pda, false),
            ],
            self.market_ras(true),
        );
        Some(
            self.submit(accounts, D_TRANSFER_DEPOSIT_BY_DELEGATE, &args, delegate.keypair.pubkey()),
        )
    }

    /// Hands a user's perp exposure back to the AMM, all of it or a signed
    /// amount.
    pub fn action_special_transfer_perp_to_vamm(
        &self,
        user_idx: usize,
        with_amount: u8,
        amount_mag: u64,
        negative: u8,
    ) -> (r: Transaction)
        requires
            self.wf(),
            user_idx < NUM_USERS,
            amount_mag <= i64::MAX,
        ensures
            ({
                let user = self.users@[user_idx as int];
                r@ == call(
                    self.program_id,
                    seq![
                        AccountMeta::new(user.user_pda, false),
                        AccountMeta::new_readonly(user.authority(), true),
                        AccountMeta::new_readonly(self.state_pda, false),
                    ] + self.markets(true),
                    D_SPECIAL_TRANSFER_PERP_TO_VAMM@ + (le(0, 2)
                        + opt(with_amount == 1, le_signed(signed(amount_mag, negative == 1), 8))),
                    user.authority(),
                )
            }),
    {
        let user = self.users[user_idx];
        let mut args: Vec<u8> = Vec::new();
        push_u16(&mut args, 0);
        assert(args@ =~= le(0, 2));
        push_opt(&mut args, with_amount == 1, &i64_bytes(signed_amount(amount_mag, negative == 1)));
        let accounts = join(
            vec![
                AccountMeta::new(user.user_pda, false),
                AccountMeta::new_readonly(user.keypair.pubkey(), true),
                AccountMeta::new_readonly(self.state_pda, false),
            ],
            self.market_ras(true),
        );
        self.submit(accounts, D_SPECIAL_TRANSFER_PERP_TO_VAMM, &args, user.keypair.pubkey())
    }
}

// ---------------------------------------------------------------------------
// Keeper pokes
// ---------------------------------------------------------------------------

/// An equity floor: one that no account can clear, or one that all do.
pub open spec fn equity_floor(floor_sel: u8) -> u64 {
    if floor_sel == 0 {
        u64::MAX / 2
    } else {
        1
    }
}

impl Fixture {
    /// Trips the breaker of the quote market.
    pub fn action_pause_spot_market_deposit_withdraw(&self) -> (r: Transaction)
        ensures
            r@ == call(
                self.program_id,
                seq![
                    AccountMeta::new_readonly(self.state_pda, false),
                    AccountMeta::new_readonly(addr(self.crank), true),
                    AccountMeta::new(self.spot_market_pda, false),
                    AccountMeta::new_readonly(self.spot_vault_pda, false),
                ],
                D_PAUSE_SPOT_MARKET_DEPOSIT_WITHDRAW@,
                addr(self.crank),
            ),
    {
        let accounts = vec![
            AccountMeta::new_readonly(self.state_pda, false),
            AccountMeta::new_readonly(self.crank.pubkey(), true),
            AccountMeta::new(self.spot_market_pda, false),
            AccountMeta::new_readonly(self.spot_vault_pda, false),
        ];
        self.submit_bare(accounts, D_PAUSE_SPOT_MARKET_DEPOSIT_WITHDRAW, self.crank.pubkey())
    }

    /// Gives a user an equity floor, which only the admin can, before
    /// [`Fixture::action_trip_equity_floor_breaker`].
    pub fn set_equity_floor(&self, user_idx: usize, floor_sel: u8) -> (r: Transaction)
        requires
            self.wf(),
            user_idx < NUM_USERS,
        ensures
            ({
                let user = self.users@[user_idx as int];
                r@ == call(
                    self.program_id,
                    seq![
                        AccountMeta::new_readonly(addr(self.admin), true),
                        AccountMeta::new_readonly(self.state_pda, false),
                        AccountMeta::new(user.user_pda, false),
                    ],
                    D_UPDATE_USER_EQUITY_FLOOR@ + le(equity_floor(floor_sel) as int, 8),
                    addr(self.admin),
                )
            }),
    {
        let user = self.users[user_idx];
        let mut args: Vec<u8> = Vec::new();
        push_u64(&mut args, if floor_sel == 0 {
            u64::MAX / 2
        } else {
            1
        });
        assert(args@ =~= le(equity_floor(floor_sel) as int, 8));
        let accounts = vec![
            AccountMeta::new_readonly(self.admin.pubkey(), true),
            AccountMeta::new_readonly(self.state_pda, false),
            AccountMeta::new(user.user_pda, false),
        ];
        self.submit(accounts, D_UPDATE_USER_EQUITY_FLOOR, &args, self.admin.pubkey())
    }

    /// Flags a user whose equity fell through its floor.
    pub fn action_trip_equity_floor_breaker(&self, user_idx: usize) -> (r: Transaction)
        requires
            self.wf(),
            user_idx < NUM_USERS,
        ensures
            ({
                let user = self.users@[user_idx as int];
                r@ == call(
                    self.program_id,
                    seq![
                        AccountMeta::new_readonly(self.state_pda, false),
                        AccountMeta::new_readonly(addr(self.crank), true),
                        AccountMeta::new_readonly(user.user_pda, false),
                        AccountMeta::new(user.stats_pda, false),
                    ] + self.markets(false),
                    D_TRIP_EQUITY_FLOOR_BREAKER@,
                    addr(self.crank),
                )
            }),
    {
        let user = self.users[user_idx];
        let accounts = join(
            vec![
                AccountMeta::new_readonly(self.state_pda, false),
                AccountMeta::new_readonly(self.crank.pubkey(), true),
                AccountMeta::new_readonly(user.user_pda, false),
                AccountMeta::new(user.stats_pda, false),
            ],
            self.market_ras(false),
        );
        self.submit_bare(accounts, D_TRIP_EQUITY_FLOOR_BREAKER, self.crank.pubkey())
    }

    /// Refreshes the referrer flags of a user.
    pub fn action_update_user_stats_referrer_status(&self, user_idx: usize) -> (r: Transaction)
        requires
            self.wf(),
            user_idx < NUM_USERS,
        ensures
            ({
                let user = self.users@[user_idx as int];
                r@ == call(
                    self.program_id,
                    seq![
                        AccountMeta::new_readonly(self.state_pda, false),
                        AccountMeta::new_readonly(user.authority(), true),
                        AccountMeta::new(user.stats_pda, false),
                    ],
                    D_UPDATE_USER_STATS_REFERRER_STATUS@,
                    user.authority(),
                )
            }),
    {
        let user = self.users[user_idx];
        let accounts = vec![
            AccountMeta::new_readonly(self.state_pda, false),
            AccountMeta::new_readonly(user.keypair.pubkey(), true),
            AccountMeta::new(user.stats_pda, false),
        ];
        self.submit_bare(accounts, D_UPDATE_USER_STATS_REFERRER_STATUS, user.keypair.pubkey())
    }

    /// Refreshes the AMM cache.
    pub fn action_update_amm_cache(&self) -> (r: Transaction)
        ensures
            r@ == call(
                self.program_id,
                seq![
                    AccountMeta::new(addr(self.crank), true),
                    AccountMeta::new_readonly(self.state_pda, false),
                    AccountMeta::new(self.amm_cache_pda, false),
                    AccountMeta::new_readonly(self.spot_market_pda, false),
                ] + self.markets(false),
                D_UPDATE_AMM_CACHE@,
                addr(self.crank),
            ),
    {
        let accounts = join(
            vec![
                AccountMeta::new(self.crank.pubkey(), true),
                AccountMeta::new_readonly(self.state_pda, false),
                AccountMeta::new(self.amm_cache_pda, false),
                AccountMeta::new_readonly(self.spot_market_pda, false),
            ],
            self.market_ras(false),
        );
        self.submit_bare(accounts, D_UPDATE_AMM_CACHE, self.crank.pubkey())
    }
}

} // verus!
