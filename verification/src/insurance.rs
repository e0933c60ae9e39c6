//! Insurance-fund staking and the revenue that feeds it.

use vstd::prelude::*;
use crate::constants::NUM_USERS;
use crate::discriminators::{
    D_ADD_IF_STAKE, D_CANCEL_REQUEST_REMOVE_IF_STAKE, D_DEPOSIT_INTO_REVENUE_POOL,
    D_INITIALIZE_IF_STAKE, D_REMOVE_IF_STAKE, D_REQUEST_REMOVE_IF_STAKE, D_SETTLE_REVENUE_TO_IF,
    D_SWEEP_PERP_MARKET_FEES, D_UPDATE_SPOT_MARKET_CUMULATIVE_INTEREST,
    D_UPDATE_USER_QUOTE_ASSET_IF_STAKE, D_WITHDRAW_PROTOCOL_FEES_PERP,
    D_WITHDRAW_PROTOCOL_FEES_SPOT,
};
use crate::fixture::{addr, derivable, pda_key, Fixture};
use crate::keys::{
    associated_token_program_id, ata, ata_of, call, key_bytes, pda3, rent_sysvar_id,
    system_program_id, token_program_id, AccountMeta, Pubkey, Transaction,
};
use crate::wire::{le, push_u16, push_u64, u16_bytes};

verus! {

/// The seeds of an authority's stake in the quote market's insurance fund.
pub open spec fn stake_seeds(authority: Pubkey) -> Seq<Seq<u8>> {
    seq![crate::keys::text("insurance_fund_stake"), authority.bytes@, le(0, 2)]
}

/// The address of an authority's stake in the quote market's insurance fund.
pub fn if_stake_pda(authority: &Pubkey, program: Pubkey) -> (r: Option<(Pubkey, u8)>)
    ensures
        r == crate::keys::program_address(stake_seeds(*authority), program),
{
    pda3("insurance_fund_stake", key_bytes(authority), u16_bytes(0), program)
}

// ---------------------------------------------------------------------------
// Staking
// ---------------------------------------------------------------------------

impl Fixture {
    /// Opens a user's stake.
    pub fn action_initialize_if_stake(
        &self,
        user_idx: usize,
        market_index: u16,
    ) -> (r: Option<Transaction>)
        requires
            self.wf(),
            user_idx < NUM_USERS,
        ensures
            r is Some <==> ({
                let user = self.users@[user_idx as int];
                derivable(stake_seeds(user.authority()), self.program_id)
            }),
            r matches Some(t) ==> ({
                let user = self.users@[user_idx as int];
                let stake = pda_key(stake_seeds(user.authority()), self.program_id);
                t@ == call(
                    self.program_id,
                    seq![
                        AccountMeta::new_readonly(self.spot_market_pda, false),
                        AccountMeta::new(stake, false),
                        AccountMeta::new(user.stats_pda, false),
                        AccountMeta::new_readonly(self.state_pda, false),
                        AccountMeta::new_readonly(user.authority(), true),
                        AccountMeta::new(user.authority(), true),
                        AccountMeta::new_readonly(rent_sysvar_id(), false),
                        AccountMeta::new_readonly(system_program_id(), false),
                    ],
                    D_INITIALIZE_IF_STAKE@ + le(market_index as int, 2),
                    user.authority(),
                )
            }),
    {
        let user = self.users[user_idx];
        let (stake, _) = if_stake_pda(&user.keypair.pubkey(), self.program_id)?;
        let mut args: Vec<u8> = Vec::new();
        push_u16(&mut args, market_index);
        assert(args@ =~= le(market_index as int, 2));
        let accounts = vec![
            AccountMeta::new_readonly(self.spot_market_pda, false),
            AccountMeta::new(stake, false),
            AccountMeta::new(user.stats_pda, false),
            AccountMeta::new_readonly(self.state_pda, false),
            AccountMeta::new_readonly(user.keypair.pubkey(), true),
            AccountMeta::new(user.keypair.pubkey(), true),
            AccountMeta::new_readonly(rent_sysvar_id(), false),
            AccountMeta::new_readonly(system_program_id(), false),
        ];
        Some(self.submit(accounts, D_INITIALIZE_IF_STAKE, &args, user.keypair.pubkey()))
    }

    /// Adds to a user's stake in the quote market.
    pub fn action_add_if_stake(&self, user_idx: usize, amount: u64) -> (r: Option<Transaction>)
        requires
            self.wf(),
            user_idx < NUM_USERS,
        ensures
            r is Some <==> ({
                let user = self.users@[user_idx as int];
                derivable(stake_seeds(user.authority()), self.program_id)
            }),
            r matches Some(t) ==> ({
                let user = self.users@[user_idx as int];
                let stake = pda_key(stake_seeds(user.authority()), self.program_id);
                t@ == call(
                    self.program_id,
                    seq![
                        AccountMeta::new_readonly(self.state_pda, false),
                        AccountMeta::new(self.spot_market_pda, false),
                        AccountMeta::new(stake, false),
                        AccountMeta::new(user.stats_pda, false),
                        AccountMeta::new_readonly(user.authority(), true),
                        AccountMeta::new(self.spot_vault_pda, false),
                        AccountMeta::new(self.if_vault_pda, false),
                        AccountMeta::new_readonly(self.signer_pda, false),
                        AccountMeta::new(user.token_account, false),
                        AccountMeta::new_readonly(token_program_id(), false),
                    ],
                    D_ADD_IF_STAKE@ + (le(0, 2) + le(amount as int, 8)),
                    user.authority(),
                )
            }),
    {
        let user = self.users[user_idx];
        let (stake, _) = if_stake_pda(&user.keypair.pubkey(), self.program_id)?;
        let mut args: Vec<u8> = Vec::new();
        push_u16(&mut args, 0);
        assert(args@ =~= le(0, 2));
        push_u64(&mut args, amount);
        let accounts = vec![
            AccountMeta::new_readonly(self.state_pda, false),
            AccountMeta::new(self.spot_market_pda, false),
            AccountMeta::new(stake, false),
            AccountMeta::new(user.stats_pda, false),
            AccountMeta::new_readonly(user.keypair.pubkey(), true),
            AccountMeta::new(self.spot_vault_pda, false),
            AccountMeta::new(self.if_vault_pda, false),
            AccountMeta::new_readonly(self.signer_pda, false),
            AccountMeta::new(user.token_account, false),
            AccountMeta::new_readonly(token_program_id(), false),
        ];
        Some(self.submit(accounts, D_ADD_IF_STAKE, &args, user.keypair.pubkey()))
    }

    /// Starts the cooldown that precedes an unstake.
    pub fn action_request_remove_if_stake(
        &self,
        user_idx: usize,
        amount: u64,
    ) -> (r: Option<Transaction>)
        requires
            self.wf(),
            user_idx < NUM_USERS,
        ensures
            r is Some <==> ({
                let user = self.users@[user_idx as int];
                derivable(stake_seeds(user.authority()), self.program_id)
            }),
            r matches Some(t) ==> ({
                let user = self.users@[user_idx as int];
                let stake = pda_key(stake_seeds(user.authority()), self.program_id);
                t@ == call(
                    self.program_id,
                    seq![
                        AccountMeta::new_readonly(self.state_pda, false),
                        AccountMeta::new(self.spot_market_pda, false),
                        AccountMeta::new(stake, false),
                        AccountMeta::new(user.stats_pda, false),
                        AccountMeta::new_readonly(user.authority(), true),
                        AccountMeta::new(self.spot_vault_pda, false),
                        AccountMeta::new(self.if_vault_pda, false),
                        AccountMeta::new_readonly(self.signer_pda, false),
                        AccountMeta::new_readonly(token_program_id(), false),
                    ],
                    D_REQUEST_REMOVE_IF_STAKE@ + (le(0, 2) + le(amount as int, 8)),
                    user.authority(),
                )
            }),
    {
        let user = self.users[user_idx];
        let (stake, _) = if_stake_pda(&user.keypair.pubkey(), self.program_id)?;
        let mut args: Vec<u8> = Vec::new();
        push_u16(&mut args, 0);
        assert(args@ =~= le(0, 2));
        push_u64(&mut args, amount);
        let accounts = vec![
            AccountMeta::new_readonly(self.state_pda, false),
            AccountMeta::new(self.spot_market_pda, false),
            AccountMeta::new(stake, false),
            AccountMeta::new(user.stats_pda, false),
            AccountMeta::new_readonly(user.keypair.pubkey(), true),
            AccountMeta::new(self.spot_vault_pda, false),
            AccountMeta::new(self.if_vault_pda, false),
            AccountMeta::new_readonly(self.signer_pda, false),
            AccountMeta::new_readonly(token_program_id(), false),
        ];
        Some(self.submit(accounts, D_REQUEST_REMOVE_IF_STAKE, &args, user.keypair.pubkey()))
    }

    /// Calls an unstake off.
    pub fn action_cancel_request_remove_if_stake(&self, user_idx: usize) -> (r: Option<Transaction>)
        requires
            self.wf(),
            user_idx < NUM_USERS,
        ensures
            r is Some <==> ({
                let user = self.users@[user_idx as int];
                derivable(stake_seeds(user.authority()), self.program_id)
            }),
            r matches Some(t) ==> ({
                let user = self.users@[user_idx as int];
                let stake = pda_key(stake_seeds(user.authority()), self.program_id);
                t@ == call(
                    self.program_id,
                    seq![
                        AccountMeta::new(self.spot_market_pda, false),
                        AccountMeta::new(stake, false),
                        AccountMeta::new(user.stats_pda, false),
                        AccountMeta::new_readonly(user.authority(), true),
                        AccountMeta::new(self.if_vault_pda, false),
                    ],
                    D_CANCEL_REQUEST_REMOVE_IF_STAKE@ + le(0, 2),
                    user.authority(),
                )
            }),
    {
        let user = self.users[user_idx];
        let (stake, _) = if_stake_pda(&user.keypair.pubkey(), self.program_id)?;
        let mut args: Vec<u8> = Vec::new();
        push_u16(&mut args, 0);
        assert(args@ =~= le(0, 2));
        let accounts = vec![
            AccountMeta::new(self.spot_market_pda, false),
            AccountMeta::new(stake, false),
            AccountMeta::new(user.stats_pda, false),
            AccountMeta::new_readonly(user.keypair.pubkey(), true),
            AccountMeta::new(self.if_vault_pda, false),
        ];
        Some(self.submit(accounts, D_CANCEL_REQUEST_REMOVE_IF_STAKE, &args, user.keypair.pubkey()))
    }

    /// Completes an unstake once the cooldown is served.
    pub fn action_remove_if_stake(&self, user_idx: usize) -> (r: Option<Transaction>)
        requires
            self.wf(),
            user_idx < NUM_USERS,
        ensures
            r is Some <==> ({
                let user = self.users@[user_idx as int];
                derivable(stake_seeds(user.authority()), self.program_id)
            }),
            r matches Some(t) ==> ({
                let user = self.users@[user_idx as int];
                let stake = pda_key(stake_seeds(user.authority()), self.program_id);
                t@ == call(
                    self.program_id,
                    seq![
                        AccountMeta::new_readonly(self.state_pda, false),
                        AccountMeta::new(self.spot_market_pda, false),
                        AccountMeta::new(stake, false),
                        AccountMeta::new(user.stats_pda, false),
                        AccountMeta::new_readonly(user.authority(), true),
                        AccountMeta::new(self.if_vault_pda, false),
                        AccountMeta::new_readonly(self.signer_pda, false),
                        AccountMeta::new(user.token_account, false),
                        AccountMeta::new_readonly(token_program_id(), false),
                    ],
                    D_REMOVE_IF_STAKE@ + le(0, 2),
                    user.authority(),
                )
            }),
    {
        let user = self.users[user_idx];
        let (stake, _) = if_stake_pda(&user.keypair.pubkey(), self.program_id)?;
        let mut args: Vec<u8> = Vec::new();
        push_u16(&mut args, 0);
        assert(args@ =~= le(0, 2));
        let accounts = vec![
            AccountMeta::new_readonly(self.state_pda, false),
            AccountMeta::new(self.spot_market_pda, false),
            AccountMeta::new(stake, false),
            AccountMeta::new(user.stats_pda, false),
            AccountMeta::new_readonly(user.keypair.pubkey(), true),
            AccountMeta::new(self.if_vault_pda, false),
            AccountMeta::new_readonly(self.signer_pda, false),
            AccountMeta::new(user.token_account, false),
            AccountMeta::new_readonly(token_program_id(), false),
        ];
        Some(self.submit(accounts, D_REMOVE_IF_STAKE, &args, user.keypair.pubkey()))
    }

    /// Refreshes the stake that a user's fee tier counts.
    pub fn action_update_user_quote_asset_if_stake(
        &self,
        user_idx: usize,
    ) -> (r: Option<Transaction>)
        requires
            self.wf(),
            user_idx < NUM_USERS,
        ensures
            r is Some <==> ({
                let user = self.users@[user_idx as int];
                derivable(stake_seeds(user.authority()), self.program_id)
            }),
            r matches Some(t) ==> ({
                let user = self.users@[user_idx as int];
                let stake = pda_key(stake_seeds(user.authority()), self.program_id);
                t@ == call(
                    self.program_id,
                    seq![
                        AccountMeta::new_readonly(self.state_pda, false),
                        AccountMeta::new(self.spot_market_pda, false),
                        AccountMeta::new(stake, false),
                        AccountMeta::new(user.stats_pda, false),
                        AccountMeta::new_readonly(addr(self.crank), true),
                        AccountMeta::new(self.if_vault_pda, false),
                    ],
                    D_UPDATE_USER_QUOTE_ASSET_IF_STAKE@,
                    addr(self.crank),
                )
            }),
    {
        let user = self.users[user_idx];
        let (stake, _) = if_stake_pda(&user.keypair.pubkey(), self.program_id)?;
        let accounts = vec![
            AccountMeta::new_readonly(self.state_pda, false),
            AccountMeta::new(self.spot_market_pda, false),
            AccountMeta::new(stake, false),
            AccountMeta::new(user.stats_pda, false),
            AccountMeta::new_readonly(self.crank.pubkey(), true),
            AccountMeta::new(self.if_vault_pda, false),
        ];
        Some(self.submit_bare(accounts, D_UPDATE_USER_QUOTE_ASSET_IF_STAKE, self.crank.pubkey()))
    }
}

// ---------------------------------------------------------------------------
// Revenue and fees
// ---------------------------------------------------------------------------

impl Fixture {
    /// Donates quote tokens to the revenue pool.
    pub fn action_deposit_into_revenue_pool(&self, user_idx: usize, amount: u64) -> (r: Transaction)
        requires
            self.wf(),
            user_idx < NUM_USERS,
        ensures
            ({
                let user = self.users@[user_idx as int];
                r@ == call(
                    self.program_id,
                    seq![
                        AccountMeta::new_readonly(self.state_pda, false),
                        AccountMeta::new(self.spot_market_pda, false),
                        AccountMeta::new(user.authority(), true),
                        AccountMeta::new(self.spot_vault_pda, false),
                        AccountMeta::new(user.token_account, false),
                        AccountMeta::new_readonly(token_program_id(), false),
                    ],
                    D_DEPOSIT_INTO_REVENUE_POOL@ + le(amount as int, 8),
                    user.authority(),
                )
            }),
    {
        let user = self.users[user_idx];
        let mut args: Vec<u8> = Vec::new();
        push_u64(&mut args, amount);
        assert(args@ =~= le(amount as int, 8));
        let accounts = vec![
            AccountMeta::new_readonly(self.state_pda, false),
            AccountMeta::new(self.spot_market_pda, false),
            AccountMeta::new(user.keypair.pubkey(), true),
            AccountMeta::new(self.spot_vault_pda, false),
            AccountMeta::new(user.token_account, false),
            AccountMeta::new_readonly(token_program_id(), false),
        ];
        self.submit(accounts, D_DEPOSIT_INTO_REVENUE_POOL, &args, user.keypair.pubkey())
    }

    /// Sweeps the revenue pool into the insurance vault.
    pub fn action_settle_revenue_to_if(&self, market_index: u16) -> (r: Transaction)
        ensures
            r@ == call(
                self.program_id,
                seq![
                    AccountMeta::new_readonly(self.state_pda, false),
                    AccountMeta::new(self.spot_market_pda, false),
                    AccountMeta::new(self.spot_vault_pda, false),
                    AccountMeta::new_readonly(self.signer_pda, false),
                    AccountMeta::new(self.if_vault_pda, false),
                    AccountMeta::new_readonly(token_program_id(), false),
                ],
                D_SETTLE_REVENUE_TO_IF@ + le(market_index as int, 2),
                addr(self.crank),
            ),
    {
        let mut args: Vec<u8> = Vec::new();
        push_u16(&mut args, market_index);
        assert(args@ =~= le(market_index as int, 2));
        let accounts = vec![
            AccountMeta::new_readonly(self.state_pda, false),
            AccountMeta::new(self.spot_market_pda, false),
            AccountMeta::new(self.spot_vault_pda, false),
            AccountMeta::new_readonly(self.signer_pda, false),
            AccountMeta::new(self.if_vault_pda, false),
            AccountMeta::new_readonly(token_program_id(), false),
        ];
        self.submit(accounts, D_SETTLE_REVENUE_TO_IF, &args, self.crank.pubkey())
    }

    /// Moves the perp market's standing fees into the quote market.
    pub fn action_sweep_perp_market_fees(&self, market_index: u16) -> (r: Transaction)
        ensures
            r@ == call(
                self.program_id,
                seq![
                    AccountMeta::new_readonly(self.state_pda, false),
                    AccountMeta::new(self.perp_market_pda, false),
                    AccountMeta::new(self.spot_market_pda, false),
                    AccountMeta::new_readonly(self.perp_oracle_pda, false),
                ],
                D_SWEEP_PERP_MARKET_FEES@ + le(market_index as int, 2),
                addr(self.crank),
            ),
    {
        let mut args: Vec<u8> = Vec::new();
        push_u16(&mut args, market_index);
        assert(args@ =~= le(market_index as int, 2));
        let accounts = vec![
            AccountMeta::new_readonly(self.state_pda, false),
            AccountMeta::new(self.perp_market_pda, false),
            AccountMeta::new(self.spot_market_pda, false),
            AccountMeta::new_readonly(self.perp_oracle_pda, false),
        ];
        self.submit(accounts, D_SWEEP_PERP_MARKET_FEES, &args, self.crank.pubkey())
    }

    /// Accrues the quote market's interest. The quote asset has no oracle, so
    /// the null address stands in its place.
    pub fn action_update_spot_market_cumulative_interest(&self) -> (r: Transaction)
        ensures
            r@ == call(
                self.program_id,
                seq![
                    AccountMeta::new_readonly(self.state_pda, false),
                    AccountMeta::new(self.spot_market_pda, false),
                    AccountMeta::new_readonly(system_program_id(), false),
                    AccountMeta::new_readonly(self.spot_vault_pda, false),
                ],
                D_UPDATE_SPOT_MARKET_CUMULATIVE_INTEREST@,
                addr(self.crank),
            ),
    {
        let accounts = vec![
            AccountMeta::new_readonly(self.state_pda, false),
            AccountMeta::new(self.spot_market_pda, false),
            AccountMeta::new_readonly(system_program_id(), false),
            AccountMeta::new_readonly(self.spot_vault_pda, false),
        ];
        self.submit_bare(accounts, D_UPDATE_SPOT_MARKET_CUMULATIVE_INTEREST, self.crank.pubkey())
    }

    /// The token of a spot market.
    pub open spec fn mint(self, market_index: u16) -> Pubkey {
        if market_index == 1 {
            self.sol_mint
        } else {
            self.usdc_mint
        }
    }

    pub fn mint_of(&self, market_index: u16) -> (r: Pubkey)
        ensures
            r == self.mint(market_index),
    {
        if market_index == 1 {
            self.sol_mint
        } else {
            self.usdc_mint
        }
    }

    /// Withdraws the protocol's cut of a spot market to the keeper's own token
    /// account; `None` where that account's address has no derivation.
    pub fn action_withdraw_protocol_fees_spot(&self, market_index: u16, amount: u64) -> (r: Option<
        Transaction,
    >)
        requires
            self.wf(),
        ensures
            r is Some <==> ata_of(addr(self.crank), self.mint(market_index)) is Some,
            r matches Some(t) ==> ({
                let side = self.side(market_index, self.users@[0]);
                let mint = self.mint(market_index);
                let crank = addr(self.crank);
                t@ == call(
                    self.program_id,
                    seq![
                        AccountMeta::new_readonly(self.state_pda, false),
                        AccountMeta::new(crank, true),
                        AccountMeta::new_readonly(crank, true),
                        AccountMeta::new(side.market, false),
                        AccountMeta::new(side.vault, false),
                        AccountMeta::new_readonly(mint, false),
                        AccountMeta::new_readonly(crank, false),
                        AccountMeta::new((ata_of(crank, mint)->0).0, false),
                        AccountMeta::new_readonly(token_program_id(), false),
                        AccountMeta::new_readonly(self.signer_pda, false),
                        AccountMeta::new_readonly(system_program_id(), false),
                        AccountMeta::new_readonly(associated_token_program_id(), false),
                    ],
                    D_WITHDRAW_PROTOCOL_FEES_SPOT@ + (le(market_index as int, 2) + le(
                        amount as int,
                        8,
                    )),
                    crank,
                )
            }),
    {
        let crank = self.crank.pubkey();
        let side = self.spot_of(market_index, &self.users[0]);
        let mint = self.mint_of(market_index);
        let (recipient_ata, _) = ata(&crank, &mint)?;
        let mut args = u16_bytes(market_index);
        push_u64(&mut args, amount);
        Some(
            self.submit(
                vec![
                    AccountMeta::new_readonly(self.state_pda, false),
                    AccountMeta::new(crank, true),
                    AccountMeta::new_readonly(crank, true),
                    AccountMeta::new(side.market, false),
                    AccountMeta::new(side.vault, false),
                    AccountMeta::new_readonly(mint, false),
                    AccountMeta::new_readonly(crank, false),
                    AccountMeta::new(recipient_ata, false),
                    AccountMeta::new_readonly(token_program_id(), false),
                    AccountMeta::new_readonly(self.signer_pda, false),
                    AccountMeta::new_readonly(system_program_id(), false),
                    AccountMeta::new_readonly(associated_token_program_id(), false),
                ],
                D_WITHDRAW_PROTOCOL_FEES_SPOT,
                &args,
                crank,
            ),
        )
    }

    /// Withdraws the protocol's cut of the perp market in the same way.
    pub fn action_withdraw_protocol_fees_perp(&self, amount: u64) -> (r: Option<Transaction>)
        ensures
            r is Some <==> ata_of(addr(self.crank), self.usdc_mint) is Some,
            r matches Some(t) ==> ({
                let crank = addr(self.crank);
                t@ == call(
                    self.program_id,
                    seq![
                        AccountMeta::new_readonly(self.state_pda, false),
                        AccountMeta::new(crank, true),
                        AccountMeta::new_readonly(crank, true),
                        AccountMeta::new(self.perp_market_pda, false),
                        AccountMeta::new(self.spot_market_pda, false),
                        AccountMeta::new(self.spot_vault_pda, false),
                        AccountMeta::new_readonly(self.usdc_mint, false),
                        AccountMeta::new_readonly(crank, false),
                        AccountMeta::new((ata_of(crank, self.usdc_mint)->0).0, false),
                        AccountMeta::new_readonly(token_program_id(), false),
                        AccountMeta::new_readonly(self.signer_pda, false),
                        AccountMeta::new_readonly(system_program_id(), false),
                        AccountMeta::new_readonly(associated_token_program_id(), false),
                    ],
                    D_WITHDRAW_PROTOCOL_FEES_PERP@ + (le(0, 2) + le(amount as int, 8)),
                    crank,
                )
            }),
    {
        let crank = self.crank.pubkey();
        let (recipient_ata, _) = ata(&crank, &self.usdc_mint)?;
        let mut args = u16_bytes(0);
        push_u64(&mut args, amount);
        Some(
            self.submit(
                vec![
                    AccountMeta::new_readonly(self.state_pda, false),
                    AccountMeta::new(crank, true),
                    AccountMeta::new_readonly(crank, true),
                    AccountMeta::new(self.perp_market_pda, false),
                    AccountMeta::new(self.spot_market_pda, false),
                    AccountMeta::new(self.spot_vault_pda, false),
                    AccountMeta::new_readonly(self.usdc_mint, false),
                    AccountMeta::new_readonly(crank, false),
                    AccountMeta::new(recipient_ata, false),
                    AccountMeta::new_readonly(token_program_id(), false),
                    AccountMeta::new_readonly(self.signer_pda, false),
                    AccountMeta::new_readonly(system_program_id(), false),
                    AccountMeta::new_readonly(associated_token_program_id(), false),
                ],
                D_WITHDRAW_PROTOCOL_FEES_PERP,
                &args,
                crank,
            ),
        )
    }
}

} // verus!
