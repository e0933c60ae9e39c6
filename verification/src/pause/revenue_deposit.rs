//! A donation to the revenue pool of a market that has paused deposits.

use vstd::prelude::*;
use crate::accounts::{SpotMarketAccount, StateAccount};
use crate::constants::INITIAL_USDC;
use crate::discriminators::D_DEPOSIT_INTO_SPOT_MARKET_REVENUE_POOL;
use crate::fixture::{addr, SpotAddresses};
use crate::keys::{call, send, token_program_id, AccountMeta, Keypair, Pubkey, Transaction};
use crate::pause::{CLOCK_TS, E_MARKET_ACTION_PAUSED};
use crate::scenario::{core_at, core_derivable, derive_core, quote_market, spot_at, Core};
use crate::setup::{SetupStep, FUNDED_LAMPORTS};
use crate::wire::{ix_data, le, push_u64};

verus! {

/// The scenario.
#[derive(Clone, Copy, PartialEq, Eq, Debug)]
pub struct Fx {
    pub program_id: Pubkey,
    pub state_pda: Pubkey,
    pub spot_market_pda: Pubkey,
    pub spot_vault_pda: Pubkey,
    pub authority: Keypair,
    pub user_token_account: Pubkey,
}

/// A scenario that is ready to be performed.
#[derive(Debug)]
pub struct Setup {
    pub fixture: Fx,
    pub steps: Vec<SetupStep>,
}

/// An active exchange whose market has paused deposits, and a funded donor.
pub open spec fn steps(
    c: Core,
    m: SpotAddresses,
    usdc_mint: Pubkey,
    authority: Pubkey,
    user_token_account: Pubkey,
    deposit_bit: u8,
) -> Seq<SetupStep> {
    seq![
        SetupStep::SetClock { unix_timestamp: CLOCK_TS, slot: 1000 },
        SetupStep::InjectState {
            at: c.state,
            state: StateAccount::one_market(c.signer, c.signer_nonce, 0),
        },
        SetupStep::Mint { key: usdc_mint, authority: c.signer, decimals: 6 },
        SetupStep::InjectSpotMarket {
            at: m.market,
            market: SpotMarketAccount {
                paused_operations: deposit_bit,
                ..SpotMarketAccount::quote(m.market, usdc_mint, m.vault, m.if_vault)
            },
        },
        SetupStep::TokenAccount {
            key: m.vault,
            mint: usdc_mint,
            owner: c.signer,
            amount: 0,
        },
        SetupStep::Fund { key: authority, lamports: FUNDED_LAMPORTS },
        SetupStep::TokenAccount {
            key: user_token_account,
            mint: usdc_mint,
            owner: authority,
            amount: INITIAL_USDC,
        },
    ]
}

fn steps_of(
    c: Core,
    m: SpotAddresses,
    usdc_mint: Pubkey,
    authority: Pubkey,
    user_token_account: Pubkey,
    deposit_bit: u8,
) -> (r: Vec<SetupStep>)
    ensures
        r@ == steps(c, m, usdc_mint, authority, user_token_account, deposit_bit),
{
    vec![
        SetupStep::SetClock { unix_timestamp: CLOCK_TS, slot: 1000 },
        SetupStep::InjectState {
            at: c.state,
            state: StateAccount::one_market(c.signer, c.signer_nonce, 0),
        },
        SetupStep::Mint { key: usdc_mint, authority: c.signer, decimals: 6 },
        SetupStep::InjectSpotMarket {
            at: m.market,
            market: SpotMarketAccount {
                paused_operations: deposit_bit,
                ..SpotMarketAccount::quote(m.market, usdc_mint, m.vault, m.if_vault)
            },
        },
        SetupStep::TokenAccount {
            key: m.vault,
            mint: usdc_mint,
            owner: c.signer,
            amount: 0,
        },
        SetupStep::Fund { key: authority, lamports: FUNDED_LAMPORTS },
        SetupStep::TokenAccount {
            key: user_token_account,
            mint: usdc_mint,
            owner: authority,
            amount: INITIAL_USDC,
        },
    ]
}

impl Fx {
    /// Sets the scenario up; `deposit_bit` is the market's pause of deposits.
    pub fn setup(
        program_id: Pubkey,
        usdc_mint: Pubkey,
        authority: Keypair,
        user_token_account: Pubkey,
        deposit_bit: u8,
    ) -> (r: Option<Setup>)
        ensures
            r is Some <==> core_derivable(program_id) && SpotAddresses::all_derivable(
                0,
                program_id,
            ),
            r matches Some(s) ==> {
                let c = core_at(program_id);
                let m = spot_at(0, program_id);
                &&& s.fixture == (Fx {
                    program_id,
                    state_pda: c.state,
                    spot_market_pda: m.market,
                    spot_vault_pda: m.vault,
                    authority,
                    user_token_account,
                })
                &&& s.steps@ == steps(
                    c,
                    m,
                    usdc_mint,
                    addr(authority),
                    user_token_account,
                    deposit_bit,
                )
            },
    {
        let c = derive_core(program_id)?;
        let m = quote_market(program_id)?;
        Some(
            Setup {
                fixture: Fx {
                    program_id,
                    state_pda: c.state,
                    spot_market_pda: m.market,
                    spot_vault_pda: m.vault,
                    authority,
                    user_token_account,
                },
                steps: steps_of(
                    c,
                    m,
                    usdc_mint,
                    authority.pubkey(),
                    user_token_account,
                    deposit_bit,
                ),
            },
        )
    }

    /// Donates a thousand quote units to the revenue pool.
    pub fn donate(&self) -> (r: Transaction)
        ensures
            r@ == call(
                self.program_id,
                seq![
                    AccountMeta::new_readonly(self.state_pda, false),
                    AccountMeta::new(self.spot_market_pda, false),
                    AccountMeta::new(addr(self.authority), true),
                    AccountMeta::new(self.spot_vault_pda, false),
                    AccountMeta::new(self.user_token_account, false),
                    AccountMeta::new_readonly(token_program_id(), false),
                ],
                D_DEPOSIT_INTO_SPOT_MARKET_REVENUE_POOL@ + le(1_000_000_000, 8),
                addr(self.authority),
            ),
    {
        let mut args: Vec<u8> = Vec::new();
        push_u64(&mut args, 1_000_000_000);
        assert(args@ =~= le(1_000_000_000, 8));
        let accounts = vec![
            AccountMeta::new_readonly(self.state_pda, false),
            AccountMeta::new(self.spot_market_pda, false),
            AccountMeta::new(self.authority.pubkey(), true),
            AccountMeta::new(self.spot_vault_pda, false),
            AccountMeta::new(self.user_token_account, false),
            AccountMeta::new_readonly(token_program_id(), false),
        ];
        send(
            self.program_id,
            accounts,
            ix_data(D_DEPOSIT_INTO_SPOT_MARKET_REVENUE_POOL, &args),
            self.authority.pubkey(),
        )
    }
}

/// Whether the exchange answered a donation as a market that has paused deposits
/// must: by refusing it as paused.
pub fn regr_272_revenue_pool_deposit(error_code: Option<u32>) -> (r: bool)
    ensures
        r == (error_code == Some(E_MARKET_ACTION_PAUSED)),
{
    match error_code {
        Some(code) => code == E_MARKET_ACTION_PAUSED,
        None => false,
    }
}

} // verus!
