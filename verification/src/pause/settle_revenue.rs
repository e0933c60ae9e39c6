//! A sweep of the revenue pool of a market that has paused withdrawals.

use vstd::prelude::*;
use crate::accounts::{SpotMarketAccount, StateAccount};
use crate::discriminators::D_SETTLE_REVENUE_TO_INSURANCE_FUND;
use crate::fixture::SpotAddresses;
use crate::keys::{ix, token_program_id, tx, AccountMeta, Instruction, Pubkey, Transaction};
use crate::pause::{CLOCK_TS, E_MARKET_WITHDRAW_PAUSED};
use crate::scenario::{core_at, core_derivable, derive_core, quote_market, spot_at, Core};
use crate::setup::SetupStep;
use crate::wire::{ix_data, le, u16_bytes};

verus! {

/// The scenario.
#[derive(Clone, Copy, PartialEq, Eq, Debug)]
pub struct Fx {
    pub program_id: Pubkey,
    pub state_pda: Pubkey,
    pub signer_pda: Pubkey,
    pub spot_market_pda: Pubkey,
    pub spot_vault_pda: Pubkey,
    pub if_vault_pda: Pubkey,
}

/// A scenario that is ready to be performed.
#[derive(Debug)]
pub struct Setup {
    pub fixture: Fx,
    pub steps: Vec<SetupStep>,
}

/// An active exchange whose market settles revenue hourly and has paused
/// withdrawals.
pub open spec fn steps(
    c: Core,
    m: SpotAddresses,
    usdc_mint: Pubkey,
    withdraw_bit: u8,
) -> Seq<SetupStep> {
    seq![
        SetupStep::SetClock { unix_timestamp: CLOCK_TS, slot: 1000 },
        SetupStep::InjectState {
            at: c.state,
            state: StateAccount::one_market(c.signer, c.signer_nonce, 0),
        },
        SetupStep::Mint { key: usdc_mint, authority: c.signer, decimals: 6 },
        SetupStep::InjectSpotMarket {
            at: m.market,
            market: SpotMarketAccount {
                paused_operations: withdraw_bit,
                revenue_settle_period: 3600,
                ..SpotMarketAccount::quote(m.market, usdc_mint, m.vault, m.if_vault)
            },
        },
        SetupStep::TokenAccount {
            key: m.vault,
            mint: usdc_mint,
            owner: c.signer,
            amount: 1_000_000_000,
        },
        SetupStep::TokenAccount {
            key: m.if_vault,
            mint: usdc_mint,
            owner: c.signer,
            amount: 0,
        },
    ]
}

fn steps_of(
    c: Core,
    m: SpotAddresses,
    usdc_mint: Pubkey,
    withdraw_bit: u8,
) -> (r: Vec<SetupStep>)
    ensures
        r@ == steps(c, m, usdc_mint, withdraw_bit),
{
    vec![
        SetupStep::SetClock { unix_timestamp: CLOCK_TS, slot: 1000 },
        SetupStep::InjectState {
            at: c.state,
            state: StateAccount::one_market(c.signer, c.signer_nonce, 0),
        },
        SetupStep::Mint { key: usdc_mint, authority: c.signer, decimals: 6 },
        SetupStep::InjectSpotMarket {
            at: m.market,
            market: SpotMarketAccount {
                paused_operations: withdraw_bit,
                revenue_settle_period: 3600,
                ..SpotMarketAccount::quote(m.market, usdc_mint, m.vault, m.if_vault)
            },
        },
        SetupStep::TokenAccount {
            key: m.vault,
            mint: usdc_mint,
            owner: c.signer,
            amount: 1_000_000_000,
        },
        SetupStep::TokenAccount {
            key: m.if_vault,
            mint: usdc_mint,
            owner: c.signer,
            amount: 0,
        },
    ]
}

impl Fx {
    /// Sets the scenario up; `withdraw_bit` is the market's pause of withdrawals.
    pub fn setup(program_id: Pubkey, usdc_mint: Pubkey, withdraw_bit: u8) -> (r: Option<Setup>)
        ensures
            r is Some <==> core_derivable(program_id) && SpotAddresses::all_derivable(
                0,
                program_id,
            ),
            r matches Some(s) ==> {
                let c = core_at(program_id);
                let m = spot_at(0, program_id);
                &&& s.fixture == (Fx {
                    program_id,
                    state_pda: c.state,
                    signer_pda: c.signer,
                    spot_market_pda: m.market,
                    spot_vault_pda: m.vault,
                    if_vault_pda: m.if_vault,
                })
                &&& s.steps@ == steps(c, m, usdc_mint, withdraw_bit)
            },
    {
        let c = derive_core(program_id)?;
        let m = quote_market(program_id)?;
        Some(
            Setup {
                fixture: Fx {
                    program_id,
                    state_pda: c.state,
                    signer_pda: c.signer,
                    spot_market_pda: m.market,
                    spot_vault_pda: m.vault,
                    if_vault_pda: m.if_vault,
                },
                steps: steps_of(c, m, usdc_mint, withdraw_bit),
            },
        )
    }

    /// Sweeps the revenue pool into the insurance vault. Nobody need sign.
    pub fn settle(&self) -> (r: Transaction)
        ensures
            r@ == tx(
                seq![
                    ix(
                        self.program_id,
                        seq![
                            AccountMeta::new_readonly(self.state_pda, false),
                            AccountMeta::new(self.spot_market_pda, false),
                            AccountMeta::new(self.spot_vault_pda, false),
                            AccountMeta::new_readonly(self.signer_pda, false),
                            AccountMeta::new(self.if_vault_pda, false),
                            AccountMeta::new_readonly(token_program_id(), false),
                        ],
                        D_SETTLE_REVENUE_TO_INSURANCE_FUND@ + le(0, 2),
                    ),
                ],
                seq![],
            ),
    {
        let accounts = vec![
            AccountMeta::new_readonly(self.state_pda, false),
            AccountMeta::new(self.spot_market_pda, false),
            AccountMeta::new(self.spot_vault_pda, false),
            AccountMeta::new_readonly(self.signer_pda, false),
            AccountMeta::new(self.if_vault_pda, false),
            AccountMeta::new_readonly(token_program_id(), false),
        ];
        Transaction::unsigned(
            Instruction::new(
                self.program_id,
                accounts,
                ix_data(D_SETTLE_REVENUE_TO_INSURANCE_FUND, &u16_bytes(0)),
            ),
        )
    }
}

/// Whether the exchange answered a sweep as a market that has paused withdrawals
/// must: by refusing it as paused.
pub fn regr_272_settle_revenue_if(error_code: Option<u32>) -> (r: bool)
    ensures
        r == (error_code == Some(E_MARKET_WITHDRAW_PAUSED)),
{
    match error_code {
        Some(code) => code == E_MARKET_WITHDRAW_PAUSED,
        None => false,
    }
}

} // verus!
