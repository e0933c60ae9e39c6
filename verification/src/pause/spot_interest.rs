//! Interest while funding is paused on the whole exchange.

use vstd::prelude::*;
use crate::accounts::{SpotMarketAccount, StateAccount};
use crate::constants::{
    INITIAL_USDC, SPOT_CUMULATIVE_INTEREST_PRECISION, SPOT_RATE_PRECISION,
    SPOT_UTILIZATION_PRECISION,
};
use crate::fixture::{
    addr, derivable, pda_key, stats_pda, stats_seeds, user_pda, user_seeds, SpotAddresses,
};
use crate::keys::{Keypair, Pubkey, Transaction};
use crate::pause::{CLOCK_TS, EXCHANGE_FUNDING_PAUSED};
use crate::scenario::{
    core_at, core_derivable, derive_core, quote_deposit, quote_deposit_call, quote_market, spot_at,
    Core, Depositor,
};
use crate::setup::{SetupStep, FUNDED_LAMPORTS};

verus! {

/// When the market last accrued interest: a day before the scenario.
pub const LAST_INTEREST_TS: u64 = 1_699_913_600;

/// The scenario.
#[derive(Clone, Copy, PartialEq, Eq, Debug)]
pub struct Fx {
    pub program_id: Pubkey,
    pub state_pda: Pubkey,
    pub spot_market_pda: Pubkey,
    pub spot_vault_pda: Pubkey,
    pub user_pda: Pubkey,
    pub stats_pda: Pubkey,
    pub authority: Keypair,
    pub user_token_account: Pubkey,
}

/// A scenario that is ready to be performed.
#[derive(Debug)]
pub struct Setup {
    pub fixture: Fx,
    pub steps: Vec<SetupStep>,
}

/// An exchange that has paused funding, with a half-used market that has a day
/// of interest to accrue, an over-funded vault, and a funded depositor.
pub open spec fn steps(
    c: Core,
    m: SpotAddresses,
    usdc_mint: Pubkey,
    authority: Pubkey,
    user_token_account: Pubkey,
    stats: Pubkey,
    user: Pubkey,
) -> Seq<SetupStep> {
    seq![
        SetupStep::SetClock { unix_timestamp: CLOCK_TS, slot: 1000 },
        SetupStep::InjectState {
            at: c.state,
            state: StateAccount::one_market(c.signer, c.signer_nonce, EXCHANGE_FUNDING_PAUSED),
        },
        SetupStep::Mint { key: usdc_mint, authority: c.signer, decimals: 6 },
        SetupStep::InjectSpotMarket {
            at: m.market,
            market: SpotMarketAccount {
                deposit_balance: 1_000_000_000_000_000,
                borrow_balance: 500_000_000_000_000,
                optimal_utilization: SPOT_UTILIZATION_PRECISION,
                optimal_borrow_rate: 100_000,
                max_borrow_rate: SPOT_RATE_PRECISION,
                last_interest_ts: LAST_INTEREST_TS,
                ..SpotMarketAccount::quote(m.market, usdc_mint, m.vault, m.if_vault)
            },
        },
        SetupStep::TokenAccount {
            key: m.vault,
            mint: usdc_mint,
            owner: c.signer,
            amount: 2_000_000_000_000,
        },
        SetupStep::Fund { key: authority, lamports: FUNDED_LAMPORTS },
        SetupStep::TokenAccount {
            key: user_token_account,
            mint: usdc_mint,
            owner: authority,
            amount: INITIAL_USDC,
        },
        SetupStep::InitStats { authority, stats },
        SetupStep::OpenUser { authority, stats, user },
    ]
}

fn steps_of(
    c: Core,
    m: SpotAddresses,
    usdc_mint: Pubkey,
    authority: Pubkey,
    user_token_account: Pubkey,
    stats: Pubkey,
    user: Pubkey,
) -> (r: Vec<SetupStep>)
    ensures
        r@ == steps(c, m, usdc_mint, authority, user_token_account, stats, user),
{
    vec![
        SetupStep::SetClock { unix_timestamp: CLOCK_TS, slot: 1000 },
        SetupStep::InjectState {
            at: c.state,
            state: StateAccount::one_market(c.signer, c.signer_nonce, EXCHANGE_FUNDING_PAUSED),
        },
        SetupStep::Mint { key: usdc_mint, authority: c.signer, decimals: 6 },
        SetupStep::InjectSpotMarket {
            at: m.market,
            market: SpotMarketAccount {
                deposit_balance: 1_000_000_000_000_000,
                borrow_balance: 500_000_000_000_000,
                optimal_utilization: SPOT_UTILIZATION_PRECISION,
                optimal_borrow_rate: 100_000,
                max_borrow_rate: SPOT_RATE_PRECISION,
                last_interest_ts: LAST_INTEREST_TS,
                ..SpotMarketAccount::quote(m.market, usdc_mint, m.vault, m.if_vault)
            },
        },
        SetupStep::TokenAccount {
            key: m.vault,
            mint: usdc_mint,
            owner: c.signer,
            amount: 2_000_000_000_000,
        },
        SetupStep::Fund { key: authority, lamports: FUNDED_LAMPORTS },
        SetupStep::TokenAccount {
            key: user_token_account,
            mint: usdc_mint,
            owner: authority,
            amount: INITIAL_USDC,
        },
        SetupStep::InitStats { authority, stats },
        SetupStep::OpenUser { authority, stats, user },
    ]
}

impl Fx {
    pub open spec fn depositor(self) -> Depositor {
        Depositor {
            state: self.state_pda,
            user: self.user_pda,
            stats: self.stats_pda,
            authority: addr(self.authority),
            vault: self.spot_vault_pda,
            wallet: self.user_token_account,
            market: self.spot_market_pda,
        }
    }

    /// Sets the scenario up.
    pub fn setup(
        program_id: Pubkey,
        usdc_mint: Pubkey,
        authority: Keypair,
        user_token_account: Pubkey,
    ) -> (r: Option<Setup>)
        ensures
            r is Some <==> core_derivable(program_id) && SpotAddresses::all_derivable(
                0,
                program_id,
            ) && derivable(stats_seeds(addr(authority)), program_id) && derivable(
                user_seeds(addr(authority), 0),
                program_id,
            ),
            r matches Some(s) ==> {
                let c = core_at(program_id);
                let m = spot_at(0, program_id);
                let stats = pda_key(stats_seeds(addr(authority)), program_id);
                let user = pda_key(user_seeds(addr(authority), 0), program_id);
                &&& s.fixture == (Fx {
                    program_id,
                    state_pda: c.state,
                    spot_market_pda: m.market,
                    spot_vault_pda: m.vault,
                    user_pda: user,
                    stats_pda: stats,
                    authority,
                    user_token_account,
                })
                &&& s.steps@ == steps(
                    c,
                    m,
                    usdc_mint,
                    addr(authority),
                    user_token_account,
                    stats,
                    user,
                )
            },
    {
        let c = derive_core(program_id)?;
        let m = quote_market(program_id)?;
        let key = authority.pubkey();
        let (stats, _) = stats_pda(&key, program_id)?;
        let (user, _) = user_pda(&key, 0, program_id)?;
        Some(
            Setup {
                fixture: Fx {
                    program_id,
                    state_pda: c.state,
                    spot_market_pda: m.market,
                    spot_vault_pda: m.vault,
                    user_pda: user,
                    stats_pda: stats,
                    authority,
                    user_token_account,
                },
                steps: steps_of(c, m, usdc_mint, key, user_token_account, stats, user),
            },
        )
    }

    /// Deposits a thousand quote units, which has the market look at its
    /// interest first.
    pub fn deposit(&self) -> (r: Transaction)
        ensures
            r@ == quote_deposit_call(self.program_id, self.depositor(), 1_000_000_000),
    {
        let d = Depositor {
            state: self.state_pda,
            user: self.user_pda,
            stats: self.stats_pda,
            authority: self.authority.pubkey(),
            vault: self.spot_vault_pda,
            wallet: self.user_token_account,
            market: self.spot_market_pda,
        };
        quote_deposit(self.program_id, &d, 1_000_000_000)
    }
}

/// Whether interest stood still while funding was paused. The deposit that
/// looked at it has to have worked, or nothing was shown.
pub fn regr_276_spot_interest(deposit_worked: bool, cumulative_borrow_interest: u128) -> (r: bool)
    ensures
        r == (deposit_worked && cumulative_borrow_interest == SPOT_CUMULATIVE_INTEREST_PRECISION),
{
    deposit_worked && cumulative_borrow_interest == SPOT_CUMULATIVE_INTEREST_PRECISION
}

} // verus!
