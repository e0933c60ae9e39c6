//! The bid and ask averages of a market that has paused funding updates.

use vstd::prelude::*;
use crate::accounts::{PerpMarketAccount, StateAccount};
use crate::discriminators::D_UPDATE_PERP_BID_ASK_TWAP;
use crate::fixture::{addr, derivable, indexed, pda_key, stats_pda, stats_seeds};
use crate::keys::{call, send, system_program_id, AccountMeta, Keypair, Pubkey, Transaction};
use crate::pause::CLOCK_TS;
use crate::scenario::{core_at, core_derivable, derive_core, perp_at, perp_market, Core};
use crate::setup::{SetupStep, FUNDED_LAMPORTS};
use crate::wire::bare;

verus! {

/// The scenario.
#[derive(Clone, Copy, PartialEq, Eq, Debug)]
pub struct Fx {
    pub program_id: Pubkey,
    pub state_pda: Pubkey,
    pub perp_market_pda: Pubkey,
    pub oracle: Pubkey,
    pub keeper_stats_pda: Pubkey,
    pub authority: Keypair,
}

/// A scenario that is ready to be performed.
#[derive(Debug)]
pub struct Setup {
    pub fixture: Fx,
    pub steps: Vec<SetupStep>,
}

/// An active exchange whose market has paused funding updates, and a keeper
/// without a stake.
pub open spec fn steps(
    c: Core,
    market: Pubkey,
    authority: Pubkey,
    keeper_stats: Pubkey,
    update_funding_bit: u8,
) -> Seq<SetupStep> {
    seq![
        SetupStep::SetClock { unix_timestamp: CLOCK_TS, slot: 1000 },
        SetupStep::InjectState {
            at: c.state,
            state: StateAccount::one_market(c.signer, c.signer_nonce, 0),
        },
        SetupStep::InjectPerpMarket {
            at: market,
            market: PerpMarketAccount {
                paused_operations: update_funding_bit,
                ..PerpMarketAccount::quoted(market, 0)
            },
        },
        SetupStep::Fund { key: authority, lamports: FUNDED_LAMPORTS },
        SetupStep::InjectStats { at: keeper_stats, authority },
    ]
}

fn steps_of(
    c: Core,
    market: Pubkey,
    authority: Pubkey,
    keeper_stats: Pubkey,
    update_funding_bit: u8,
) -> (r: Vec<SetupStep>)
    ensures
        r@ == steps(c, market, authority, keeper_stats, update_funding_bit),
{
    vec![
        SetupStep::SetClock { unix_timestamp: CLOCK_TS, slot: 1000 },
        SetupStep::InjectState {
            at: c.state,
            state: StateAccount::one_market(c.signer, c.signer_nonce, 0),
        },
        SetupStep::InjectPerpMarket {
            at: market,
            market: PerpMarketAccount {
                paused_operations: update_funding_bit,
                ..PerpMarketAccount::quoted(market, 0)
            },
        },
        SetupStep::Fund { key: authority, lamports: FUNDED_LAMPORTS },
        SetupStep::InjectStats { at: keeper_stats, authority },
    ]
}

impl Fx {
    /// Sets the scenario up; `update_funding_bit` is the market's pause of
    /// funding updates.
    pub fn setup(program_id: Pubkey, authority: Keypair, update_funding_bit: u8) -> (r: Option<Setup>)
        ensures
            r is Some <==> core_derivable(program_id) && derivable(
                indexed("perp_market", 0),
                program_id,
            ) && derivable(stats_seeds(addr(authority)), program_id),
            r matches Some(s) ==> {
                let c = core_at(program_id);
                let stats = pda_key(stats_seeds(addr(authority)), program_id);
                &&& s.fixture == (Fx {
                    program_id,
                    state_pda: c.state,
                    perp_market_pda: perp_at(program_id),
                    oracle: system_program_id(),
                    keeper_stats_pda: stats,
                    authority,
                })
                &&& s.steps@ == steps(
                    c,
                    perp_at(program_id),
                    addr(authority),
                    stats,
                    update_funding_bit,
                )
            },
    {
        let c = derive_core(program_id)?;
        let market = perp_market(program_id)?;
        let key = authority.pubkey();
        let (stats, _) = stats_pda(&key, program_id)?;
        Some(
            Setup {
                fixture: Fx {
                    program_id,
                    state_pda: c.state,
                    perp_market_pda: market,
                    oracle: system_program_id(),
                    keeper_stats_pda: stats,
                    authority,
                },
                steps: steps_of(c, market, key, stats, update_funding_bit),
            },
        )
    }

    /// Asks for new averages.
    pub fn crank(&self) -> (r: Transaction)
        ensures
            r@ == call(
                self.program_id,
                seq![
                    AccountMeta::new_readonly(self.state_pda, false),
                    AccountMeta::new(self.perp_market_pda, false),
                    AccountMeta::new_readonly(self.oracle, false),
                    AccountMeta::new_readonly(self.keeper_stats_pda, false),
                    AccountMeta::new_readonly(addr(self.authority), true),
                ],
                D_UPDATE_PERP_BID_ASK_TWAP@,
                addr(self.authority),
            ),
    {
        let accounts = vec![
            AccountMeta::new_readonly(self.state_pda, false),
            AccountMeta::new(self.perp_market_pda, false),
            AccountMeta::new_readonly(self.oracle, false),
            AccountMeta::new_readonly(self.keeper_stats_pda, false),
            AccountMeta::new_readonly(self.authority.pubkey(), true),
        ];
        let data = bare(D_UPDATE_PERP_BID_ASK_TWAP);
        send(self.program_id, accounts, data, self.authority.pubkey())
    }
}

/// Whether a market that has paused funding updates left its averages alone: the
/// crank works, and fails at nothing.
pub fn regr_276_bid_ask_twap(crank_worked: bool, error_code: Option<u32>) -> (r: bool)
    ensures
        r == (crank_worked && error_code is None),
{
    crank_worked && error_code.is_none()
}

} // verus!
