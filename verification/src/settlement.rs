//! The settlement of an expired position in a market that has paused it.

use vstd::prelude::*;
use crate::accounts::{
    build_perp_market, build_spot_market_usdc, MarketStatus, OracleSource, PerpMarketAccount,
    StateAccount, UserAccount,
};
use crate::discriminators::D_SETTLE_PNL;
use crate::fixture::{addr, derivable, indexed, pda_key, user_pda, user_seeds, SpotAddresses};
use crate::keys::{call, send, system_program_id, AccountMeta, Keypair, Pubkey, Transaction};
use crate::scenario::{
    core_at, core_derivable, derive_core, perp_at, perp_market, quote_market, spot_at, Core,
};
use crate::setup::{SetupStep, FUNDED_LAMPORTS};
use crate::wire::{ix_data, le, push_u16};

verus! {

/// The exchange's refusal to settle in a market whose status forbids it.
pub const E_INVALID_MARKET_STATUS_TO_SETTLE_PNL: u32 = 6158;

/// A market's pause of settlement.
pub const SETTLE_PNL_PAUSED: u8 = 8;

/// The scenario.
#[derive(Clone, Copy, PartialEq, Eq, Debug)]
pub struct Regr270 {
    pub program_id: Pubkey,
    pub state_pda: Pubkey,
    pub spot_market_pda: Pubkey,
    pub spot_vault_pda: Pubkey,
    pub perp_market_pda: Pubkey,
    pub user_pda: Pubkey,
    pub user_kp: Keypair,
}

/// A scenario that is ready to be performed.
#[derive(Debug)]
pub struct Setup {
    pub fixture: Regr270,
    pub steps: Vec<SetupStep>,
}

/// An active exchange with an expired market that has paused settlement, and a
/// user who is owed one quote unit there and holds no base.
pub open spec fn steps(
    c: Core,
    m: SpotAddresses,
    perp: Pubkey,
    usdc_mint: Pubkey,
    authority: Pubkey,
    user: Pubkey,
) -> Seq<SetupStep> {
    seq![
        SetupStep::InjectState {
            at: c.state,
            state: StateAccount::one_market(c.signer, c.signer_nonce, 0),
        },
        SetupStep::Mint { key: usdc_mint, authority: c.signer, decimals: 6 },
        SetupStep::InjectSpotMarket {
            at: m.market,
            market: build_spot_market_usdc(m.market, usdc_mint, m.vault, m.if_vault),
        },
        SetupStep::TokenAccount {
            key: m.vault,
            mint: usdc_mint,
            owner: c.signer,
            amount: 1_000_000_000,
        },
        SetupStep::InjectPerpMarket {
            at: perp,
            market: PerpMarketAccount {
                oracle_source: OracleSource::QuoteAsset,
                status: MarketStatus::Settlement,
                expiry_ts: (-100) as i64,
                expiry_price: 1_000_000,
                paused_operations: SETTLE_PNL_PAUSED,
                pnl_pool_scaled_balance: 100_000_000_000,
                ..build_perp_market(perp, 0, system_program_id())
            },
        },
        SetupStep::Fund { key: authority, lamports: FUNDED_LAMPORTS },
        SetupStep::InjectUser {
            at: user,
            user: UserAccount { perp_quote: 1_000_000, ..UserAccount::fresh(authority, 0) },
        },
    ]
}

fn steps_of(
    c: Core,
    m: SpotAddresses,
    perp: Pubkey,
    usdc_mint: Pubkey,
    authority: Pubkey,
    user: Pubkey,
) -> (r: Vec<SetupStep>)
    ensures
        r@ == steps(c, m, perp, usdc_mint, authority, user),
{
    vec![
        SetupStep::InjectState {
            at: c.state,
            state: StateAccount::one_market(c.signer, c.signer_nonce, 0),
        },
        SetupStep::Mint { key: usdc_mint, authority: c.signer, decimals: 6 },
        SetupStep::InjectSpotMarket {
            at: m.market,
            market: build_spot_market_usdc(m.market, usdc_mint, m.vault, m.if_vault),
        },
        SetupStep::TokenAccount {
            key: m.vault,
            mint: usdc_mint,
            owner: c.signer,
            amount: 1_000_000_000,
        },
        SetupStep::InjectPerpMarket {
            at: perp,
            market: PerpMarketAccount {
                oracle_source: OracleSource::QuoteAsset,
                status: MarketStatus::Settlement,
                expiry_ts: (-100) as i64,
                expiry_price: 1_000_000,
                paused_operations: SETTLE_PNL_PAUSED,
                pnl_pool_scaled_balance: 100_000_000_000,
                ..build_perp_market(perp, 0, system_program_id())
            },
        },
        SetupStep::Fund { key: authority, lamports: FUNDED_LAMPORTS },
        SetupStep::InjectUser {
            at: user,
            user: UserAccount { perp_quote: 1_000_000, ..UserAccount::fresh(authority, 0) },
        },
    ]
}

impl Regr270 {
    /// Sets the scenario up.
    pub fn setup(program_id: Pubkey, usdc_mint: Pubkey, user_kp: Keypair) -> (r: Option<Setup>)
        ensures
            r is Some <==> core_derivable(program_id) && SpotAddresses::all_derivable(
                0,
                program_id,
            ) && derivable(indexed("perp_market", 0), program_id) && derivable(
                user_seeds(addr(user_kp), 0),
                program_id,
            ),
            r matches Some(s) ==> {
                let c = core_at(program_id);
                let m = spot_at(0, program_id);
                let user = pda_key(user_seeds(addr(user_kp), 0), program_id);
                &&& s.fixture == (Regr270 {
                    program_id,
                    state_pda: c.state,
                    spot_market_pda: m.market,
                    spot_vault_pda: m.vault,
                    perp_market_pda: perp_at(program_id),
                    user_pda: user,
                    user_kp,
                })
                &&& s.steps@ == steps(c, m, perp_at(program_id), usdc_mint, addr(user_kp), user)
            },
    {
        let c = derive_core(program_id)?;
        let m = quote_market(program_id)?;
        let perp = perp_market(program_id)?;
        let authority = user_kp.pubkey();
        let (user, _) = user_pda(&authority, 0, program_id)?;
        Some(
            Setup {
                fixture: Regr270 {
                    program_id,
                    state_pda: c.state,
                    spot_market_pda: m.market,
                    spot_vault_pda: m.vault,
                    perp_market_pda: perp,
                    user_pda: user,
                    user_kp,
                },
                steps: steps_of(c, m, perp, usdc_mint, authority, user),
            },
        )
    }

    /// Settles the user's position.
    pub fn settle(&self) -> (r: Transaction)
        ensures
            r@ == call(
                self.program_id,
                seq![
                    AccountMeta::new_readonly(self.state_pda, false),
                    AccountMeta::new(self.user_pda, false),
                    AccountMeta::new_readonly(addr(self.user_kp), true),
                    AccountMeta::new_readonly(self.spot_vault_pda, false),
                    AccountMeta::new(self.spot_market_pda, false),
                    AccountMeta::new(self.perp_market_pda, false),
                ],
                D_SETTLE_PNL@ + le(0, 2),
                addr(self.user_kp),
            ),
    {
        let mut args: Vec<u8> = Vec::new();
        push_u16(&mut args, 0);
        assert(args@ =~= le(0, 2));
        let accounts = vec![
            AccountMeta::new_readonly(self.state_pda, false),
            AccountMeta::new(self.user_pda, false),
            AccountMeta::new_readonly(self.user_kp.pubkey(), true),
            AccountMeta::new_readonly(self.spot_vault_pda, false),
            AccountMeta::new(self.spot_market_pda, false),
            AccountMeta::new(self.perp_market_pda, false),
        ];
        send(self.program_id, accounts, ix_data(D_SETTLE_PNL, &args), self.user_kp.pubkey())
    }
}

/// Whether the exchange refused to settle, as a market that has paused
/// settlement must.
pub fn regr_270_perp_pause(error_code: Option<u32>) -> (r: bool)
    ensures
        r == (error_code == Some(E_INVALID_MARKET_STATUS_TO_SETTLE_PNL)),
{
    match error_code {
        Some(code) => code == E_INVALID_MARKET_STATUS_TO_SETTLE_PNL,
        None => false,
    }
}

} // verus!
