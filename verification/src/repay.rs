//! Holding a spot market's books against its vault.

use vstd::prelude::*;
use crate::discriminators::D_UPDATE_SPOT_MARKET_CUMULATIVE_INTEREST;
use crate::fixture::{addr, Fixture};
use crate::keys::{call, AccountMeta, Transaction};
use crate::model::{claim_of, SpotPosition, User};

verus! {

/// What a market owes its depositors beyond what its vault holds; negative where
/// the vault holds more.
pub fn deficit(vault: u64, claim: i64) -> (r: i128)
    ensures
        r == claim - vault,
{
    claim as i128 - vault as i128
}

/// The first balance of a user in a market that is not empty: positive where it
/// is a deposit, negative where it is a borrow, zero where there is none.
pub open spec fn signed_balance(positions: Seq<SpotPosition>, market_index: u16) -> int
    decreases positions.len(),
{
    if positions.len() == 0 {
        0
    } else if positions[0].market_index == market_index && positions[0].scaled_balance != 0 {
        claim_of(positions[0], market_index)
    } else {
        signed_balance(positions.skip(1), market_index)
    }
}

/// A user's signed balance in a market, in tokens.
pub fn user_token(user: &User, market_index: u16) -> (r: i128)
    requires
        forall|i: int|
            0 <= i < user.spot_positions@.len() ==> (#[trigger] user.spot_positions@[i]).tokens
                <= i128::MAX,
    ensures
        r == signed_balance(user.spot_positions@, market_index),
{
    let n = user.spot_positions.len();
    let mut i: usize = 0;
    assert(user.spot_positions@.skip(0) =~= user.spot_positions@);
    while i < n
        invariant
            i <= n,
            n == user.spot_positions@.len(),
            forall|j: int|
                0 <= j < user.spot_positions@.len() ==> (#[trigger] user.spot_positions@[j]).tokens
                    <= i128::MAX,
            signed_balance(user.spot_positions@, market_index) == signed_balance(
                user.spot_positions@.skip(i as int),
                market_index,
            ),
        decreases n - i,
    {
        let p = user.spot_positions[i];
        assert(user.spot_positions@.skip(i as int)[0] == p);
        assert(user.spot_positions@.skip(i as int).skip(1) =~= user.spot_positions@.skip(i + 1));
        if p.market_index == market_index && p.scaled_balance != 0 {
            return match p.balance_type {
                crate::model::BalanceType::Deposit => p.tokens as i128,
                crate::model::BalanceType::Borrow => -(p.tokens as i128),
            };
        }
        i = i + 1;
    }
    0
}

impl Fixture {
    /// Accrues the interest of spot market 1, which has an oracle of its own.
    pub fn crank_interest_1(&self) -> (r: Transaction)
        ensures
            r@ == call(
                self.program_id,
                seq![
                    AccountMeta::new_readonly(self.state_pda, false),
                    AccountMeta::new(self.spot_market_1_pda, false),
                    AccountMeta::new_readonly(self.spot_1_oracle_pda, false),
                    AccountMeta::new_readonly(self.spot_vault_1_pda, false),
                ],
                D_UPDATE_SPOT_MARKET_CUMULATIVE_INTEREST@,
                addr(self.crank),
            ),
    {
        self.submit_bare(
            vec![
                AccountMeta::new_readonly(self.state_pda, false),
                AccountMeta::new(self.spot_market_1_pda, false),
                AccountMeta::new_readonly(self.spot_1_oracle_pda, false),
                AccountMeta::new_readonly(self.spot_vault_1_pda, false),
            ],
            D_UPDATE_SPOT_MARKET_CUMULATIVE_INTEREST,
            self.crank.pubkey(),
        )
    }
}

} // verus!
