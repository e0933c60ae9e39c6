//! What the harness reads of the exchange's accounts, as plain values.
//!
//! Token amounts are the exchange's own conversions of its scaled balances.

use vstd::prelude::*;

verus! {

/// Which side of a spot market a balance is on.
#[derive(Clone, Copy, PartialEq, Eq, Structural, Debug)]
pub enum BalanceType {
    Deposit,
    Borrow,
}

#[derive(Clone, Copy, PartialEq, Eq, Structural, Debug)]
pub enum MarketType {
    Spot,
    Perp,
}

#[derive(Clone, Copy, PartialEq, Eq, Structural, Debug)]
pub enum OrderStatus {
    Init,
    Open,
    Filled,
    Canceled,
}

#[derive(Clone, Copy, PartialEq, Eq, Structural, Debug)]
pub enum OrderType {
    Market,
    Limit,
    TriggerMarket,
    TriggerLimit,
    Oracle,
}

#[derive(Clone, Copy, PartialEq, Eq, Structural, Debug)]
pub enum PositionDirection {
    Long,
    Short,
}

#[derive(Clone, Copy, PartialEq, Eq, Structural, Debug)]
pub enum PostOnlyParam {
    NotPostOnly,
    MustPostOnly,
    TryPostOnly,
}

#[derive(Clone, Copy, PartialEq, Eq, Structural, Debug)]
pub enum TriggerCondition {
    Above,
    Below,
}

/// One spot balance of a user.
#[derive(Clone, Copy, PartialEq, Eq, Debug)]
pub struct SpotPosition {
    pub market_index: u16,
    pub balance_type: BalanceType,
    pub scaled_balance: u64,
    /// The balance in the market's token, or zero where it has no conversion.
    pub tokens: u128,
}

/// One perp position of a user.
#[derive(Clone, Copy, PartialEq, Eq, Debug)]
pub struct PerpPosition {
    pub market_index: u16,
    pub base_asset_amount: i64,
    pub quote_asset_amount: i64,
    /// Resting buys, never negative.
    pub open_bids: i64,
    /// Resting sells, never positive.
    pub open_asks: i64,
    pub open_orders: u8,
    pub isolated_position_scaled_balance: u64,
}

/// One slot of a user's order array.
#[derive(Clone, Copy, PartialEq, Eq, Debug)]
pub struct Order {
    pub status: OrderStatus,
    pub market_type: MarketType,
    pub market_index: u16,
    pub order_id: u32,
    pub order_type: OrderType,
    pub reduce_only: bool,
    pub base_asset_amount_filled: u64,
}

/// A user account.
#[derive(Debug)]
pub struct User {
    pub spot_positions: Vec<SpotPosition>,
    pub perp_positions: Vec<PerpPosition>,
    pub orders: Vec<Order>,
    pub next_order_id: u32,
    /// Whether the exchange has flagged the account for liquidation.
    pub being_liquidated: bool,
    pub bankrupt: bool,
    pub liquidation_margin_freed: u64,
}

/// A spot market account.
#[derive(Clone, Copy, PartialEq, Eq, Debug)]
pub struct SpotMarket {
    pub market_index: u16,
    pub deposit_balance: u128,
    pub borrow_balance: u128,
    pub cumulative_deposit_interest: u128,
    pub cumulative_borrow_interest: u128,
    pub total_social_loss: u128,
    pub user_shares: u128,
    pub total_shares: u128,
    /// The market's recorded deposits in tokens.
    pub deposit_tokens: u128,
    pub revenue_pool_tokens: u128,
    pub protocol_fee_pool_tokens: u128,
    /// Revenue owed to the insurance fund.
    pub revenue_receivable_tokens: u128,
    /// Deposits less borrows, in tokens.
    pub depositors_claim: i64,
    /// Whether the exchange's own check accepts the vault for these balances.
    pub vault_accepted: bool,
}

/// A perp market account. The pools are in tokens of the quote market.
#[derive(Clone, Copy, PartialEq, Eq, Debug)]
pub struct PerpMarket {
    pub market_index: u16,
    pub base_asset_amount_long: i128,
    pub base_asset_amount_short: i128,
    pub base_asset_amount_with_amm: i128,
    pub cumulative_funding_rate_long: i128,
    pub cumulative_funding_rate_short: i128,
    pub last_funding_rate: i64,
    pub last_funding_rate_ts: i64,
    pub funding_period: i64,
    pub pnl_pool_tokens: u128,
    pub fee_pool_tokens: u128,
    pub protocol_fee_pool_tokens: u128,
    pub pending_if_fee: u128,
    /// The part of open interest that the insurance tranche must stand behind.
    pub bankruptcy_if_floor: u128,
}

/// No account has more slots of one kind than this.
pub const MAX_SLOTS: usize = 64;

/// Token amounts up to here add up over every slot of every user without
/// leaving the machine's integers.
pub const MAX_TOKENS: u128 = 0x4_0000_0000_0000_0000_0000_0000_0000;

/// No account's net claim is larger than this, nor smaller than its negation.
pub const MAX_USER_TOKENS: u128 = 0x100_0000_0000_0000_0000_0000_0000_0000;

/// The same of all users together.
pub const MAX_ALL_TOKENS: u128 = 0x4000_0000_0000_0000_0000_0000_0000_0000;

impl User {
    /// The account's arrays are of ordinary size and its amounts add up within
    /// the machine's integers.
    pub open spec fn fits(self) -> bool {
        &&& self.spot_positions@.len() <= MAX_SLOTS
        &&& self.perp_positions@.len() <= MAX_SLOTS
        &&& self.orders@.len() <= MAX_SLOTS
        &&& forall|i: int|
            0 <= i < self.spot_positions@.len() ==> (#[trigger] self.spot_positions@[i]).tokens
                <= MAX_TOKENS
    }

    /// Decides [`User::fits`].
    pub fn within_limits(&self) -> (r: bool)
        ensures
            r == self.fits(),
    {
        if self.spot_positions.len() > MAX_SLOTS || self.perp_positions.len() > MAX_SLOTS
            || self.orders.len() > MAX_SLOTS {
            return false;
        }
        let mut i: usize = 0;
        while i < self.spot_positions.len()
            invariant
                i <= self.spot_positions@.len(),
                forall|j: int|
                    0 <= j < i ==> (#[trigger] self.spot_positions@[j]).tokens <= MAX_TOKENS,
            decreases self.spot_positions@.len() - i,
        {
            if self.spot_positions[i].tokens > MAX_TOKENS {
                return false;
            }
            i = i + 1;
        }
        true
    }
}

impl SpotMarket {
    pub open spec fn fits(self) -> bool {
        &&& self.revenue_pool_tokens <= MAX_TOKENS
        &&& self.protocol_fee_pool_tokens <= MAX_TOKENS
        &&& self.revenue_receivable_tokens <= MAX_TOKENS
    }

    /// Decides [`SpotMarket::fits`].
    pub fn within_limits(&self) -> (r: bool)
        ensures
            r == self.fits(),
    {
        self.revenue_pool_tokens <= MAX_TOKENS && self.protocol_fee_pool_tokens <= MAX_TOKENS
            && self.revenue_receivable_tokens <= MAX_TOKENS
    }
}

impl PerpMarket {
    pub open spec fn fits(self) -> bool {
        &&& self.pnl_pool_tokens <= MAX_TOKENS
        &&& self.fee_pool_tokens <= MAX_TOKENS
        &&& self.protocol_fee_pool_tokens <= MAX_TOKENS
        &&& i128::MIN <= self.base_asset_amount_long + self.base_asset_amount_short <= i128::MAX
    }

    /// Decides [`PerpMarket::fits`].
    pub fn within_limits(&self) -> (r: bool)
        ensures
            r == self.fits(),
    {
        self.pnl_pool_tokens <= MAX_TOKENS && self.fee_pool_tokens <= MAX_TOKENS
            && self.protocol_fee_pool_tokens <= MAX_TOKENS && self.base_asset_amount_long.checked_add(
            self.base_asset_amount_short,
        ).is_some()
    }
}

// ---------------------------------------------------------------------------
// Sums and searches over a user's slots
// ---------------------------------------------------------------------------

/// What one balance adds to the net claim on a market: deposits count for it,
/// borrows against it, empty slots and other markets not at all.
pub open spec fn claim_of(p: SpotPosition, market_index: u16) -> int {
    if p.market_index != market_index || p.scaled_balance == 0 {
        0
    } else if p.balance_type == BalanceType::Deposit {
        p.tokens as int
    } else {
        -(p.tokens as int)
    }
}

/// The net claim of balances on a market.
pub open spec fn net_claims(positions: Seq<SpotPosition>, market_index: u16) -> int
    decreases positions.len(),
{
    if positions.len() == 0 {
        0
    } else {
        net_claims(positions.drop_last(), market_index) + claim_of(positions.last(), market_index)
    }
}

/// The net claim of the users that could be read.
pub open spec fn net_user_tokens(users: Seq<Option<User>>, market_index: u16) -> int
    decreases users.len(),
{
    if users.len() == 0 {
        0
    } else {
        net_user_tokens(users.drop_last(), market_index) + match users.last() {
            Some(u) => net_claims(u.spot_positions@, market_index),
            None => 0,
        }
    }
}

/// At most [`MAX_SLOTS`] users, each of ordinary size.
pub open spec fn users_fit(users: Seq<Option<User>>) -> bool {
    &&& users.len() <= MAX_SLOTS
    &&& forall|i: int|
        0 <= i < users.len() ==> (#[trigger] users[i] matches Some(u) ==> u.fits())
}

/// Decides [`users_fit`].
pub fn users_within_limits(users: &Vec<Option<User>>) -> (r: bool)
    ensures
        r == users_fit(users@),
{
    if users.len() > MAX_SLOTS {
        return false;
    }
    let mut i: usize = 0;
    while i < users.len()
        invariant
            i <= users@.len(),
            forall|j: int| 0 <= j < i ==> (#[trigger] users@[j] matches Some(u) ==> u.fits()),
        decreases users@.len() - i,
    {
        if let Some(u) = &users[i] {
            if !u.within_limits() {
                assert(!(users@[i as int]->0).fits());
                return false;
            }
        }
        i = i + 1;
    }
    true
}

/// The net claim of one account on a market.
pub fn net_claims_of(user: &User, market_index: u16) -> (r: i128)
    requires
        user.fits(),
    ensures
        r == net_claims(user.spot_positions@, market_index),
        -MAX_USER_TOKENS <= r <= MAX_USER_TOKENS,
{
    let positions = &user.spot_positions;
    let mut net: i128 = 0;
    let mut i: usize = 0;
    assert(positions@.take(0) =~= Seq::empty());
    while i < positions.len()
        invariant
            positions == user.spot_positions,
            user.fits(),
            i <= positions@.len() <= MAX_SLOTS,
            net == net_claims(positions@.take(i as int), market_index),
            -(i * MAX_TOKENS) <= net <= i * MAX_TOKENS,
        decreases positions@.len() - i,
    {
        let p = positions[i];
        assert(user.spot_positions@[i as int].tokens <= MAX_TOKENS);
        assert(positions@.take(i + 1).drop_last() =~= positions@.take(i as int));
        assert(positions@.take(i + 1).last() == p);
        if p.market_index == market_index && p.scaled_balance != 0 {
            match p.balance_type {
                BalanceType::Deposit => {
                    net = net + p.tokens as i128;
                },
                BalanceType::Borrow => {
                    net = net - p.tokens as i128;
                },
            }
        }
        i = i + 1;
    }
    assert(positions@.take(i as int) =~= positions@);
    net
}

/// The net claim of every readable user on a market.
pub fn net_user_tokens_of(users: &Vec<Option<User>>, market_index: u16) -> (r: i128)
    requires
        users_fit(users@),
    ensures
        r == net_user_tokens(users@, market_index),
        -MAX_ALL_TOKENS <= r <= MAX_ALL_TOKENS,
{
    let mut net: i128 = 0;
    let mut i: usize = 0;
    assert(users@.take(0) =~= Seq::empty());
    while i < users.len()
        invariant
            users_fit(users@),
            i <= users@.len(),
            net == net_user_tokens(users@.take(i as int), market_index),
            -(i * MAX_USER_TOKENS) <= net <= i * MAX_USER_TOKENS,
        decreases users@.len() - i,
    {
        assert(users@.take(i + 1).drop_last() =~= users@.take(i as int));
        assert(users@.take(i + 1).last() == users@[i as int]);
        match &users[i] {
            Some(u) => {
                assert(users@[i as int]->0.fits());
                let one: i128 = net_claims_of(u, market_index);
                net = net + one;
            },
            None => {},
        }
        i = i + 1;
    }
    assert(users@.take(i as int) =~= users@);
    net
}

/// The first perp position in a market.
pub open spec fn find_perp(positions: Seq<PerpPosition>, market_index: u16) -> Option<PerpPosition>
    decreases positions.len(),
{
    if positions.len() == 0 {
        None
    } else if positions[0].market_index == market_index {
        Some(positions[0])
    } else {
        find_perp(positions.skip(1), market_index)
    }
}

pub fn find_perp_in(positions: &Vec<PerpPosition>, market_index: u16) -> (r: Option<PerpPosition>)
    ensures
        r == find_perp(positions@, market_index),
{
    let mut i: usize = 0;
    assert(positions@.skip(0) =~= positions@);
    while i < positions.len()
        invariant
            i <= positions@.len(),
            find_perp(positions@, market_index) == find_perp(
                positions@.skip(i as int),
                market_index,
            ),
        decreases positions@.len() - i,
    {
        let p = positions[i];
        assert(positions@.skip(i as int)[0] == p);
        assert(positions@.skip(i as int).skip(1) =~= positions@.skip(i + 1));
        if p.market_index == market_index {
            return Some(p);
        }
        i = i + 1;
    }
    None
}

} // verus!
