//! Deposits, orders, fills and settlement.

use vstd::prelude::*;
use crate::constants::NUM_USERS;
use crate::discriminators::{
    D_CANCEL_ORDER, D_CANCEL_ORDERS, D_CANCEL_ORDERS_BY_IDS, D_CANCEL_ORDER_BY_USER_ID, D_DEPOSIT,
    D_FILL_PERP_ORDER, D_MODIFY_ORDER, D_MODIFY_ORDER_BY_USER_ID, D_PLACE_AND_MAKE_PERP_ORDER,
    D_PLACE_AND_TAKE_PERP_ORDER, D_PLACE_ORDERS, D_PLACE_PERP_ORDER, D_REVERT_FILL,
    D_SETTLE_FUNDING_PAYMENT, D_SETTLE_MULTIPLE_PNLS, D_SETTLE_PNL, D_TRIGGER_ORDER,
    D_UPDATE_AMMS, D_UPDATE_FUNDING_RATE, D_UPDATE_PERP_BID_ASK_TWAP, D_WITHDRAW,
};
use crate::fixture::{addr, Fixture, UserAcct};
use crate::keys::{call, send, token_program_id, AccountMeta, Pubkey, Transaction, TransactionView};
use crate::model::{
    Order, OrderStatus, OrderType, PositionDirection, PostOnlyParam, TriggerCondition, User,
};
use crate::params::{direction_of, OrderParams};
use crate::wire::{
    flag, flag_byte, ix_data, le, modify_params_bytes, modify_params_wire, opt, push_bytes,
    push_opt, push_opt_u8, push_u16, push_u32, push_u64, push_u8, u16_bytes, u32_bytes,
    ModifyParams,
};

verus! {

// ---------------------------------------------------------------------------
// Shared account lists
// ---------------------------------------------------------------------------

/// What one user touches in one spot market.
#[derive(Clone, Copy, PartialEq, Eq, Debug)]
pub struct SpotSide {
    pub market: Pubkey,
    pub vault: Pubkey,
    pub if_vault: Pubkey,
    pub wallet: Pubkey,
}

/// One list after another.
pub fn join(first: Vec<AccountMeta>, second: Vec<AccountMeta>) -> (r: Vec<AccountMeta>)
    ensures
        r@ == first@ + second@,
{
    let mut r = first;
    let mut tail = second;
    r.append(&mut tail);
    r
}

/// The other user of a pair.
pub open spec fn next_user(i: int) -> int {
    (i + 1) % NUM_USERS as int
}

pub fn next_user_index(i: usize) -> (r: usize)
    requires
        i < NUM_USERS,
    ensures
        r == next_user(i as int),
        r < NUM_USERS,
{
    (i + 1) % NUM_USERS
}

impl Fixture {
    /// The market accounts that trail an account list: both oracles, both spot
    /// markets of the first pool, then the perp market. The order is part of
    /// the exchange's interface.
    pub open spec fn markets(self, spot_writable: bool) -> Seq<AccountMeta> {
        seq![
            AccountMeta::new(self.perp_oracle_pda, false),
            AccountMeta::new(self.spot_1_oracle_pda, false),
            AccountMeta {
                pubkey: self.spot_market_pda,
                is_signer: false,
                is_writable: spot_writable,
            },
            AccountMeta {
                pubkey: self.spot_market_1_pda,
                is_signer: false,
                is_writable: spot_writable,
            },
            AccountMeta::new(self.perp_market_pda, false),
        ]
    }

    pub fn market_ras(&self, spot_writable: bool) -> (r: Vec<AccountMeta>)
        ensures
            r@ == self.markets(spot_writable),
    {
        vec![
            AccountMeta::new(self.perp_oracle_pda, false),
            AccountMeta::new(self.spot_1_oracle_pda, false),
            AccountMeta {
                pubkey: self.spot_market_pda,
                is_signer: false,
                is_writable: spot_writable,
            },
            AccountMeta {
                pubkey: self.spot_market_1_pda,
                is_signer: false,
                is_writable: spot_writable,
            },
            AccountMeta::new(self.perp_market_pda, false),
        ]
    }

    /// The accounts of one spot market that one user touches: those of market 1
    /// for index one, those of the quote market for every other index.
    pub open spec fn side(self, market_index: u16, user: UserAcct) -> SpotSide {
        if market_index == 1 {
            SpotSide {
                market: self.spot_market_1_pda,
                vault: self.spot_vault_1_pda,
                if_vault: self.if_vault_1_pda,
                wallet: user.token_account_1,
            }
        } else {
            SpotSide {
                market: self.spot_market_pda,
                vault: self.spot_vault_pda,
                if_vault: self.if_vault_pda,
                wallet: user.token_account,
            }
        }
    }

    pub fn spot_of(&self, market_index: u16, user: &UserAcct) -> (r: SpotSide)
        ensures
            r == self.side(market_index, *user),
    {
        if market_index == 1 {
            SpotSide {
                market: self.spot_market_1_pda,
                vault: self.spot_vault_1_pda,
                if_vault: self.if_vault_1_pda,
                wallet: user.token_account_1,
            }
        } else {
            SpotSide {
                market: self.spot_market_pda,
                vault: self.spot_vault_pda,
                if_vault: self.if_vault_pda,
                wallet: user.token_account,
            }
        }
    }

    /// The market whose own indices value a balance. The markets of the second pool
    /// have theirs, and a balance in no market of the scenario is the quote market's.
    pub fn spot_market_of(&self, market_index: u16) -> (r: Pubkey)
        ensures
            r == match market_index {
                1 => self.spot_market_1_pda,
                2 => self.pool1_market_a_pda,
                3 => self.pool1_market_b_pda,
                _ => self.spot_market_pda,
            },
    {
        match market_index {
            1 => self.spot_market_1_pda,
            2 => self.pool1_market_a_pda,
            3 => self.pool1_market_b_pda,
            _ => self.spot_market_pda,
        }
    }

    /// A transaction of one instruction to the exchange.
    pub fn submit(
        &self,
        accounts: Vec<AccountMeta>,
        disc: [u8; 8],
        args: &Vec<u8>,
        signer: Pubkey,
    ) -> (r: Transaction)
        ensures
            r@ == call(self.program_id, accounts@, disc@ + args@, signer),
    {
        send(self.program_id, accounts, ix_data(disc, args), signer)
    }

    /// A transaction of one instruction without arguments.
    pub fn submit_bare(&self, accounts: Vec<AccountMeta>, disc: [u8; 8], signer: Pubkey) -> (r:
        Transaction)
        ensures
            r@ == call(self.program_id, accounts@, disc@, signer),
    {
        let args: Vec<u8> = Vec::new();
        let data = ix_data(disc, &args);
        assert(data@ =~= disc@);
        send(self.program_id, accounts, data, signer)
    }

    /// The accounts of an instruction on a user's orders.
    pub open spec fn order_accounts(self, user: UserAcct) -> Seq<AccountMeta> {
        seq![
            AccountMeta::new_readonly(self.state_pda, false),
            AccountMeta::new(user.user_pda, false),
            AccountMeta::new_readonly(user.authority(), true),
        ] + self.markets(false)
    }

    pub fn order_ix_accounts(&self, user: &UserAcct) -> (r: Vec<AccountMeta>)
        ensures
            r@ == self.order_accounts(*user),
    {
        join(
            vec![
                AccountMeta::new_readonly(self.state_pda, false),
                AccountMeta::new(user.user_pda, false),
                AccountMeta::new_readonly(user.keypair.pubkey(), true),
            ],
            self.market_ras(false),
        )
    }

    /// An instruction on a user's orders, signed by the user.
    pub open spec fn order_call(self, user: UserAcct, disc: Seq<u8>, args: Seq<u8>) -> TransactionView {
        call(self.program_id, self.order_accounts(user), disc + args, user.authority())
    }

    pub fn send_order_ix(&self, user_idx: usize, disc: [u8; 8], args: Vec<u8>) -> (r: Transaction)
        requires
            self.wf(),
            user_idx < NUM_USERS,
        ensures
            r@ == self.order_call(self.users@[user_idx as int], disc@, args@),
    {
        let user = self.users[user_idx];
        self.submit(self.order_ix_accounts(&user), disc, &args, user.keypair.pubkey())
    }
}

// ---------------------------------------------------------------------------
// Deposits and withdrawals
// ---------------------------------------------------------------------------

/// The smaller of two amounts.
pub open spec fn at_most(amount: u64, limit: u64) -> u64 {
    if amount < limit {
        amount
    } else {
        limit
    }
}

/// A market index, an amount and whether it may only reduce.
pub open spec fn amount_args(market_index: u16, amount: u64, reduce_only: bool) -> Seq<u8> {
    le(market_index as int, 2) + le(amount as int, 8) + seq![flag(reduce_only)]
}

fn amount_args_of(market_index: u16, amount: u64, reduce_only: bool) -> (r: Vec<u8>)
    ensures
        r@ == amount_args(market_index, amount, reduce_only),
{
    let mut args = u16_bytes(market_index);
    push_u64(&mut args, amount);
    push_u8(&mut args, flag_byte(reduce_only));
    args
}

impl Fixture {
    /// A spot market behind its oracle: market 1 is priced by one, the quote
    /// market is not.
    pub open spec fn priced_market(self, market_index: u16) -> Seq<AccountMeta> {
        if market_index == 1 {
            seq![
                AccountMeta::new(self.spot_1_oracle_pda, false),
                AccountMeta::new(self.spot_market_1_pda, false),
            ]
        } else {
            seq![AccountMeta::new(self.spot_market_pda, false)]
        }
    }

    fn priced_market_accounts(&self, market_index: u16) -> (r: Vec<AccountMeta>)
        ensures
            r@ == self.priced_market(market_index),
    {
        if market_index == 1 {
            vec![
                AccountMeta::new(self.spot_1_oracle_pda, false),
                AccountMeta::new(self.spot_market_1_pda, false),
            ]
        } else {
            vec![AccountMeta::new(self.spot_market_pda, false)]
        }
    }

    /// A deposit.
    pub open spec fn deposit_call(
        self,
        user: UserAcct,
        amount: u64,
        market_index: u16,
        reduce_only: bool,
    ) -> TransactionView {
        let side = self.side(market_index, user);
        call(
            self.program_id,
            seq![
                AccountMeta::new_readonly(self.state_pda, false),
                AccountMeta::new(user.user_pda, false),
                AccountMeta::new(user.stats_pda, false),
                AccountMeta::new_readonly(user.authority(), true),
                AccountMeta::new(side.vault, false),
                AccountMeta::new(side.wallet, false),
                AccountMeta::new_readonly(token_program_id(), false),
            ] + self.priced_market(market_index),
            D_DEPOSIT@ + amount_args(market_index, amount, reduce_only),
            user.authority(),
        )
    }

    /// Deposits what the wallet can pay of `amount`; nothing where that is
    /// nothing.
    pub fn action_deposit(
        &self,
        user_idx: usize,
        amount: u64,
        market_index: u16,
        reduce_only: u8,
        wallet_balance: u64,
    ) -> (r: Option<Transaction>)
        requires
            self.wf(),
            user_idx < NUM_USERS,
        ensures
            r is None <==> at_most(amount, wallet_balance) == 0,
            r matches Some(t) ==> t@ == self.deposit_call(
                self.users@[user_idx as int],
                at_most(amount, wallet_balance),
                market_index,
                reduce_only == 1,
            ),
    {
        let user = self.users[user_idx];
        let side = self.spot_of(market_index, &user);
        let amount: u64 = if amount < wallet_balance {
            amount
        } else {
            wallet_balance
        };
        if amount == 0 {
            return None;
        }
        let accounts = join(
            vec![
                AccountMeta::new_readonly(self.state_pda, false),
                AccountMeta::new(user.user_pda, false),
                AccountMeta::new(user.stats_pda, false),
                AccountMeta::new_readonly(user.keypair.pubkey(), true),
                AccountMeta::new(side.vault, false),
                AccountMeta::new(side.wallet, false),
                AccountMeta::new_readonly(token_program_id(), false),
            ],
            self.priced_market_accounts(market_index),
        );
        Some(
            self.submit(
                accounts,
                D_DEPOSIT,
                &amount_args_of(market_index, amount, reduce_only == 1),
                user.keypair.pubkey(),
            ),
        )
    }

    /// A withdrawal, which is margin-checked against the whole portfolio.
    pub open spec fn withdraw_call(
        self,
        user: UserAcct,
        amount: u64,
        market_index: u16,
        reduce_only: bool,
    ) -> TransactionView {
        let side = self.side(market_index, user);
        call(
            self.program_id,
            seq![
                AccountMeta::new_readonly(self.state_pda, false),
                AccountMeta::new(user.user_pda, false),
                AccountMeta::new(user.stats_pda, false),
                AccountMeta::new_readonly(user.authority(), true),
                AccountMeta::new(side.vault, false),
                AccountMeta::new_readonly(self.signer_pda, false),
                AccountMeta::new(side.wallet, false),
                AccountMeta::new_readonly(token_program_id(), false),
            ] + self.markets(true),
            D_WITHDRAW@ + amount_args(market_index, amount, reduce_only),
            user.authority(),
        )
    }

    /// Withdraws from a spot market; beyond the deposit this opens a borrow.
    pub fn action_withdraw(
        &self,
        user_idx: usize,
        amount: u64,
        market_index: u16,
        reduce_only: u8,
    ) -> (r: Transaction)
        requires
            self.wf(),
            user_idx < NUM_USERS,
        ensures
            r@ == self.withdraw_call(
                self.users@[user_idx as int],
                amount,
                market_index,
                reduce_only == 1,
            ),
    {
        let user = self.users[user_idx];
        let side = self.spot_of(market_index, &user);
        let accounts = join(
            vec![
                AccountMeta::new_readonly(self.state_pda, false),
                AccountMeta::new(user.user_pda, false),
                AccountMeta::new(user.stats_pda, false),
                AccountMeta::new_readonly(user.keypair.pubkey(), true),
                AccountMeta::new(side.vault, false),
                AccountMeta::new_readonly(self.signer_pda, false),
                AccountMeta::new(side.wallet, false),
                AccountMeta::new_readonly(token_program_id(), false),
            ],
            self.market_ras(true),
        );
        self.submit(
            accounts,
            D_WITHDRAW,
            &amount_args_of(market_index, amount, reduce_only == 1),
            user.keypair.pubkey(),
        )
    }
}

// ---------------------------------------------------------------------------
// Placing orders
// ---------------------------------------------------------------------------

/// The price of an order against a mark of one: through it where the order is
/// to cross, away from it where it is to rest.
pub open spec fn order_price(direction: PositionDirection, cross: bool) -> u64 {
    if (direction == PositionDirection::Long) == cross {
        1_100_000
    } else {
        900_000
    }
}

pub open spec fn order_type_of(kind: u8) -> OrderType {
    if kind == 0 {
        OrderType::Limit
    } else if kind == 1 {
        OrderType::Market
    } else if kind == 2 {
        OrderType::TriggerLimit
    } else {
        OrderType::TriggerMarket
    }
}

pub open spec fn is_trigger(order_type: OrderType) -> bool {
    order_type == OrderType::TriggerLimit || order_type == OrderType::TriggerMarket
}

pub open spec fn post_only_of(choice: u8) -> PostOnlyParam {
    if choice == 0 {
        PostOnlyParam::NotPostOnly
    } else if choice == 1 {
        PostOnlyParam::MustPostOnly
    } else {
        PostOnlyParam::TryPostOnly
    }
}

/// A resting or crossing order of the chosen kind. A trigger order triggers at
/// its price; any other kind has no trigger price.
pub open spec fn perp_order(
    dir: u8,
    base: u64,
    order_kind: u8,
    post_only_sel: u8,
    cross: u8,
    user_order_id: u8,
    reduce_only: u8,
) -> OrderParams {
    let direction = direction_of(dir);
    let price = order_price(direction, cross == 1);
    OrderParams {
        user_order_id,
        reduce_only: reduce_only == 1,
        post_only: post_only_of(post_only_sel),
        trigger_price: if is_trigger(order_type_of(order_kind)) {
            Some(price)
        } else {
            None
        },
        ..OrderParams::perp(order_type_of(order_kind), direction, base, price)
    }
}

/// `n` market indices from zero, two bytes each.
pub open spec fn index_list(n: nat) -> Seq<u8>
    decreases n,
{
    if n == 0 {
        Seq::empty()
    } else {
        index_list((n - 1) as nat) + le((n - 1) % 65536, 2)
    }
}

fn push_index_list(buf: &mut Vec<u8>, n: u32)
    ensures
        final(buf)@ == old(buf)@ + index_list(n as nat),
{
    let mut k: u32 = 0;
    assert(old(buf)@ + index_list(0) =~= old(buf)@);
    while k < n
        invariant
            k <= n,
            buf@ == old(buf)@ + index_list(k as nat),
        decreases n - k,
    {
        let index: u16 = (k % 65536) as u16;
        push_u16(buf, index);
        assert(old(buf)@ + index_list(k as nat) + le(index as int, 2) =~= old(buf)@ + (index_list(
            k as nat,
        ) + le(index as int, 2)));
        k = k + 1;
    }
}

impl Fixture {
    /// The order that [`Fixture::send_perp_order`] then places.
    pub fn action_place_perp_order(
        &self,
        dir: u8,
        base: u64,
        order_kind: u8,
        post_only_sel: u8,
        cross: u8,
        user_order_id: u8,
        reduce_only: u8,
    ) -> (r: OrderParams)
        ensures
            r == perp_order(
                dir,
                base,
                order_kind,
                post_only_sel,
                cross,
                user_order_id,
                reduce_only,
            ),
    {
        let direction = direction_of(dir);
        let crosses = cross == 1;
        let price: u64 = match direction {
            PositionDirection::Long => if crosses {
                1_100_000
            } else {
                900_000
            },
            PositionDirection::Short => if crosses {
                900_000
            } else {
                1_100_000
            },
        };
        let order_type = match order_kind {
            0 => OrderType::Limit,
            1 => OrderType::Market,
            2 => OrderType::TriggerLimit,
            _ => OrderType::TriggerMarket,
        };
        let post_only = match post_only_sel {
            0 => PostOnlyParam::NotPostOnly,
            1 => PostOnlyParam::MustPostOnly,
            _ => PostOnlyParam::TryPostOnly,
        };
        let trigger_price: Option<u64> = match order_type {
            OrderType::TriggerLimit => Some(price),
            OrderType::TriggerMarket => Some(price),
            _ => None,
        };
        OrderParams {
            user_order_id,
            reduce_only: reduce_only == 1,
            post_only,
            trigger_price,
            ..OrderParams::perp(order_type, direction, base, price)
        }
    }

    /// Places an order, given as the exchange encodes it.
    pub fn send_perp_order(&self, user_idx: usize, order_wire: Vec<u8>) -> (r: Transaction)
        requires
            self.wf(),
            user_idx < NUM_USERS,
        ensures
            r@ == self.order_call(
                self.users@[user_idx as int],
                D_PLACE_PERP_ORDER@,
                order_wire@,
            ),
    {
        self.send_order_ix(user_idx, D_PLACE_PERP_ORDER, order_wire)
    }

    /// A batch of resting post-only limit orders, to be encoded and sent with
    /// [`Fixture::send_orders`]. None of them claims an order id.
    pub fn action_place_orders(&self, n: u32, dir: u8, base: u64) -> (r: Vec<OrderParams>)
        ensures
            r@ == Seq::new(
                n as nat,
                |i: int|
                    OrderParams {
                        post_only: PostOnlyParam::MustPostOnly,
                        ..OrderParams::perp(
                            OrderType::Limit,
                            direction_of(dir),
                            base,
                            order_price(direction_of(dir), false),
                        )
                    },
            ),
    {
        let direction = direction_of(dir);
        let price: u64 = match direction {
            PositionDirection::Long => 900_000,
            PositionDirection::Short => 1_100_000,
        };
        let one = OrderParams {
            post_only: PostOnlyParam::MustPostOnly,
            ..OrderParams::perp(OrderType::Limit, direction, base, price)
        };
        let mut batch: Vec<OrderParams> = Vec::new();
        let mut k: u32 = 0;
        while k < n
            invariant
                k <= n,
                batch@.len() == k,
                forall|i: int| 0 <= i < k ==> #[trigger] batch@[i] == one,
            decreases n - k,
        {
            batch.push(one);
            k = k + 1;
        }
        batch
    }

    /// Places a batch of orders, given as the exchange encodes it.
    pub fn send_orders(&self, user_idx: usize, orders_wire: Vec<u8>) -> (r: Transaction)
        requires
            self.wf(),
            user_idx < NUM_USERS,
        ensures
            r@ == self.order_call(self.users@[user_idx as int], D_PLACE_ORDERS@, orders_wire@),
    {
        self.send_order_ix(user_idx, D_PLACE_ORDERS, orders_wire)
    }
}

// ---------------------------------------------------------------------------
// Picking orders that exist
// ---------------------------------------------------------------------------

pub open spec fn pickable(o: Order, trigger_only: bool) -> bool {
    o.status == OrderStatus::Open && (!trigger_only || is_trigger(o.order_type))
}

/// The ids of the open orders, or of the open trigger orders.
pub open spec fn open_ids(orders: Seq<Order>, trigger_only: bool) -> Seq<u32>
    decreases orders.len(),
{
    if orders.len() == 0 {
        Seq::empty()
    } else {
        let rest = open_ids(orders.drop_last(), trigger_only);
        if pickable(orders.last(), trigger_only) {
            rest.push(orders.last().order_id)
        } else {
            rest
        }
    }
}

/// The `nth` open order, wrapping round; `None` where none is open.
pub open spec fn picked(user: Option<User>, nth: usize, trigger_only: bool) -> Option<u32> {
    match user {
        Some(u) => {
            let ids = open_ids(u.orders@, trigger_only);
            if ids.len() == 0 {
                None
            } else {
                Some(ids[nth as int % ids.len() as int])
            }
        },
        None => None,
    }
}

/// The id is that of an order that can be picked.
pub open spec fn names_pickable(orders: Seq<Order>, id: u32, trigger_only: bool) -> bool {
    exists|i: int|
        0 <= i < orders.len() && pickable(#[trigger] orders[i], trigger_only) && orders[i].order_id
            == id
}

proof fn open_ids_name_orders(orders: Seq<Order>, trigger_only: bool, k: int)
    requires
        0 <= k < open_ids(orders, trigger_only).len(),
    ensures
        names_pickable(orders, open_ids(orders, trigger_only)[k], trigger_only),
    decreases orders.len(),
{
    let rest = orders.drop_last();
    if k < open_ids(rest, trigger_only).len() {
        open_ids_name_orders(rest, trigger_only, k);
        let id = open_ids(rest, trigger_only)[k];
        let i = choose|i: int|
            0 <= i < rest.len() && pickable(#[trigger] rest[i], trigger_only) && rest[i].order_id
                == id;
        assert(pickable(orders[i], trigger_only) && orders[i].order_id == id);
    } else {
        assert(pickable(orders[orders.len() - 1], trigger_only));
    }
}

proof fn orders_are_listed(orders: Seq<Order>, trigger_only: bool, i: int)
    requires
        0 <= i < orders.len(),
        pickable(orders[i], trigger_only),
    ensures
        open_ids(orders, trigger_only).len() > 0,
    decreases orders.len(),
{
    if i < orders.len() - 1 {
        orders_are_listed(orders.drop_last(), trigger_only, i);
    }
}

/// A pick names an order that is open, and of the kind that was asked for; and
/// wherever there is such an order, something is picked.
pub proof fn picks_name_open_orders(u: User, nth: usize, trigger_only: bool)
    ensures
        picked(Some(u), nth, trigger_only) matches Some(id) ==> names_pickable(
            u.orders@,
            id,
            trigger_only,
        ),
        forall|i: int|
            0 <= i < u.orders@.len() && pickable(#[trigger] u.orders@[i], trigger_only)
                ==> picked(Some(u), nth, trigger_only) is Some,
{
    let ids = open_ids(u.orders@, trigger_only);
    if ids.len() > 0 {
        open_ids_name_orders(u.orders@, trigger_only, nth as int % ids.len() as int);
    }
    assert forall|i: int|
        0 <= i < u.orders@.len() && pickable(#[trigger] u.orders@[i], trigger_only) implies picked(
        Some(u),
        nth,
        trigger_only,
    ) is Some by {
        orders_are_listed(u.orders@, trigger_only, i);
    }
}

/// Picks an order that can be named.
pub fn pick_order_id_filtered(user: &Option<User>, nth: usize, trigger_only: bool) -> (r: Option<u32>)
    ensures
        r == picked(*user, nth, trigger_only),
{
    match user {
        Some(u) => {
            let orders = &u.orders;
            let mut ids: Vec<u32> = Vec::new();
            let mut i: usize = 0;
            assert(orders@.take(0) =~= Seq::empty());
            while i < orders.len()
                invariant
                    i <= orders@.len(),
                    ids@ == open_ids(orders@.take(i as int), trigger_only),
                decreases orders@.len() - i,
            {
                let o = orders[i];
                assert(orders@.take(i + 1).drop_last() =~= orders@.take(i as int));
                assert(orders@.take(i + 1).last() == o);
                let trigger = match o.order_type {
                    OrderType::TriggerLimit => true,
                    OrderType::TriggerMarket => true,
                    _ => false,
                };
                if o.status == OrderStatus::Open && (!trigger_only || trigger) {
                    ids.push(o.order_id);
                }
                i = i + 1;
            }
            assert(orders@.take(i as int) =~= orders@);
            if ids.len() == 0 {
                None
            } else {
                Some(ids[nth % ids.len()])
            }
        },
        None => None,
    }
}

/// Picks an open order.
pub fn pick_order_id(user: &Option<User>, nth: usize) -> (r: Option<u32>)
    ensures
        r == picked(*user, nth, false),
{
    pick_order_id_filtered(user, nth, false)
}

// ---------------------------------------------------------------------------
// Cancelling and amending orders
// ---------------------------------------------------------------------------

/// `n` consecutive order ids, four bytes each; they stop at the largest id.
pub open spec fn id_list(first: u32, n: nat) -> Seq<u8>
    decreases n,
{
    if n == 0 {
        Seq::empty()
    } else {
        let id = first + (n - 1);
        id_list(first, (n - 1) as nat) + le(
            if id > u32::MAX {
                u32::MAX as int
            } else {
                id
            },
            4,
        )
    }
}

/// A value, where its choice is one.
pub open spec fn chosen<T>(with: u8, value: T) -> Option<T> {
    if with == 1 {
        Some(value)
    } else {
        None
    }
}

fn choice<T>(with: u8, value: T) -> (r: Option<T>)
    ensures
        r == chosen(with, value),
{
    if with == 1 {
        Some(value)
    } else {
        None
    }
}

/// A choice of zero or one, clipped.
pub open spec fn clip(choice: u8) -> u8 {
    if choice > 1 {
        1
    } else {
        choice
    }
}

fn clipped(choice: u8) -> (r: u8)
    ensures
        r == clip(choice),
{
    if choice > 1 {
        1
    } else {
        choice
    }
}

impl Fixture {
    /// Cancels one order: the picked one where that is asked for and there is
    /// one, the given id otherwise.
    pub fn action_cancel_order(
        &self,
        user_idx: usize,
        picked_id: Option<u32>,
        use_real_id: u8,
        blind_id: u32,
    ) -> (r: Transaction)
        requires
            self.wf(),
            user_idx < NUM_USERS,
        ensures
            r@ == self.order_call(
                self.users@[user_idx as int],
                D_CANCEL_ORDER@,
                opt(
                    true,
                    le(
                        if use_real_id == 1 && picked_id is Some {
                            picked_id->0 as int
                        } else {
                            blind_id as int
                        },
                        4,
                    ),
                ),
            ),
    {
        let order_id: u32 = match picked_id {
            Some(id) => if use_real_id == 1 {
                id
            } else {
                blind_id
            },
            None => blind_id,
        };
        let mut args: Vec<u8> = Vec::new();
        push_opt(&mut args, true, &u32_bytes(order_id));
        assert(args@ =~= opt(true, le(order_id as int, 4)));
        self.send_order_ix(user_idx, D_CANCEL_ORDER, args)
    }

    /// Cancels every order that passes three filters, each of which may be
    /// absent.
    pub fn action_cancel_orders(
        &self,
        user_idx: usize,
        with_market_type: u8,
        market_type: u8,
        with_market_index: u8,
        market_index: u16,
        with_direction: u8,
        direction: u8,
    ) -> (r: Transaction)
        requires
            self.wf(),
            user_idx < NUM_USERS,
        ensures
            r@ == self.order_call(
                self.users@[user_idx as int],
                D_CANCEL_ORDERS@,
                opt(with_market_type == 1, seq![clip(market_type)]) + opt(
                    with_market_index == 1,
                    le(market_index as int, 2),
                ) + opt(with_direction == 1, seq![clip(direction)]),
            ),
    {
        let mut args: Vec<u8> = Vec::new();
        push_opt_u8(&mut args, with_market_type == 1, clipped(market_type));
        assert(args@ =~= opt(with_market_type == 1, seq![clip(market_type)]));
        push_opt(&mut args, with_market_index == 1, &u16_bytes(market_index));
        push_opt_u8(&mut args, with_direction == 1, clipped(direction));
        self.send_order_ix(user_idx, D_CANCEL_ORDERS, args)
    }

    /// Cancels a run of order ids.
    pub fn action_cancel_orders_by_ids(&self, user_idx: usize, n: u32, first_id: u32) -> (r:
        Transaction)
        requires
            self.wf(),
            user_idx < NUM_USERS,
        ensures
            r@ == self.order_call(
                self.users@[user_idx as int],
                D_CANCEL_ORDERS_BY_IDS@,
                le(n as int, 4) + id_list(first_id, n as nat),
            ),
    {
        let mut args = u32_bytes(n);
        let ghost head = args@;
        let mut k: u32 = 0;
        assert(head + id_list(first_id, 0) =~= head);
        while k < n
            invariant
                k <= n,
                args@ == head + id_list(first_id, k as nat),
            decreases n - k,
        {
            let ghost before = args@;
            let id: u32 = first_id.saturating_add(k);
            push_u32(&mut args, id);
            assert(head + id_list(first_id, k as nat) + le(id as int, 4) =~= head + (id_list(
                first_id,
                k as nat,
            ) + le(id as int, 4)));
            k = k + 1;
        }
        self.send_order_ix(user_idx, D_CANCEL_ORDERS_BY_IDS, args)
    }

    /// Cancels the order that the user numbered so.
    pub fn action_cancel_order_by_user_id(&self, user_idx: usize, user_order_id: u8) -> (r:
        Transaction)
        requires
            self.wf(),
            user_idx < NUM_USERS,
        ensures
            r@ == self.order_call(
                self.users@[user_idx as int],
                D_CANCEL_ORDER_BY_USER_ID@,
                seq![user_order_id],
            ),
    {
        let args: Vec<u8> = vec![user_order_id];
        assert(args@ =~= seq![user_order_id]);
        self.send_order_ix(user_idx, D_CANCEL_ORDER_BY_USER_ID, args)
    }

    /// Amends an order, named by its id or left to the exchange. Each field is
    /// amended only where its choice is one.
    pub fn action_modify_order(
        &self,
        user_idx: usize,
        with_order_id: u8,
        order_id: u32,
        with_direction: u8,
        direction: u8,
        with_base: u8,
        base: u64,
        with_price: u8,
        price: u64,
        with_reduce_only: u8,
        reduce_only: u8,
        with_policy: u8,
        policy: u8,
    ) -> (r: Transaction)
        requires
            self.wf(),
            user_idx < NUM_USERS,
        ensures
            r@ == self.order_call(
                self.users@[user_idx as int],
                D_MODIFY_ORDER@,
                opt(with_order_id == 1, le(order_id as int, 4)) + modify_params_wire(
                    (ModifyParams {
                        direction: chosen(with_direction, clip(direction)),
                        base_asset_amount: chosen(with_base, base),
                        price: chosen(with_price, price),
                        reduce_only: chosen(with_reduce_only, reduce_only == 1),
                        policy: chosen(with_policy, clip(policy)),
                    }),
                ),
            ),
    {
        let mut args: Vec<u8> = Vec::new();
        push_opt(&mut args, with_order_id == 1, &u32_bytes(order_id));
        assert(args@ =~= opt(with_order_id == 1, le(order_id as int, 4)));
        let params = modify_params_bytes(
            ModifyParams {
                direction: choice(with_direction, clipped(direction)),
                base_asset_amount: choice(with_base, base),
                price: choice(with_price, price),
                reduce_only: choice(with_reduce_only, reduce_only == 1),
                policy: choice(with_policy, clipped(policy)),
            },
        );
        push_bytes(&mut args, params.as_slice());
        self.send_order_ix(user_idx, D_MODIFY_ORDER, args)
    }

    /// Amends the price or size of the order that the user numbered so.
    pub fn action_modify_order_by_user_id(
        &self,
        user_idx: usize,
        user_order_id: u8,
        with_price: u8,
        price: u64,
        with_base: u8,
        base: u64,
    ) -> (r: Transaction)
        requires
            self.wf(),
            user_idx < NUM_USERS,
        ensures
            r@ == self.order_call(
                self.users@[user_idx as int],
                D_MODIFY_ORDER_BY_USER_ID@,
                seq![user_order_id] + modify_params_wire(
                    (ModifyParams {
                        direction: None,
                        base_asset_amount: chosen(with_base, base),
                        price: chosen(with_price, price),
                        reduce_only: None,
                        policy: None,
                    }),
                ),
            ),
    {
        let mut args: Vec<u8> = vec![user_order_id];
        assert(args@ =~= seq![user_order_id]);
        let params = modify_params_bytes(
            ModifyParams {
                direction: None,
                base_asset_amount: choice(with_base, base),
                price: choice(with_price, price),
                reduce_only: None,
                policy: None,
            },
        );
        push_bytes(&mut args, params.as_slice());
        self.send_order_ix(user_idx, D_MODIFY_ORDER_BY_USER_ID, args)
    }
}

// ---------------------------------------------------------------------------
// Fills
// ---------------------------------------------------------------------------

/// The aggressive order of an immediate take: through the mark by a fifth.
pub open spec fn take_order(dir: u8, base: u64) -> OrderParams {
    OrderParams::perp(
        OrderType::Limit,
        direction_of(dir),
        base,
        if dir == 0 {
            1_200_000
        } else {
            800_000
        },
    )
}

/// The maker's order: at the mark, post-only and immediate-or-cancel.
pub open spec fn make_order(dir: u8, base: u64) -> OrderParams {
    OrderParams {
        post_only: PostOnlyParam::MustPostOnly,
        immediate_or_cancel: true,
        ..OrderParams::perp(OrderType::Limit, direction_of(dir), base, 1_000_000)
    }
}

/// A taker's order that can be made against.
#[derive(Clone, Copy, PartialEq, Eq, Debug)]
pub struct TakerOrder {
    pub taker_idx: usize,
    pub order_id: u32,
}

/// The first of the other users, going round from the maker, that has an order
/// to make against. `ids` holds each user's pick.
pub open spec fn find_taker(maker_idx: int, ids: Seq<Option<u32>>, k: nat) -> Option<TakerOrder>
    decreases NUM_USERS - k,
{
    if k >= NUM_USERS {
        None
    } else {
        let i = (maker_idx + 1 + k) % NUM_USERS as int;
        if i != maker_idx && ids[i] is Some {
            Some(TakerOrder { taker_idx: i as usize, order_id: ids[i]->0 })
        } else {
            find_taker(maker_idx, ids, k + 1)
        }
    }
}

/// A maker meets the pick of another user wherever another user has one, and never
/// its own.
pub proof fn makers_meet_another_user(maker_idx: int, ids: Seq<Option<u32>>)
    requires
        0 <= maker_idx < NUM_USERS,
        ids.len() == NUM_USERS,
    ensures
        find_taker(maker_idx, ids, 0) is Some <==> exists|i: int|
            0 <= i < NUM_USERS && i != maker_idx && #[trigger] ids[i] is Some,
        find_taker(maker_idx, ids, 0) matches Some(t) ==> t.taker_idx < NUM_USERS && t.taker_idx
            != maker_idx && ids[t.taker_idx as int] == Some(t.order_id),
{
    reveal_with_fuel(find_taker, 3);
    let other = (maker_idx + 1) % NUM_USERS as int;
    assert(other != maker_idx);
    if ids[other] is Some {
        assert(find_taker(maker_idx, ids, 0) is Some);
    }
}

/// Finds a counterparty for a maker.
pub fn pick_taker(maker_idx: usize, ids: &Vec<Option<u32>>) -> (r: Option<TakerOrder>)
    requires
        maker_idx < NUM_USERS,
        ids@.len() == NUM_USERS,
    ensures
        r == find_taker(maker_idx as int, ids@, 0),
        r matches Some(t) ==> t.taker_idx < NUM_USERS && t.taker_idx != maker_idx,
{
    let mut k: usize = 0;
    while k < NUM_USERS
        invariant
            maker_idx < NUM_USERS,
            ids@.len() == NUM_USERS,
            k <= NUM_USERS,
            find_taker(maker_idx as int, ids@, 0) == find_taker(maker_idx as int, ids@, k as nat),
        decreases NUM_USERS - k,
    {
        let i: usize = (maker_idx + 1 + k) % NUM_USERS;
        if i != maker_idx {
            if let Some(order_id) = ids[i] {
                return Some(TakerOrder { taker_idx: i, order_id });
            }
        }
        k = k + 1;
    }
    None
}

impl Fixture {
    /// Fills a taker's order by the next user, naming the picked order where
    /// asked; the maker, where there is one, trails the account list.
    pub fn action_fill_perp_order(
        &self,
        taker_idx: usize,
        filler_idx: usize,
        with_order_id: u8,
        order_id: Option<u32>,
        with_maker: u8,
    ) -> (r: Transaction)
        requires
            self.wf(),
            taker_idx < NUM_USERS,
            filler_idx < NUM_USERS,
        ensures
            ({
                let taker = self.users@[taker_idx as int];
                let filler = self.users@[next_user(filler_idx as int)];
                let maker = self.users@[next_user(taker_idx as int)];
                r@ == call(
                    self.program_id,
                    seq![
                        AccountMeta::new_readonly(self.state_pda, false),
                        AccountMeta::new_readonly(filler.authority(), true),
                        AccountMeta::new(filler.user_pda, false),
                        AccountMeta::new(filler.stats_pda, false),
                        AccountMeta::new(taker.user_pda, false),
                        AccountMeta::new(taker.stats_pda, false),
                    ] + self.markets(false) + maker_accounts(maker, with_maker == 1),
                    D_FILL_PERP_ORDER@ + (opt(
                        with_order_id == 1 && order_id is Some,
                        le(order_id->0 as int, 4),
                    ) + seq![0u8]),
                    filler.authority(),
                )
            }),
    {
        let taker = self.users[taker_idx];
        let filler = self.users[next_user_index(filler_idx)];
        let maker = self.users[next_user_index(taker_idx)];
        let mut args: Vec<u8> = Vec::new();
        match order_id {
            Some(id) => push_opt(&mut args, with_order_id == 1, &u32_bytes(id)),
            None => push_u8(&mut args, 0),
        }
        assert(args@ =~= opt(with_order_id == 1 && order_id is Some, le(order_id->0 as int, 4)));
        push_u8(&mut args, 0);
        let accounts = join(
            vec![
                AccountMeta::new_readonly(self.state_pda, false),
                AccountMeta::new_readonly(filler.keypair.pubkey(), true),
                AccountMeta::new(filler.user_pda, false),
                AccountMeta::new(filler.stats_pda, false),
                AccountMeta::new(taker.user_pda, false),
                AccountMeta::new(taker.stats_pda, false),
            ],
            self.market_ras(false),
        );
        let accounts = join(accounts, maker_accounts_of(&maker, with_maker == 1));
        self.submit(accounts, D_FILL_PERP_ORDER, &args, filler.keypair.pubkey())
    }

    /// The order of [`Fixture::send_place_and_take`].
    pub fn action_place_and_take_perp_order(&self, dir: u8, base: u64) -> (r: OrderParams)
        ensures
            r == take_order(dir, base),
    {
        let price: u64 = if dir == 0 {
            1_200_000
        } else {
            800_000
        };
        OrderParams::perp(OrderType::Limit, direction_of(dir), base, price)
    }

    /// Places an order and takes against it at once, under a success condition
    /// where asked.
    pub fn send_place_and_take(
        &self,
        user_idx: usize,
        order_wire: Vec<u8>,
        with_success_condition: u8,
        success_condition: u8,
    ) -> (r: Transaction)
        requires
            self.wf(),
            user_idx < NUM_USERS,
        ensures
            ({
                let user = self.users@[user_idx as int];
                r@ == call(
                    self.program_id,
                    seq![
                        AccountMeta::new_readonly(self.state_pda, false),
                        AccountMeta::new(user.user_pda, false),
                        AccountMeta::new(user.stats_pda, false),
                        AccountMeta::new_readonly(user.authority(), true),
                    ] + self.markets(false),
                    D_PLACE_AND_TAKE_PERP_ORDER@ + (order_wire@ + opt(
                        with_success_condition == 1,
                        seq![success_condition],
                    )),
                    user.authority(),
                )
            }),
    {
        let user = self.users[user_idx];
        let mut args = order_wire;
        push_opt_u8(&mut args, with_success_condition == 1, success_condition);
        let accounts = join(
            vec![
                AccountMeta::new_readonly(self.state_pda, false),
                AccountMeta::new(user.user_pda, false),
                AccountMeta::new(user.stats_pda, false),
                AccountMeta::new_readonly(user.keypair.pubkey(), true),
            ],
            self.market_ras(false),
        );
        self.submit(accounts, D_PLACE_AND_TAKE_PERP_ORDER, &args, user.keypair.pubkey())
    }

    /// The order that a maker places, and whom it is made against; `None` where
    /// no other user has an open order. `ids` holds each user's pick.
    pub fn action_place_and_make_perp_order(
        &self,
        maker_idx: usize,
        dir: u8,
        base: u64,
        ids: &Vec<Option<u32>>,
    ) -> (r: Option<(OrderParams, TakerOrder)>)
        requires
            maker_idx < NUM_USERS,
            ids@.len() == NUM_USERS,
        ensures
            r is Some <==> find_taker(maker_idx as int, ids@, 0) is Some,
            r matches Some((order, taker)) ==> order == make_order(dir, base) && Some(taker)
                == find_taker(maker_idx as int, ids@, 0) && taker.taker_idx < NUM_USERS,
    {
        let taker = pick_taker(maker_idx, ids)?;
        let order = OrderParams {
            post_only: PostOnlyParam::MustPostOnly,
            immediate_or_cancel: true,
            ..OrderParams::perp(OrderType::Limit, direction_of(dir), base, 1_000_000)
        };
        Some((order, taker))
    }

    /// Places the maker's order against the taker's.
    pub fn send_place_and_make(
        &self,
        maker_idx: usize,
        taker: TakerOrder,
        order_wire: Vec<u8>,
    ) -> (r: Transaction)
        requires
            self.wf(),
            maker_idx < NUM_USERS,
            taker.taker_idx < NUM_USERS,
        ensures
            ({
                let m = self.users@[maker_idx as int];
                let t = self.users@[taker.taker_idx as int];
                r@ == call(
                    self.program_id,
                    seq![
                        AccountMeta::new_readonly(self.state_pda, false),
                        AccountMeta::new(m.user_pda, false),
                        AccountMeta::new(m.stats_pda, false),
                        AccountMeta::new(t.user_pda, false),
                        AccountMeta::new(t.stats_pda, false),
                        AccountMeta::new_readonly(m.authority(), true),
                    ] + self.markets(false),
                    D_PLACE_AND_MAKE_PERP_ORDER@ + (order_wire@ + le(taker.order_id as int, 4)),
                    m.authority(),
                )
            }),
    {
        let m = self.users[maker_idx];
        let t = self.users[taker.taker_idx];
        let mut args = order_wire;
        push_u32(&mut args, taker.order_id);
        let accounts = join(
            vec![
                AccountMeta::new_readonly(self.state_pda, false),
                AccountMeta::new(m.user_pda, false),
                AccountMeta::new(m.stats_pda, false),
                AccountMeta::new(t.user_pda, false),
                AccountMeta::new(t.stats_pda, false),
                AccountMeta::new_readonly(m.keypair.pubkey(), true),
            ],
            self.market_ras(false),
        );
        self.submit(accounts, D_PLACE_AND_MAKE_PERP_ORDER, &args, m.keypair.pubkey())
    }

    /// A trigger order whose condition already holds at the oracle's price, which
    /// is strictly above the trigger; to be placed where the user has no trigger
    /// order. `None` where no price lies below the oracle's.
    pub fn trigger_order_to_place(&self, oracle_price: Option<i64>) -> (r: Option<OrderParams>)
        ensures
            r is Some <==> (oracle_price matches Some(p) && p > 1),
            r matches Some(order) ==> order == (OrderParams {
                trigger_price: Some(trigger_below(oracle_price->0)),
                trigger_condition: TriggerCondition::Above,
                ..OrderParams::perp(
                    OrderType::TriggerMarket,
                    PositionDirection::Long,
                    10_000_000,
                    0,
                )
            }),
            r matches Some(order) ==> 1 <= order.trigger_price->0 < oracle_price->0,
    {
        let price: i64 = oracle_price?;
        if price <= 1 {
            return None;
        }
        let price: u64 = price as u64;
        let percent: u64 = price / 100;
        let trigger: u64 = if percent == 0 {
            price - 1
        } else {
            price - percent
        };
        Some(
            OrderParams {
                trigger_price: Some(trigger),
                trigger_condition: TriggerCondition::Above,
                ..OrderParams::perp(
                    OrderType::TriggerMarket,
                    PositionDirection::Long,
                    10_000_000,
                    0,
                )
            },
        )
    }

    /// Triggers the picked trigger order; `None` where there is none.
    pub fn action_trigger_order(
        &self,
        user_idx: usize,
        filler_idx: usize,
        picked_id: Option<u32>,
    ) -> (r: Option<Transaction>)
        requires
            self.wf(),
            user_idx < NUM_USERS,
            filler_idx < NUM_USERS,
        ensures
            r is Some <==> picked_id is Some,
            r matches Some(t) ==> ({
                let user = self.users@[user_idx as int];
                let filler = self.users@[next_user(filler_idx as int)];
                t@ == call(
                    self.program_id,
                    seq![
                        AccountMeta::new_readonly(self.state_pda, false),
                        AccountMeta::new_readonly(filler.authority(), true),
                        AccountMeta::new(filler.user_pda, false),
                        AccountMeta::new(user.user_pda, false),
                        AccountMeta::new_readonly(user.stats_pda, false),
                    ] + self.markets(false),
                    D_TRIGGER_ORDER@ + le(picked_id->0 as int, 4),
                    filler.authority(),
                )
            }),
    {
        let order_id: u32 = picked_id?;
        let user = self.users[user_idx];
        let filler = self.users[next_user_index(filler_idx)];
        let accounts = join(
            vec![
                AccountMeta::new_readonly(self.state_pda, false),
                AccountMeta::new_readonly(filler.keypair.pubkey(), true),
                AccountMeta::new(filler.user_pda, false),
                AccountMeta::new(user.user_pda, false),
                AccountMeta::new_readonly(user.stats_pda, false),
            ],
            self.market_ras(false),
        );
        Some(self.submit(accounts, D_TRIGGER_ORDER, &u32_bytes(order_id), filler.keypair.pubkey()))
    }

    /// Takes a filler's reward back.
    pub fn action_revert_fill(&self, filler_idx: usize) -> (r: Transaction)
        requires
            self.wf(),
            filler_idx < NUM_USERS,
        ensures
            ({
                let filler = self.users@[filler_idx as int];
                r@ == call(
                    self.program_id,
                    seq![
                        AccountMeta::new_readonly(self.state_pda, false),
                        AccountMeta::new_readonly(filler.authority(), true),
                        AccountMeta::new(filler.user_pda, false),
                        AccountMeta::new(filler.stats_pda, false),
                    ],
                    D_REVERT_FILL@,
                    filler.authority(),
                )
            }),
    {
        let filler = self.users[filler_idx];
        self.submit_bare(
            vec![
                AccountMeta::new_readonly(self.state_pda, false),
                AccountMeta::new_readonly(filler.keypair.pubkey(), true),
                AccountMeta::new(filler.user_pda, false),
                AccountMeta::new(filler.stats_pda, false),
            ],
            D_REVERT_FILL,
            filler.keypair.pubkey(),
        )
    }
}

/// A trigger price one percent below the oracle's, or one unit where a percent is
/// less than that.
pub open spec fn trigger_below(oracle_price: i64) -> u64 {
    let percent = oracle_price as int / 100;
    if percent == 0 {
        (oracle_price - 1) as u64
    } else {
        (oracle_price - percent) as u64
    }
}

/// A freshly placed trigger order is ready to fire: every price above one is
/// strictly above its trigger, which is a price itself.
pub proof fn placed_trigger_is_met(oracle_price: i64)
    requires
        oracle_price > 1,
    ensures
        1 <= trigger_below(oracle_price) < oracle_price,
{
}

/// The accounts of a maker, where there is one.
pub open spec fn maker_accounts(maker: UserAcct, present: bool) -> Seq<AccountMeta> {
    if present {
        seq![AccountMeta::new(maker.user_pda, false), AccountMeta::new(maker.stats_pda, false)]
    } else {
        Seq::empty()
    }
}

fn maker_accounts_of(maker: &UserAcct, present: bool) -> (r: Vec<AccountMeta>)
    ensures
        r@ == maker_accounts(*maker, present),
{
    if present {
        vec![AccountMeta::new(maker.user_pda, false), AccountMeta::new(maker.stats_pda, false)]
    } else {
        Vec::new()
    }
}

// ---------------------------------------------------------------------------
// Settlement and funding
// ---------------------------------------------------------------------------

/// A signed number cut to the range of a machine word.
pub open spec fn saturated(v: int) -> int {
    if v > i64::MAX {
        i64::MAX as int
    } else if v < i64::MIN {
        i64::MIN as int
    } else {
        v
    }
}

/// The funding crank of perp market 0 must work once two periods have passed
/// on an active market with a fresh oracle. One period is not enough: updates
/// keep to period boundaries.
pub open spec fn funding_update_due(
    market_index: u16,
    active: bool,
    funding_period: i64,
    last_funding_rate_ts: i64,
    now: i64,
    oracle_fresh: bool,
) -> bool {
    &&& market_index == 0
    &&& active
    &&& funding_period > 0
    &&& saturated(now - last_funding_rate_ts) >= saturated(2 * funding_period)
    &&& oracle_fresh
}

/// Where the funding crank must work, a period boundary has passed that lies a
/// whole period after the last update. Twice the period has to fit in a word.
pub proof fn due_funding_has_passed_a_boundary(
    market_index: u16,
    active: bool,
    funding_period: i64,
    last_funding_rate_ts: i64,
    now: i64,
    oracle_fresh: bool,
)
    requires
        2 * funding_period <= i64::MAX,
        funding_update_due(
            market_index,
            active,
            funding_period,
            last_funding_rate_ts,
            now,
            oracle_fresh,
        ),
    ensures
        exists|k: int|
            last_funding_rate_ts + funding_period <= #[trigger] (k * funding_period) <= now,
{
    let p = funding_period as int;
    let k = now as int / p;
    assert(now - p < k * p <= now) by (nonlinear_arith)
        requires
            p > 0,
            k == now as int / p,
    ;
    assert(last_funding_rate_ts + funding_period <= k * funding_period <= now);
}

/// What the funding cranks look at in the perp market.
#[derive(Clone, Copy, PartialEq, Eq, Debug)]
pub struct FundingState {
    pub active: bool,
    pub funding_period: i64,
    pub last_funding_rate_ts: i64,
}

fn clamp_i64(v: i128) -> (r: i128)
    ensures
        r == saturated(v as int),
{
    if v > i64::MAX as i128 {
        i64::MAX as i128
    } else if v < i64::MIN as i128 {
        i64::MIN as i128
    } else {
        v
    }
}

/// Whether the funding crank must work now.
pub fn funding_update_must_work(
    market_index: u16,
    perp: Option<FundingState>,
    now: i64,
    oracle_fresh: bool,
) -> (r: bool)
    ensures
        r == (perp matches Some(m) && funding_update_due(
            market_index,
            m.active,
            m.funding_period,
            m.last_funding_rate_ts,
            now,
            oracle_fresh,
        )),
{
    match perp {
        Some(m) => {
            let elapsed: i128 = clamp_i64(now as i128 - m.last_funding_rate_ts as i128);
            let two: i128 = clamp_i64(2 * m.funding_period as i128);
            market_index == 0 && m.active && m.funding_period > 0 && elapsed >= two && oracle_fresh
        },
        None => false,
    }
}

/// Settling funding must work for a live user of an active market with fresh
/// oracles: where nothing is owed it does nothing.
pub fn funding_settlement_must_work(
    user_live: bool,
    perp_oracle_fresh: bool,
    spot_oracle_fresh: bool,
    perp: Option<FundingState>,
) -> (r: bool)
    ensures
        r == (user_live && perp_oracle_fresh && spot_oracle_fresh && (perp matches Some(m)
            && m.active)),
{
    user_live && perp_oracle_fresh && spot_oracle_fresh && match perp {
        Some(m) => m.active,
        None => false,
    }
}

/// A user account is live while the exchange owns it and it has its full size.
pub fn user_is_live(owned_by_program: Option<bool>, data_len: usize, user_size: usize) -> (r: bool)
    requires
        user_size <= usize::MAX - 8,
    ensures
        r == (owned_by_program == Some(true) && data_len >= 8 + user_size),
{
    match owned_by_program {
        Some(owned) => owned && data_len >= 8 + user_size,
        None => false,
    }
}

impl Fixture {
    /// The accounts of a settlement of a user's profit and loss.
    pub open spec fn settle_accounts(self, user: UserAcct) -> Seq<AccountMeta> {
        seq![
            AccountMeta::new_readonly(self.state_pda, false),
            AccountMeta::new(user.user_pda, false),
            AccountMeta::new_readonly(user.authority(), true),
            AccountMeta::new_readonly(self.spot_vault_pda, false),
        ] + self.markets(true)
    }

    fn settle_accounts_of(&self, user: &UserAcct) -> (r: Vec<AccountMeta>)
        ensures
            r@ == self.settle_accounts(*user),
    {
        join(
            vec![
                AccountMeta::new_readonly(self.state_pda, false),
                AccountMeta::new(user.user_pda, false),
                AccountMeta::new_readonly(user.keypair.pubkey(), true),
                AccountMeta::new_readonly(self.spot_vault_pda, false),
            ],
            self.market_ras(true),
        )
    }

    /// Settles a user's profit and loss in the perp market.
    pub fn action_settle_pnl(&self, user_idx: usize) -> (r: Transaction)
        requires
            self.wf(),
            user_idx < NUM_USERS,
        ensures
            ({
                let user = self.users@[user_idx as int];
                r@ == call(
                    self.program_id,
                    self.settle_accounts(user),
                    D_SETTLE_PNL@ + le(0, 2),
                    user.authority(),
                )
            }),
    {
        let user = self.users[user_idx];
        self.submit(
            self.settle_accounts_of(&user),
            D_SETTLE_PNL,
            &u16_bytes(0),
            user.keypair.pubkey(),
        )
    }

    /// Settles a user's profit and loss in the first `n` markets.
    pub fn action_settle_multiple_pnls(&self, user_idx: usize, n: u32, mode: u8) -> (r: Transaction)
        requires
            self.wf(),
            user_idx < NUM_USERS,
        ensures
            ({
                let user = self.users@[user_idx as int];
                r@ == call(
                    self.program_id,
                    self.settle_accounts(user),
                    D_SETTLE_MULTIPLE_PNLS@ + (le(n as int, 4) + index_list(n as nat) + seq![
                        clip(mode),
                    ]),
                    user.authority(),
                )
            }),
    {
        let user = self.users[user_idx];
        let mut args = u32_bytes(n);
        push_index_list(&mut args, n);
        push_u8(&mut args, clipped(mode));
        self.submit(
            self.settle_accounts_of(&user),
            D_SETTLE_MULTIPLE_PNLS,
            &args,
            user.keypair.pubkey(),
        )
    }

    /// Settles a user's funding. Anyone may; the crank pays.
    pub fn action_settle_funding_payment(&self, user_idx: usize) -> (r: Transaction)
        requires
            self.wf(),
            user_idx < NUM_USERS,
        ensures
            r@ == call(
                self.program_id,
                seq![
                    AccountMeta::new_readonly(self.state_pda, false),
                    AccountMeta::new(self.users@[user_idx as int].user_pda, false),
                ] + self.markets(false),
                D_SETTLE_FUNDING_PAYMENT@,
                addr(self.crank),
            ),
    {
        let user = self.users[user_idx];
        let accounts = join(
            vec![
                AccountMeta::new_readonly(self.state_pda, false),
                AccountMeta::new(user.user_pda, false),
            ],
            self.market_ras(false),
        );
        self.submit_bare(accounts, D_SETTLE_FUNDING_PAYMENT, self.crank.pubkey())
    }

    /// Updates a market's funding rate.
    pub fn action_update_funding_rate(&self, market_index: u16) -> (r: Transaction)
        ensures
            r@ == call(
                self.program_id,
                seq![
                    AccountMeta::new_readonly(self.state_pda, false),
                    AccountMeta::new(self.perp_market_pda, false),
                    AccountMeta::new_readonly(self.perp_oracle_pda, false),
                ],
                D_UPDATE_FUNDING_RATE@ + le(market_index as int, 2),
                addr(self.crank),
            ),
    {
        self.submit(
            vec![
                AccountMeta::new_readonly(self.state_pda, false),
                AccountMeta::new(self.perp_market_pda, false),
                AccountMeta::new_readonly(self.perp_oracle_pda, false),
            ],
            D_UPDATE_FUNDING_RATE,
            &u16_bytes(market_index),
            self.crank.pubkey(),
        )
    }

    /// Feeds the market's bid and ask averages, signed by a keeper.
    pub fn action_update_perp_bid_ask_twap(&self, keeper_idx: usize) -> (r: Transaction)
        requires
            self.wf(),
            keeper_idx < NUM_USERS,
        ensures
            ({
                let keeper = self.users@[keeper_idx as int];
                r@ == call(
                    self.program_id,
                    seq![
                        AccountMeta::new_readonly(self.state_pda, false),
                        AccountMeta::new(self.perp_market_pda, false),
                        AccountMeta::new_readonly(self.perp_oracle_pda, false),
                        AccountMeta::new_readonly(keeper.stats_pda, false),
                        AccountMeta::new_readonly(keeper.authority(), true),
                    ],
                    D_UPDATE_PERP_BID_ASK_TWAP@,
                    keeper.authority(),
                )
            }),
    {
        let keeper = self.users[keeper_idx];
        self.submit_bare(
            vec![
                AccountMeta::new_readonly(self.state_pda, false),
                AccountMeta::new(self.perp_market_pda, false),
                AccountMeta::new_readonly(self.perp_oracle_pda, false),
                AccountMeta::new_readonly(keeper.stats_pda, false),
                AccountMeta::new_readonly(keeper.keypair.pubkey(), true),
            ],
            D_UPDATE_PERP_BID_ASK_TWAP,
            keeper.keypair.pubkey(),
        )
    }

    /// Refreshes the curves of the first `n` markets.
    pub fn action_update_amms(&self, keeper_idx: usize, n: u32) -> (r: Transaction)
        requires
            self.wf(),
            keeper_idx < NUM_USERS,
        ensures
            ({
                let keeper = self.users@[keeper_idx as int];
                r@ == call(
                    self.program_id,
                    seq![
                        AccountMeta::new_readonly(self.state_pda, false),
                        AccountMeta::new_readonly(keeper.authority(), true),
                    ] + self.markets(false),
                    D_UPDATE_AMMS@ + (le(n as int, 4) + index_list(n as nat)),
                    keeper.authority(),
                )
            }),
    {
        let keeper = self.users[keeper_idx];
        let mut args = u32_bytes(n);
        push_index_list(&mut args, n);
        let accounts = join(
            vec![
                AccountMeta::new_readonly(self.state_pda, false),
                AccountMeta::new_readonly(keeper.keypair.pubkey(), true),
            ],
            self.market_ras(false),
        );
        self.submit(accounts, D_UPDATE_AMMS, &args, keeper.keypair.pubkey())
    }
}

} // verus!
