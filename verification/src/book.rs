//! Orders that rest on the market's book, and the routes of those that take.

use vstd::prelude::*;
use crate::constants::NUM_USERS;
use crate::fixture::{Fixture, UserAcct};
use crate::keys::{instruction_views, tx, AccountMeta, Instruction, Pubkey, Transaction};
use crate::programs::{compute_budget, compute_budget_ix};
use crate::trading::join;
use crate::wire::{le, le_len, le_round_trip, le_value, pow256, read_le};

verus! {

/// Enough for a take that calls into the book and settles several makers.
pub const ORDER_COMPUTE_UNITS: u32 = 1_400_000;

/// Book orders remembered at once.
pub const MAX_TRACKED_BOOK_ORDERS: usize = 32;

/// The length of the book's answer to a placement.
pub const ANSWER_LEN: usize = 12;

#[derive(Clone, Copy, PartialEq, Eq, Structural, Debug)]
pub enum ClobSide {
    Bid,
    Ask,
}

/// Who an instruction rests a book order for, and on which side.
#[derive(Clone, Copy, PartialEq, Eq, Debug)]
pub struct Placement {
    pub owner_idx: usize,
    pub side: ClobSide,
}

/// Where an order rests on the book.
#[derive(Clone, Copy, PartialEq, Eq, Debug)]
pub struct OrderRef {
    pub node_index: u32,
    pub order_id: u64,
}

/// An order resting on the book, as its placement reported it.
#[derive(Clone, Copy, PartialEq, Eq, Debug)]
pub struct BookOrder {
    pub owner_idx: usize,
    pub order_ref: OrderRef,
    pub side: ClobSide,
}

/// The market's book, and the orders placed on it last, newest last.
#[derive(Clone, Debug)]
pub struct Book {
    pub market_index: u16,
    pub program: Pubkey,
    pub quoter_slab: Pubkey,
    pub market: Pubkey,
    pub orders: Vec<BookOrder>,
}

/// The order that the book's answer names: its node, then its number.
pub open spec fn answered(data: Seq<u8>) -> OrderRef {
    OrderRef {
        node_index: le_value(data.subrange(0, 4)) as u32,
        order_id: le_value(data.subrange(4, 12)) as u64,
    }
}

/// The orders remembered after one more: the oldest gives way past the limit.
pub open spec fn with_newest(orders: Seq<BookOrder>, order: BookOrder) -> Seq<BookOrder> {
    if orders.len() < MAX_TRACKED_BOOK_ORDERS {
        orders.push(order)
    } else {
        orders.push(order).remove(0)
    }
}

impl Book {
    /// No more orders are remembered than the limit.
    pub open spec fn wf(self) -> bool {
        self.orders@.len() <= MAX_TRACKED_BOOK_ORDERS
    }

    /// A transaction's return data is the book's own answer.
    pub open spec fn answers(self, returned_by: Pubkey, data: Seq<u8>) -> bool {
        returned_by == self.program && data.len() == ANSWER_LEN
    }

    /// Remembers the order that a placement left on the book, where its answer
    /// is the book's.
    pub fn remember_book_order(
        &mut self,
        placement: Placement,
        returned_by: Pubkey,
        data: &Vec<u8>,
    )
        requires
            old(self).wf(),
        ensures
            final(self).wf(),
            final(self).orders@ == if old(self).answers(returned_by, data@) {
                with_newest(
                    old(self).orders@,
                    BookOrder {
                        owner_idx: placement.owner_idx,
                        order_ref: answered(data@),
                        side: placement.side,
                    },
                )
            } else {
                old(self).orders@
            },
            *final(self) == (Book { orders: final(self).orders, ..*old(self) }),
    {
        if !returned_by.same(&self.program) || data.len() != ANSWER_LEN {
            return;
        }
        proof {
            reveal_with_fuel(pow256, 9);
        }
        let node_index: u32 = read_le(data, 0, 4) as u32;
        let order_id: u64 = read_le(data, 4, 12) as u64;
        self.orders.push(
            BookOrder {
                owner_idx: placement.owner_idx,
                order_ref: OrderRef { node_index, order_id },
                side: placement.side,
            },
        );
        if self.orders.len() > MAX_TRACKED_BOOK_ORDERS {
            self.orders.remove(0);
        }
    }

    /// A remembered order, counting round; `None` where none is remembered.
    pub fn pick_book_order(&self, nth: usize) -> (r: Option<BookOrder>)
        ensures
            r == if self.orders@.len() == 0 {
                None
            } else {
                Some(self.orders@[nth as int % self.orders@.len() as int])
            },
    {
        if self.orders.len() == 0 {
            None
        } else {
            Some(self.orders[nth % self.orders.len()])
        }
    }
}

/// The book's answer to a placement names the order that was placed.
pub proof fn answers_name_their_order(node_index: u32, order_id: u64)
    ensures
        answered(le(node_index as int, 4) + le(order_id as int, 8)) == (OrderRef {
            node_index,
            order_id,
        }),
        (le(node_index as int, 4) + le(order_id as int, 8)).len() == ANSWER_LEN,
{
    let node = le(node_index as int, 4);
    let number = le(order_id as int, 8);
    le_len(node_index as int, 4);
    le_len(order_id as int, 8);
    assert((node + number).subrange(0, 4) =~= node);
    assert((node + number).subrange(4, 12) =~= number);
    assert(pow256(4) == 0x1_0000_0000 && pow256(8) == 0x1_0000_0000_0000_0000) by {
        reveal_with_fuel(pow256, 9);
    }
    le_round_trip(node_index as int, 4);
    le_round_trip(order_id as int, 8);
}

/// The newest order is always remembered, and the others that stay keep their
/// order.
pub proof fn newest_order_is_remembered(orders: Seq<BookOrder>, order: BookOrder)
    requires
        orders.len() <= MAX_TRACKED_BOOK_ORDERS,
    ensures
        with_newest(orders, order).last() == order,
        with_newest(orders, order).len() <= MAX_TRACKED_BOOK_ORDERS,
        orders.len() < MAX_TRACKED_BOOK_ORDERS ==> with_newest(orders, order).drop_last() == orders,
        orders.len() == MAX_TRACKED_BOOK_ORDERS ==> with_newest(orders, order).drop_last()
            == orders.skip(1),
{
    if orders.len() < MAX_TRACKED_BOOK_ORDERS {
        assert(with_newest(orders, order).drop_last() =~= orders);
    } else {
        assert(with_newest(orders, order).drop_last() =~= orders.skip(1));
    }
}

// ---------------------------------------------------------------------------
// Routes
// ---------------------------------------------------------------------------

/// The first `n` users but the taker, each as the pair that a fill settles
/// against.
pub open spec fn makers(users: Seq<UserAcct>, taker_idx: int, n: int) -> Seq<AccountMeta>
    decreases n,
{
    if n <= 0 {
        Seq::empty()
    } else {
        makers(users, taker_idx, n - 1) + if n - 1 == taker_idx {
            seq![]
        } else {
            seq![
                AccountMeta::new(users[n - 1].user_pda, false),
                AccountMeta::new(users[n - 1].stats_pda, false),
            ]
        }
    }
}

impl Fixture {
    /// Every user but the taker.
    pub fn maker_metas(&self, taker_idx: usize) -> (r: Vec<AccountMeta>)
        requires
            self.wf(),
        ensures
            r@ == makers(self.users@, taker_idx as int, NUM_USERS as int),
    {
        let mut metas: Vec<AccountMeta> = Vec::new();
        let mut idx: usize = 0;
        while idx < NUM_USERS
            invariant
                idx <= NUM_USERS,
                self.wf(),
                metas@ == makers(self.users@, taker_idx as int, idx as int),
            decreases NUM_USERS - idx,
        {
            let ghost before = metas@;
            if idx != taker_idx {
                let maker = self.users[idx];
                metas.push(AccountMeta::new(maker.user_pda, false));
                metas.push(AccountMeta::new(maker.stats_pda, false));
                assert(metas@ =~= before + seq![
                    AccountMeta::new(self.users@[idx as int].user_pda, false),
                    AccountMeta::new(self.users@[idx as int].stats_pda, false),
                ]);
            } else {
                assert(before + Seq::<AccountMeta>::empty() =~= before);
            }
            idx = idx + 1;
        }
        metas
    }

    /// The accounts that follow a routed order's own: the markets, the makers,
    /// then the book's entry.
    pub fn route_remaining_accounts(&self, taker_idx: usize, route: Vec<AccountMeta>) -> (r: Vec<
        AccountMeta,
    >)
        requires
            self.wf(),
        ensures
            r@ == self.markets(true) + makers(self.users@, taker_idx as int, NUM_USERS as int)
                + route@,
    {
        join(join(self.market_ras(true), self.maker_metas(taker_idx)), route)
    }
}

/// A taker never settles against itself, and every other user is carried.
pub proof fn takers_meet_every_other_user(users: Seq<UserAcct>, taker_idx: int, n: int, i: int)
    requires
        0 <= i < n <= users.len(),
        i != taker_idx,
    ensures
        makers(users, taker_idx, n).contains(AccountMeta::new(users[i].user_pda, false)),
        makers(users, taker_idx, n).contains(AccountMeta::new(users[i].stats_pda, false)),
        makers(users, taker_idx, n).len() == 2 * (n - if 0 <= taker_idx < n {
            1int
        } else {
            0
        }),
    decreases n,
{
    makers_len(users, taker_idx, n);
    let rest = makers(users, taker_idx, n - 1);
    let all = makers(users, taker_idx, n);
    if i == n - 1 {
        assert(all[rest.len() as int] == AccountMeta::new(users[i].user_pda, false));
        assert(all[rest.len() as int + 1] == AccountMeta::new(users[i].stats_pda, false));
    } else {
        takers_meet_every_other_user(users, taker_idx, n - 1, i);
        let u = AccountMeta::new(users[i].user_pda, false);
        let s = AccountMeta::new(users[i].stats_pda, false);
        let a = choose|k: int| 0 <= k < rest.len() && rest[k] == u;
        let b = choose|k: int| 0 <= k < rest.len() && rest[k] == s;
        assert(all[a] == u);
        assert(all[b] == s);
    }
}

proof fn makers_len(users: Seq<UserAcct>, taker_idx: int, n: int)
    requires
        0 <= n <= users.len(),
    ensures
        makers(users, taker_idx, n).len() == 2 * (n - if 0 <= taker_idx < n {
            1int
        } else {
            0
        }),
    decreases n,
{
    if n > 0 {
        makers_len(users, taker_idx, n - 1);
    }
}

/// Instructions in one transaction, behind a raised compute limit.
pub fn send_order_ixs(ixs: Vec<Instruction>, signer: Pubkey) -> (r: Transaction)
    ensures
        r@ == tx(
            seq![compute_budget(ORDER_COMPUTE_UNITS)] + instruction_views(ixs@),
            seq![signer],
        ),
{
    let mut all: Vec<Instruction> = vec![compute_budget_ix(ORDER_COMPUTE_UNITS)];
    let ghost limit = all@;
    let mut rest = ixs;
    all.append(&mut rest);
    let r = Transaction { instructions: all, signers: vec![signer] };
    assert(all@ == limit + ixs@);
    assert(instruction_views(all@) =~= seq![compute_budget(ORDER_COMPUTE_UNITS)]
        + instruction_views(ixs@));
    assert(r.signers@ =~= seq![signer]);
    r
}

} // verus!
