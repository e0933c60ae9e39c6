//! Instructions on the market's book.
//!
//! An order that posts rests on the book. Any other takes, and what is left of it
//! may rest. A trigger order waits in its user's account until it is fired. A fill
//! settles only against the makers that the transaction carries, so a take carries
//! every other user.
//!
//! The exchange encodes the named accounts and arguments of a call; which they
//! are, and which accounts follow them, is decided here.

use vstd::prelude::*;
use crate::book::{makers, Book, BookOrder, ClobSide, OrderRef};
use crate::constants::NUM_USERS;
use crate::fixture::Fixture;
use crate::keys::{instructions_sysvar_id, ix, AccountMeta, Instruction, Pubkey};
use crate::params::OrderParams;
use crate::trading::join;

verus! {

/// The book's own accounts.
#[derive(Clone, Copy, PartialEq, Eq, Debug)]
pub struct BookAccounts {
    pub quoter_slab: Pubkey,
    pub clob_market: Pubkey,
    pub clob_program: Pubkey,
}

/// Who places an order, and where.
#[derive(Clone, Copy, PartialEq, Eq, Debug)]
pub struct PlaceAccounts {
    pub state: Pubkey,
    pub user: Pubkey,
    pub user_stats: Pubkey,
    pub authority: Pubkey,
    pub book: BookAccounts,
    pub flow_authority: Option<Pubkey>,
}

/// Who removes another user's order, and from where.
#[derive(Clone, Copy, PartialEq, Eq, Debug)]
pub struct RemovalAccounts {
    pub state: Pubkey,
    pub authority: Pubkey,
    pub filler: Pubkey,
    pub filler_stats: Pubkey,
    pub user: Pubkey,
    pub perp_market: Pubkey,
    pub book: BookAccounts,
    pub crank_conditions: Option<Pubkey>,
}

/// Who fires another user's order.
#[derive(Clone, Copy, PartialEq, Eq, Debug)]
pub struct TriggerAccounts {
    pub state: Pubkey,
    pub authority: Pubkey,
    pub filler: Pubkey,
    pub filler_stats: Pubkey,
    pub user: Pubkey,
    pub user_stats: Pubkey,
    pub book: BookAccounts,
    pub crank_conditions: Option<Pubkey>,
    pub trigger_conditions: Option<Pubkey>,
}

/// A call, with its named accounts and its arguments.
#[derive(Debug)]
pub enum OrderCall {
    PlaceAndTake {
        accounts: PlaceAccounts,
        params: OrderParams,
        success_condition: Option<u8>,
    },
    PlaceAndMake {
        accounts: PlaceAccounts,
        params: OrderParams,
        activation_delay_slots: Option<u32>,
    },
    PlaceTriggerOrders {
        state: Pubkey,
        user: Pubkey,
        authority: Pubkey,
        params: Vec<OrderParams>,
    },
    CancelOrder {
        user: Pubkey,
        authority: Pubkey,
        perp_market: Pubkey,
        book: BookAccounts,
        market_index: u16,
        order_ref: OrderRef,
    },
    /// The sides are given as the book numbers them.
    CancelOrders {
        user: Pubkey,
        authority: Pubkey,
        book: BookAccounts,
        market_index: u16,
        sides: u8,
    },
    ModifyOrder {
        state: Pubkey,
        user: Pubkey,
        authority: Pubkey,
        book: BookAccounts,
        flow_authority: Option<Pubkey>,
        market_index: u16,
        order_ref: OrderRef,
        price: Option<u64>,
        base_asset_amount: Option<u64>,
        max_ts: Option<i64>,
        activation_delay_slots: Option<u32>,
        reject_if_crossed: bool,
    },
    RemoveExpired {
        accounts: RemovalAccounts,
        market_index: u16,
        order_ref: OrderRef,
    },
    Evict {
        accounts: RemovalAccounts,
        market_index: u16,
        side: ClobSide,
    },
    ForceCancel {
        state: Pubkey,
        authority: Pubkey,
        filler: Pubkey,
        filler_stats: Pubkey,
        user: Pubkey,
        book: BookAccounts,
        crank_conditions: Option<Pubkey>,
        market_index: u16,
        order_refs: Vec<OrderRef>,
    },
    TriggerMarket {
        accounts: TriggerAccounts,
        ix_sysvar: Option<Pubkey>,
        market_index: u16,
        order_id: u32,
        signed_route: Vec<u8>,
    },
    TriggerLimit {
        accounts: TriggerAccounts,
        market_index: u16,
        order_id: u32,
    },
}

/// A call and the accounts that follow its own.
#[derive(Debug)]
pub struct OrderIx {
    pub call: OrderCall,
    pub remaining: Vec<AccountMeta>,
}

impl OrderIx {
    /// The instruction, once the exchange has listed the call's own accounts and
    /// encoded its arguments.
    pub fn encoded(self, program_id: Pubkey, own: Vec<AccountMeta>, data: Vec<u8>) -> (r: Instruction)
        ensures
            r@ == ix(program_id, own@ + self.remaining@, data@),
    {
        Instruction::new(program_id, join(own, self.remaining), data)
    }
}

impl Book {
    pub open spec fn named(self) -> BookAccounts {
        BookAccounts {
            quoter_slab: self.quoter_slab,
            clob_market: self.market,
            clob_program: self.program,
        }
    }

    pub fn accounts(&self) -> (r: BookAccounts)
        ensures
            r == self.named(),
    {
        BookAccounts {
            quoter_slab: self.quoter_slab,
            clob_market: self.market,
            clob_program: self.program,
        }
    }
}

impl Fixture {
    pub open spec fn placing(self, b: Book, user_idx: int) -> PlaceAccounts {
        PlaceAccounts {
            state: self.state_pda,
            user: self.users[user_idx].user_pda,
            user_stats: self.users[user_idx].stats_pda,
            authority: self.users[user_idx].authority(),
            book: b.named(),
            flow_authority: None,
        }
    }

    fn place_accounts(&self, b: &Book, user_idx: usize) -> (r: PlaceAccounts)
        requires
            self.wf(),
            user_idx < NUM_USERS,
        ensures
            r == self.placing(*b, user_idx as int),
    {
        let user = self.users[user_idx];
        PlaceAccounts {
            state: self.state_pda,
            user: user.user_pda,
            user_stats: user.stats_pda,
            authority: user.keypair.pubkey(),
            book: b.accounts(),
            flow_authority: None,
        }
    }

    pub open spec fn removing(self, b: Book, filler_idx: int, owner_idx: int) -> RemovalAccounts {
        RemovalAccounts {
            state: self.state_pda,
            authority: self.users[filler_idx].authority(),
            filler: self.users[filler_idx].user_pda,
            filler_stats: self.users[filler_idx].stats_pda,
            user: self.users[owner_idx].user_pda,
            perp_market: self.perp_market_pda,
            book: b.named(),
            crank_conditions: None,
        }
    }

    fn removal_accounts(&self, b: &Book, filler_idx: usize, owner_idx: usize) -> (r: RemovalAccounts)
        requires
            self.wf(),
            filler_idx < NUM_USERS,
            owner_idx < NUM_USERS,
        ensures
            r == self.removing(*b, filler_idx as int, owner_idx as int),
    {
        let filler = self.users[filler_idx];
        RemovalAccounts {
            state: self.state_pda,
            authority: filler.keypair.pubkey(),
            filler: filler.user_pda,
            filler_stats: filler.stats_pda,
            user: self.users[owner_idx].user_pda,
            perp_market: self.perp_market_pda,
            book: b.accounts(),
            crank_conditions: None,
        }
    }

    pub open spec fn firing(self, b: Book, filler_idx: int, user_idx: int) -> TriggerAccounts {
        TriggerAccounts {
            state: self.state_pda,
            authority: self.users[filler_idx].authority(),
            filler: self.users[filler_idx].user_pda,
            filler_stats: self.users[filler_idx].stats_pda,
            user: self.users[user_idx].user_pda,
            user_stats: self.users[user_idx].stats_pda,
            book: b.named(),
            crank_conditions: None,
            trigger_conditions: None,
        }
    }

    fn trigger_accounts(&self, b: &Book, filler_idx: usize, user_idx: usize) -> (r: TriggerAccounts)
        requires
            self.wf(),
            filler_idx < NUM_USERS,
            user_idx < NUM_USERS,
        ensures
            r == self.firing(*b, filler_idx as int, user_idx as int),
    {
        let filler = self.users[filler_idx];
        let user = self.users[user_idx];
        TriggerAccounts {
            state: self.state_pda,
            authority: filler.keypair.pubkey(),
            filler: filler.user_pda,
            filler_stats: filler.stats_pda,
            user: user.user_pda,
            user_stats: user.stats_pda,
            book: b.accounts(),
            crank_conditions: None,
            trigger_conditions: None,
        }
    }

    /// An order that takes at once, with its whole route.
    pub fn place_and_take_ix(
        &self,
        b: &Book,
        user_idx: usize,
        params: OrderParams,
        success_condition: Option<u8>,
        route: Vec<AccountMeta>,
    ) -> (r: OrderIx)
        requires
            self.wf(),
            user_idx < NUM_USERS,
        ensures
            r.call == (OrderCall::PlaceAndTake {
                accounts: self.placing(*b, user_idx as int),
                params,
                success_condition,
            }),
            r.remaining@ == self.markets(true) + makers(
                self.users@,
                user_idx as int,
                NUM_USERS as int,
            ) + route@,
    {
        OrderIx {
            call: OrderCall::PlaceAndTake {
                accounts: self.place_accounts(b, user_idx),
                params,
                success_condition,
            },
            remaining: self.route_remaining_accounts(user_idx, route),
        }
    }

    /// An order that rests.
    pub fn place_and_make_ix(
        &self,
        b: &Book,
        user_idx: usize,
        params: OrderParams,
        activation_delay_slots: Option<u32>,
    ) -> (r: OrderIx)
        requires
            self.wf(),
            user_idx < NUM_USERS,
        ensures
            r.call == (OrderCall::PlaceAndMake {
                accounts: self.placing(*b, user_idx as int),
                params,
                activation_delay_slots,
            }),
            r.remaining@ == self.markets(true),
    {
        OrderIx {
            call: OrderCall::PlaceAndMake {
                accounts: self.place_accounts(b, user_idx),
                params,
                activation_delay_slots,
            },
            remaining: self.market_ras(true),
        }
    }

    /// Orders that wait in their user's account.
    pub fn place_trigger_orders_ix(
        &self,
        user_idx: usize,
        params: Vec<OrderParams>,
    ) -> (r: OrderIx)
        requires
            self.wf(),
            user_idx < NUM_USERS,
        ensures
            r.call == (OrderCall::PlaceTriggerOrders {
                state: self.state_pda,
                user: self.users@[user_idx as int].user_pda,
                authority: self.users@[user_idx as int].authority(),
                params,
            }),
            r.remaining@ == self.markets(false),
    {
        OrderIx {
            call: OrderCall::PlaceTriggerOrders {
                state: self.state_pda,
                user: self.users[user_idx].user_pda,
                authority: self.users[user_idx].keypair.pubkey(),
                params,
            },
            remaining: self.market_ras(false),
        }
    }

    /// The owner cancels an order.
    pub fn cancel_book_order_ix(&self, b: &Book, order: BookOrder) -> (r: OrderIx)
        requires
            self.wf(),
            order.owner_idx < NUM_USERS,
        ensures
            r.call == (OrderCall::CancelOrder {
                user: self.users@[order.owner_idx as int].user_pda,
                authority: self.users@[order.owner_idx as int].authority(),
                perp_market: self.perp_market_pda,
                book: b.named(),
                market_index: b.market_index,
                order_ref: order.order_ref,
            }),
            r.remaining@ == self.markets(false),
    {
        OrderIx {
            call: OrderCall::CancelOrder {
                user: self.users[order.owner_idx].user_pda,
                authority: self.users[order.owner_idx].keypair.pubkey(),
                perp_market: self.perp_market_pda,
                book: b.accounts(),
                market_index: b.market_index,
                order_ref: order.order_ref,
            },
            remaining: self.market_ras(false),
        }
    }

    /// A user cancels everything on the given sides.
    pub fn cancel_book_side_ix(&self, b: &Book, user_idx: usize, sides: u8) -> (r: OrderIx)
        requires
            self.wf(),
            user_idx < NUM_USERS,
        ensures
            r.call == (OrderCall::CancelOrders {
                user: self.users@[user_idx as int].user_pda,
                authority: self.users@[user_idx as int].authority(),
                book: b.named(),
                market_index: b.market_index,
                sides,
            }),
            r.remaining@ == self.markets(false),
    {
        OrderIx {
            call: OrderCall::CancelOrders {
                user: self.users[user_idx].user_pda,
                authority: self.users[user_idx].keypair.pubkey(),
                book: b.accounts(),
                market_index: b.market_index,
                sides,
            },
            remaining: self.market_ras(false),
        }
    }

    /// The owner changes an order's price or size.
    pub fn modify_book_order_ix(
        &self,
        b: &Book,
        order: BookOrder,
        price: Option<u64>,
        base_asset_amount: Option<u64>,
    ) -> (r: OrderIx)
        requires
            self.wf(),
            order.owner_idx < NUM_USERS,
        ensures
            r.call == (OrderCall::ModifyOrder {
                state: self.state_pda,
                user: self.users@[order.owner_idx as int].user_pda,
                authority: self.users@[order.owner_idx as int].authority(),
                book: b.named(),
                flow_authority: None,
                market_index: b.market_index,
                order_ref: order.order_ref,
                price,
                base_asset_amount,
                max_ts: None,
                activation_delay_slots: None,
                reject_if_crossed: false,
            }),
            r.remaining@ == self.markets(true),
    {
        OrderIx {
            call: OrderCall::ModifyOrder {
                state: self.state_pda,
                user: self.users[order.owner_idx].user_pda,
                authority: self.users[order.owner_idx].keypair.pubkey(),
                book: b.accounts(),
                flow_authority: None,
                market_index: b.market_index,
                order_ref: order.order_ref,
                price,
                base_asset_amount,
                max_ts: None,
                activation_delay_slots: None,
                reject_if_crossed: false,
            },
            remaining: self.market_ras(true),
        }
    }

    /// A filler removes an order that has expired.
    pub fn remove_expired_ix(&self, b: &Book, filler_idx: usize, order: BookOrder) -> (r: OrderIx)
        requires
            self.wf(),
            filler_idx < NUM_USERS,
            order.owner_idx < NUM_USERS,
        ensures
            r.call == (OrderCall::RemoveExpired {
                accounts: self.removing(*b, filler_idx as int, order.owner_idx as int),
                market_index: b.market_index,
                order_ref: order.order_ref,
            }),
            r.remaining@ == self.markets(true),
    {
        OrderIx {
            call: OrderCall::RemoveExpired {
                accounts: self.removal_accounts(b, filler_idx, order.owner_idx),
                market_index: b.market_index,
                order_ref: order.order_ref,
            },
            remaining: self.market_ras(true),
        }
    }

    /// A filler evicts the worst order of a side.
    pub fn evict_ix(
        &self,
        b: &Book,
        filler_idx: usize,
        owner_idx: usize,
        side: ClobSide,
    ) -> (r: OrderIx)
        requires
            self.wf(),
            filler_idx < NUM_USERS,
            owner_idx < NUM_USERS,
        ensures
            r.call == (OrderCall::Evict {
                accounts: self.removing(*b, filler_idx as int, owner_idx as int),
                market_index: b.market_index,
                side,
            }),
            r.remaining@ == self.markets(true),
    {
        OrderIx {
            call: OrderCall::Evict {
                accounts: self.removal_accounts(b, filler_idx, owner_idx),
                market_index: b.market_index,
                side,
            },
            remaining: self.market_ras(true),
        }
    }

    /// A filler sweeps a failing account's orders: no order is named, so the
    /// sweep takes each side that does not reduce the account's position.
    pub fn force_cancel_book_ix(
        &self,
        b: &Book,
        filler_idx: usize,
        target_idx: usize,
    ) -> (r: OrderIx)
        requires
            self.wf(),
            filler_idx < NUM_USERS,
            target_idx < NUM_USERS,
        ensures
            r.call matches OrderCall::ForceCancel {
                state,
                authority,
                filler,
                filler_stats,
                user,
                book,
                crank_conditions,
                market_index,
                order_refs,
            } && {
                &&& state == self.state_pda
                &&& authority == self.users@[filler_idx as int].authority()
                &&& filler == self.users@[filler_idx as int].user_pda
                &&& filler_stats == self.users@[filler_idx as int].stats_pda
                &&& user == self.users@[target_idx as int].user_pda
                &&& book == b.named()
                &&& crank_conditions is None
                &&& market_index == b.market_index
                &&& order_refs@ == Seq::<OrderRef>::empty()
            },
            r.remaining@ == self.markets(true),
    {
        let filler = self.users[filler_idx];
        OrderIx {
            call: OrderCall::ForceCancel {
                state: self.state_pda,
                authority: filler.keypair.pubkey(),
                filler: filler.user_pda,
                filler_stats: filler.stats_pda,
                user: self.users[target_idx].user_pda,
                book: b.accounts(),
                crank_conditions: None,
                market_index: b.market_index,
                order_refs: Vec::new(),
            },
            remaining: self.market_ras(true),
        }
    }

    /// A filler fires an order that takes at once, with its whole route.
    pub fn trigger_market_ix(
        &self,
        b: &Book,
        filler_idx: usize,
        user_idx: usize,
        order_id: u32,
        route: Vec<AccountMeta>,
    ) -> (r: OrderIx)
        requires
            self.wf(),
            filler_idx < NUM_USERS,
            user_idx < NUM_USERS,
        ensures
            r.call matches OrderCall::TriggerMarket {
                accounts,
                ix_sysvar,
                market_index,
                order_id: fired,
                signed_route,
            } && {
                &&& accounts == self.firing(*b, filler_idx as int, user_idx as int)
                &&& ix_sysvar == Some(instructions_sysvar_id())
                &&& market_index == b.market_index
                &&& fired == order_id
                &&& signed_route@ == Seq::<u8>::empty()
            },
            r.remaining@ == self.markets(true) + makers(
                self.users@,
                user_idx as int,
                NUM_USERS as int,
            ) + route@,
    {
        OrderIx {
            call: OrderCall::TriggerMarket {
                accounts: self.trigger_accounts(b, filler_idx, user_idx),
                ix_sysvar: Some(instructions_sysvar_id()),
                market_index: b.market_index,
                order_id,
                signed_route: Vec::new(),
            },
            remaining: self.route_remaining_accounts(user_idx, route),
        }
    }

    /// A filler fires an order that rests.
    pub fn trigger_limit_ix(
        &self,
        b: &Book,
        filler_idx: usize,
        user_idx: usize,
        order_id: u32,
    ) -> (r: OrderIx)
        requires
            self.wf(),
            filler_idx < NUM_USERS,
            user_idx < NUM_USERS,
        ensures
            r.call == (OrderCall::TriggerLimit {
                accounts: self.firing(*b, filler_idx as int, user_idx as int),
                market_index: b.market_index,
                order_id,
            }),
            r.remaining@ == self.markets(true),
    {
        OrderIx {
            call: OrderCall::TriggerLimit {
                accounts: self.trigger_accounts(b, filler_idx, user_idx),
                market_index: b.market_index,
                order_id,
            },
            remaining: self.market_ras(true),
        }
    }
}

} // verus!
