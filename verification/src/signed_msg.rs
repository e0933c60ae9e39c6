//! Orders that their taker signs off-chain, and the accounts around them.

use vstd::prelude::*;
use crate::constants::NUM_USERS;
use crate::discriminators::{
    D_CHANGE_APPROVED_BUILDER, D_CHANGE_SIGNED_MSG_WS_DELEGATE, D_DELETE_SIGNED_MSG_USER_ORDERS,
    D_INIT_REVENUE_SHARE, D_INIT_REVENUE_SHARE_ESCROW, D_INIT_SIGNED_MSG_USER_ORDERS,
    D_INIT_SIGNED_MSG_WS_DELEGATES, D_PLACE_AND_MAKE_SIGNED_MSG_PERP_ORDER,
    D_PLACE_SIGNED_MSG_TAKER_ORDER, D_RESIZE_REVENUE_SHARE_ESCROW,
    D_RESIZE_SIGNED_MSG_USER_ORDERS,
};
use crate::envelope::{
    build_signed_msg_envelope, ed25519_verify_ix, order_envelope, order_payload, relayed,
    MESSAGE_OFFSET, PAYLOAD_OFFSET,
};
use crate::fixture::{addr, derivable, pda_key, Fixture, SignedUuid, MAX_SIGNED};
use crate::keys::{
    call, instructions_sysvar_id, ix, key_bytes, pda2, push_key, rent_sysvar_id,
    system_program_id, tx, AccountMeta, Instruction, Pubkey, Transaction,
};
use crate::model::{OrderType, PositionDirection, PostOnlyParam};
use crate::params::{direction_of, OrderParams};
use crate::programs::signature_check;
use crate::spot_actions::{following, following_index};
use crate::trading::{join, next_user, next_user_index};
use crate::wire::{
    flag, flag_byte, ix_data, le, push_bytes, push_len, push_u16, push_u64, push_u8, u32_bytes,
};

verus! {

// ---------------------------------------------------------------------------
// Addresses
// ---------------------------------------------------------------------------

/// The seeds of an account that an authority has one of.
pub open spec fn owned_seeds(tag: &str, authority: Pubkey) -> Seq<Seq<u8>> {
    seq![crate::keys::text(tag), authority.bytes@]
}

/// The ring of a taker's signed-message orders.
pub fn signed_msg_orders_pda(authority: &Pubkey, program: Pubkey) -> (r: Option<(Pubkey, u8)>)
    ensures
        r == crate::keys::program_address(owned_seeds("SIGNED_MSG", *authority), program),
{
    pda2("SIGNED_MSG", key_bytes(authority), program)
}

/// The delegates that may relay an authority's messages.
pub fn signed_msg_ws_pda(authority: &Pubkey, program: Pubkey) -> (r: Option<(Pubkey, u8)>)
    ensures
        r == crate::keys::program_address(owned_seeds("SIGNED_MSG_WS", *authority), program),
{
    pda2("SIGNED_MSG_WS", key_bytes(authority), program)
}

/// A builder's share of revenue.
pub fn revenue_share_pda(authority: &Pubkey, program: Pubkey) -> (r: Option<(Pubkey, u8)>)
    ensures
        r == crate::keys::program_address(owned_seeds("REV_SHARE", *authority), program),
{
    pda2("REV_SHARE", key_bytes(authority), program)
}

/// The escrow of what an authority owes its builders.
pub fn revenue_escrow_pda(authority: &Pubkey, program: Pubkey) -> (r: Option<(Pubkey, u8)>)
    ensures
        r == crate::keys::program_address(owned_seeds("REV_ESCROW", *authority), program),
{
    pda2("REV_ESCROW", key_bytes(authority), program)
}

// ---------------------------------------------------------------------------
// Account lifecycle
// ---------------------------------------------------------------------------

impl Fixture {
    /// Opens the ring of a user's signed-message orders.
    pub fn action_init_signed_msg_user_orders(
        &self,
        user_idx: usize,
        num_orders: u16,
    ) -> (r: Option<Transaction>)
        requires
            self.wf(),
            user_idx < NUM_USERS,
        ensures
            r is Some <==> ({
                let user = self.users@[user_idx as int];
                derivable(owned_seeds("SIGNED_MSG", user.authority()), self.program_id)
            }),
            r matches Some(t) ==> ({
                let user = self.users@[user_idx as int];
                let owned = pda_key(owned_seeds("SIGNED_MSG", user.authority()), self.program_id);
                t@ == call(
                    self.program_id,
                    seq![
                        AccountMeta::new(owned, false),
                        AccountMeta::new_readonly(user.authority(), false),
                        AccountMeta::new(user.authority(), true),
                        AccountMeta::new_readonly(rent_sysvar_id(), false),
                        AccountMeta::new_readonly(system_program_id(), false),
                    ],
                    D_INIT_SIGNED_MSG_USER_ORDERS@ + le(num_orders as int, 2),
                    user.authority(),
                )
            }),
    {
        let user = self.users[user_idx];
        let (owned, _) = signed_msg_orders_pda(&user.keypair.pubkey(), self.program_id)?;
        let mut args: Vec<u8> = Vec::new();
        push_u16(&mut args, num_orders);
        assert(args@ =~= le(num_orders as int, 2));
        let accounts = vec![
            AccountMeta::new(owned, false),
            AccountMeta::new_readonly(user.keypair.pubkey(), false),
            AccountMeta::new(user.keypair.pubkey(), true),
            AccountMeta::new_readonly(rent_sysvar_id(), false),
            AccountMeta::new_readonly(system_program_id(), false),
        ];
        Some(self.submit(accounts, D_INIT_SIGNED_MSG_USER_ORDERS, &args, user.keypair.pubkey()))
    }

    /// Resizes the ring of a user's signed-message orders.
    pub fn action_resize_signed_msg_user_orders(
        &self,
        user_idx: usize,
        num_orders: u16,
    ) -> (r: Option<Transaction>)
        requires
            self.wf(),
            user_idx < NUM_USERS,
        ensures
            r is Some <==> ({
                let user = self.users@[user_idx as int];
                derivable(owned_seeds("SIGNED_MSG", user.authority()), self.program_id)
            }),
            r matches Some(t) ==> ({
                let user = self.users@[user_idx as int];
                let owned = pda_key(owned_seeds("SIGNED_MSG", user.authority()), self.program_id);
                t@ == call(
                    self.program_id,
                    seq![
                        AccountMeta::new(owned, false),
                        AccountMeta::new_readonly(user.authority(), false),
                        AccountMeta::new(user.authority(), true),
                        AccountMeta::new_readonly(system_program_id(), false),
                    ],
                    D_RESIZE_SIGNED_MSG_USER_ORDERS@ + le(num_orders as int, 2),
                    user.authority(),
                )
            }),
    {
        let user = self.users[user_idx];
        let (owned, _) = signed_msg_orders_pda(&user.keypair.pubkey(), self.program_id)?;
        let mut args: Vec<u8> = Vec::new();
        push_u16(&mut args, num_orders);
        assert(args@ =~= le(num_orders as int, 2));
        let accounts = vec![
            AccountMeta::new(owned, false),
            AccountMeta::new_readonly(user.keypair.pubkey(), false),
            AccountMeta::new(user.keypair.pubkey(), true),
            AccountMeta::new_readonly(system_program_id(), false),
        ];
        Some(self.submit(accounts, D_RESIZE_SIGNED_MSG_USER_ORDERS, &args, user.keypair.pubkey()))
    }

    /// Closes the ring of a user's signed-message orders.
    pub fn action_delete_signed_msg_user_orders(&self, user_idx: usize) -> (r: Option<Transaction>)
        requires
            self.wf(),
            user_idx < NUM_USERS,
        ensures
            r is Some <==> ({
                let user = self.users@[user_idx as int];
                derivable(owned_seeds("SIGNED_MSG", user.authority()), self.program_id)
            }),
            r matches Some(t) ==> ({
                let user = self.users@[user_idx as int];
                let owned = pda_key(owned_seeds("SIGNED_MSG", user.authority()), self.program_id);
                t@ == call(
                    self.program_id,
                    seq![
                        AccountMeta::new(owned, false),
                        AccountMeta::new(self.state_pda, false),
                        AccountMeta::new_readonly(user.authority(), true),
                    ],
                    D_DELETE_SIGNED_MSG_USER_ORDERS@,
                    user.authority(),
                )
            }),
    {
        let user = self.users[user_idx];
        let (owned, _) = signed_msg_orders_pda(&user.keypair.pubkey(), self.program_id)?;
        let accounts = vec![
            AccountMeta::new(owned, false),
            AccountMeta::new(self.state_pda, false),
            AccountMeta::new_readonly(user.keypair.pubkey(), true),
        ];
        Some(self.submit_bare(accounts, D_DELETE_SIGNED_MSG_USER_ORDERS, user.keypair.pubkey()))
    }

    /// Adds the next user to the delegates that may relay a user's messages, or
    /// removes it.
    pub fn action_change_signed_msg_ws_delegate(
        &self,
        user_idx: usize,
        add: u8,
    ) -> (r: Option<Transaction>)
        requires
            self.wf(),
            user_idx < NUM_USERS,
        ensures
            r is Some <==> ({
                let user = self.users@[user_idx as int];
                let other = self.users@[next_user(user_idx as int)];
                derivable(owned_seeds("SIGNED_MSG_WS", user.authority()), self.program_id)
            }),
            r matches Some(t) ==> ({
                let user = self.users@[user_idx as int];
                let other = self.users@[next_user(user_idx as int)];
                let owned = pda_key(owned_seeds("SIGNED_MSG_WS", user.authority()), self.program_id);
                t@ == call(
                    self.program_id,
                    seq![
                        AccountMeta::new(owned, false),
                        AccountMeta::new(user.authority(), true),
                        AccountMeta::new_readonly(system_program_id(), false),
                    ],
                    D_CHANGE_SIGNED_MSG_WS_DELEGATE@ + (other.authority().bytes@
                        + seq![flag(add == 1)]),
                    user.authority(),
                )
            }),
    {
        let user = self.users[user_idx];
        let other = self.users[next_user_index(user_idx)];
        let (owned, _) = signed_msg_ws_pda(&user.keypair.pubkey(), self.program_id)?;
        let mut args: Vec<u8> = Vec::new();
        push_key(&mut args, &other.keypair.pubkey());
        assert(args@ =~= other.authority().bytes@);
        push_u8(&mut args, flag_byte(add == 1));
        let accounts = vec![
            AccountMeta::new(owned, false),
            AccountMeta::new(user.keypair.pubkey(), true),
            AccountMeta::new_readonly(system_program_id(), false),
        ];
        Some(self.submit(accounts, D_CHANGE_SIGNED_MSG_WS_DELEGATE, &args, user.keypair.pubkey()))
    }

    /// Opens a builder's share of revenue.
    pub fn action_init_revenue_share(&self, user_idx: usize) -> (r: Option<Transaction>)
        requires
            self.wf(),
            user_idx < NUM_USERS,
        ensures
            r is Some <==> ({
                let user = self.users@[user_idx as int];
                derivable(owned_seeds("REV_SHARE", user.authority()), self.program_id)
            }),
            r matches Some(t) ==> ({
                let user = self.users@[user_idx as int];
                let owned = pda_key(owned_seeds("REV_SHARE", user.authority()), self.program_id);
                t@ == call(
                    self.program_id,
                    seq![
                        AccountMeta::new(owned, false),
                        AccountMeta::new_readonly(user.authority(), false),
                        AccountMeta::new(user.authority(), true),
                        AccountMeta::new_readonly(rent_sysvar_id(), false),
                        AccountMeta::new_readonly(system_program_id(), false),
                    ],
                    D_INIT_REVENUE_SHARE@,
                    user.authority(),
                )
            }),
    {
        let user = self.users[user_idx];
        let (owned, _) = revenue_share_pda(&user.keypair.pubkey(), self.program_id)?;
        let accounts = vec![
            AccountMeta::new(owned, false),
            AccountMeta::new_readonly(user.keypair.pubkey(), false),
            AccountMeta::new(user.keypair.pubkey(), true),
            AccountMeta::new_readonly(rent_sysvar_id(), false),
            AccountMeta::new_readonly(system_program_id(), false),
        ];
        Some(self.submit_bare(accounts, D_INIT_REVENUE_SHARE, user.keypair.pubkey()))
    }

    /// Opens the escrow of what a user owes its builders.
    pub fn action_init_revenue_share_escrow(
        &self,
        user_idx: usize,
        num_orders: u16,
    ) -> (r: Option<Transaction>)
        requires
            self.wf(),
            user_idx < NUM_USERS,
        ensures
            r is Some <==> ({
                let user = self.users@[user_idx as int];
                derivable(owned_seeds("REV_ESCROW", user.authority()), self.program_id)
            }),
            r matches Some(t) ==> ({
                let user = self.users@[user_idx as int];
                let owned = pda_key(owned_seeds("REV_ESCROW", user.authority()), self.program_id);
                t@ == call(
                    self.program_id,
                    seq![
                        AccountMeta::new(owned, false),
                        AccountMeta::new_readonly(user.authority(), false),
                        AccountMeta::new(user.stats_pda, false),
                        AccountMeta::new_readonly(self.state_pda, false),
                        AccountMeta::new(user.authority(), true),
                        AccountMeta::new_readonly(rent_sysvar_id(), false),
                        AccountMeta::new_readonly(system_program_id(), false),
                    ],
                    D_INIT_REVENUE_SHARE_ESCROW@ + le(num_orders as int, 2),
                    user.authority(),
                )
            }),
    {
        let user = self.users[user_idx];
        let (owned, _) = revenue_escrow_pda(&user.keypair.pubkey(), self.program_id)?;
        let mut args: Vec<u8> = Vec::new();
        push_u16(&mut args, num_orders);
        assert(args@ =~= le(num_orders as int, 2));
        let accounts = vec![
            AccountMeta::new(owned, false),
            AccountMeta::new_readonly(user.keypair.pubkey(), false),
            AccountMeta::new(user.stats_pda, false),
            AccountMeta::new_readonly(self.state_pda, false),
            AccountMeta::new(user.keypair.pubkey(), true),
            AccountMeta::new_readonly(rent_sysvar_id(), false),
            AccountMeta::new_readonly(system_program_id(), false),
        ];
        Some(self.submit(accounts, D_INIT_REVENUE_SHARE_ESCROW, &args, user.keypair.pubkey()))
    }

    /// Resizes the escrow of what a user owes its builders.
    pub fn action_resize_revenue_share_escrow(
        &self,
        user_idx: usize,
        num_orders: u16,
    ) -> (r: Option<Transaction>)
        requires
            self.wf(),
            user_idx < NUM_USERS,
        ensures
            r is Some <==> ({
                let user = self.users@[user_idx as int];
                derivable(owned_seeds("REV_ESCROW", user.authority()), self.program_id)
            }),
            r matches Some(t) ==> ({
                let user = self.users@[user_idx as int];
                let owned = pda_key(owned_seeds("REV_ESCROW", user.authority()), self.program_id);
                t@ == call(
                    self.program_id,
                    seq![
                        AccountMeta::new(owned, false),
                        AccountMeta::new_readonly(user.authority(), false),
                        AccountMeta::new(user.authority(), true),
                        AccountMeta::new_readonly(system_program_id(), false),
                    ],
                    D_RESIZE_REVENUE_SHARE_ESCROW@ + le(num_orders as int, 2),
                    user.authority(),
                )
            }),
    {
        let user = self.users[user_idx];
        let (owned, _) = revenue_escrow_pda(&user.keypair.pubkey(), self.program_id)?;
        let mut args: Vec<u8> = Vec::new();
        push_u16(&mut args, num_orders);
        assert(args@ =~= le(num_orders as int, 2));
        let accounts = vec![
            AccountMeta::new(owned, false),
            AccountMeta::new_readonly(user.keypair.pubkey(), false),
            AccountMeta::new(user.keypair.pubkey(), true),
            AccountMeta::new_readonly(system_program_id(), false),
        ];
        Some(self.submit(accounts, D_RESIZE_REVENUE_SHARE_ESCROW, &args, user.keypair.pubkey()))
    }

    /// Approves the next user as a builder up to a fee, or revokes that.
    pub fn action_change_approved_builder(
        &self,
        user_idx: usize,
        max_fee_bps: u16,
        add: u8,
    ) -> (r: Option<Transaction>)
        requires
            self.wf(),
            user_idx < NUM_USERS,
        ensures
            r is Some <==> ({
                let user = self.users@[user_idx as int];
                let other = self.users@[next_user(user_idx as int)];
                derivable(owned_seeds("REV_ESCROW", user.authority()), self.program_id)
            }),
            r matches Some(t) ==> ({
                let user = self.users@[user_idx as int];
                let other = self.users@[next_user(user_idx as int)];
                let owned = pda_key(owned_seeds("REV_ESCROW", user.authority()), self.program_id);
                t@ == call(
                    self.program_id,
                    seq![
                        AccountMeta::new(owned, false),
                        AccountMeta::new_readonly(user.authority(), true),
                        AccountMeta::new(user.authority(), true),
                        AccountMeta::new_readonly(system_program_id(), false),
                    ],
                    D_CHANGE_APPROVED_BUILDER@ + (other.authority().bytes@
                        + le(max_fee_bps as int, 2) + seq![flag(add == 1)]),
                    user.authority(),
                )
            }),
    {
        let user = self.users[user_idx];
        let other = self.users[next_user_index(user_idx)];
        let (owned, _) = revenue_escrow_pda(&user.keypair.pubkey(), self.program_id)?;
        let mut args: Vec<u8> = Vec::new();
        push_key(&mut args, &other.keypair.pubkey());
        assert(args@ =~= other.authority().bytes@);
        push_u16(&mut args, max_fee_bps);
        push_u8(&mut args, flag_byte(add == 1));
        let accounts = vec![
            AccountMeta::new(owned, false),
            AccountMeta::new_readonly(user.keypair.pubkey(), true),
            AccountMeta::new(user.keypair.pubkey(), true),
            AccountMeta::new_readonly(system_program_id(), false),
        ];
        Some(self.submit(accounts, D_CHANGE_APPROVED_BUILDER, &args, user.keypair.pubkey()))
    }

    /// The addresses of the `n` users that follow a user, one after another.
    pub open spec fn delegates(self, user_idx: int, n: int) -> Seq<u8>
        decreases n,
    {
        if n <= 0 {
            Seq::empty()
        } else {
            self.delegates(user_idx, n - 1) + self.users@[following(
                user_idx,
                n,
            )].authority().bytes@
        }
    }

    /// Opens the list of delegates that may relay a user's messages, with the
    /// `n` users that follow it.
    pub fn action_init_signed_msg_ws_delegates(&self, user_idx: usize, n: u32) -> (r: Option<
        Transaction,
    >)
        requires
            self.wf(),
            user_idx < NUM_USERS,
            user_idx + n <= usize::MAX,
        ensures
            r is Some <==> derivable(
                owned_seeds("SIGNED_MSG_WS", self.users@[user_idx as int].authority()),
                self.program_id,
            ),
            r matches Some(t) ==> ({
                let user = self.users@[user_idx as int];
                let owned = pda_key(
                    owned_seeds("SIGNED_MSG_WS", user.authority()),
                    self.program_id,
                );
                t@ == call(
                    self.program_id,
                    seq![
                        AccountMeta::new(owned, false),
                        AccountMeta::new(user.authority(), true),
                        AccountMeta::new_readonly(rent_sysvar_id(), false),
                        AccountMeta::new_readonly(system_program_id(), false),
                    ],
                    D_INIT_SIGNED_MSG_WS_DELEGATES@ + (le(n as int, 4) + self.delegates(
                        user_idx as int,
                        n as int,
                    )),
                    user.authority(),
                )
            }),
    {
        let user = self.users[user_idx];
        let (owned, _) = signed_msg_ws_pda(&user.keypair.pubkey(), self.program_id)?;
        let mut keys: Vec<u8> = Vec::new();
        let mut k: u32 = 0;
        while k < n
            invariant
                k <= n,
                self.wf(),
                user_idx < NUM_USERS,
                user_idx + n <= usize::MAX,
                keys@ == self.delegates(user_idx as int, k as int),
            decreases n - k,
        {
            k = k + 1;
            let d = self.users[following_index(user_idx, k as usize)].keypair.pubkey();
            push_key(&mut keys, &d);
        }
        let mut args = u32_bytes(n);
        push_bytes(&mut args, keys.as_slice());
        let accounts = vec![
            AccountMeta::new(owned, false),
            AccountMeta::new(user.keypair.pubkey(), true),
            AccountMeta::new_readonly(rent_sysvar_id(), false),
            AccountMeta::new_readonly(system_program_id(), false),
        ];
        Some(
            self.submit(accounts, D_INIT_SIGNED_MSG_WS_DELEGATES, &args, user.keypair.pubkey()),
        )
    }
}

// ---------------------------------------------------------------------------
// The taker
// ---------------------------------------------------------------------------

/// A take-profit or stop-loss leg of a signed message.
#[derive(Clone, Copy, PartialEq, Eq, Debug)]
pub struct TriggerLeg {
    pub trigger_price: u64,
    pub base_asset_amount: u64,
}

/// What a taker signs. The exchange's other options stay absent.
#[derive(Clone, Copy, PartialEq, Eq, Debug)]
pub struct SignedMessage {
    pub params: OrderParams,
    pub sub_account_id: u16,
    pub slot: u64,
    /// The number of the message, as eight little-endian bytes.
    pub uuid: u64,
    pub take_profit: Option<TriggerLeg>,
    pub stop_loss: Option<TriggerLeg>,
    pub max_margin_ratio: Option<u16>,
}

/// The worst price that a taker accepts: ten percent through a price of one.
#[verifier::allow_in_spec]
pub fn worst_price(direction: PositionDirection) -> u64
    returns
        (match direction {
            PositionDirection::Long => 1_100_000u64,
            PositionDirection::Short => 900_000u64,
        }),
{
    match direction {
        PositionDirection::Long => 1_100_000,
        PositionDirection::Short => 900_000,
    }
}

/// The slot that a message names: the current one, or one that is too old.
#[verifier::allow_in_spec]
pub fn message_slot(slot: u64, backdate: bool) -> u64
    returns
        (if !backdate {
            slot
        } else if slot >= 600 {
            (slot - 600) as u64
        } else {
            0
        }),
{
    if !backdate {
        slot
    } else if slot >= 600 {
        slot - 600
    } else {
        0
    }
}

/// A leg of the order's own size, where it is wanted.
#[verifier::allow_in_spec]
pub fn trigger_leg(wanted: bool, trigger_price: u64, base_asset_amount: u64) -> Option<TriggerLeg>
    returns
        (if wanted {
            Some(TriggerLeg { trigger_price, base_asset_amount })
        } else {
            None
        }),
{
    if wanted {
        Some(TriggerLeg { trigger_price, base_asset_amount })
    } else {
        None
    }
}

/// The last orders placed, with one more where it was placed: the oldest gives
/// way once there are more than the limit.
pub open spec fn remembered(placed_orders: Seq<SignedUuid>, entry: SignedUuid, placed: bool) -> Seq<
    SignedUuid,
> {
    if !placed {
        placed_orders
    } else if placed_orders.len() < MAX_SIGNED {
        placed_orders.push(entry)
    } else {
        placed_orders.push(entry).remove(0)
    }
}

impl Fixture {
    /// The message that a taker signs next. Every message gets a number of its
    /// own.
    pub fn action_place_signed_msg_taker_order(
        &mut self,
        dir: u8,
        base: u64,
        with_tp: u8,
        with_sl: u8,
        with_max_margin_ratio: u8,
        max_margin_ratio: u16,
        slot_backdate: u8,
        clock_slot: u64,
    ) -> (r: SignedMessage)
        requires
            old(self).signed_uuid_seq < u64::MAX,
        ensures
            *final(self) == (Fixture {
                signed_uuid_seq: (old(self).signed_uuid_seq + 1) as u64,
                ..*old(self)
            }),
            r == (SignedMessage {
                params: OrderParams::perp(
                    OrderType::Market,
                    direction_of(dir),
                    base,
                    worst_price(direction_of(dir)),
                ),
                sub_account_id: 0,
                slot: message_slot(clock_slot, slot_backdate == 1),
                uuid: (old(self).signed_uuid_seq + 1) as u64,
                take_profit: trigger_leg(with_tp == 1, 1_200_000, base),
                stop_loss: trigger_leg(with_sl == 1, 800_000, base),
                max_margin_ratio: if with_max_margin_ratio == 1 {
                    Some(max_margin_ratio)
                } else {
                    None
                },
            }),
    {
        self.signed_uuid_seq = self.signed_uuid_seq + 1;
        let direction = direction_of(dir);
        SignedMessage {
            params: OrderParams::perp(OrderType::Market, direction, base, worst_price(direction)),
            sub_account_id: 0,
            slot: message_slot(clock_slot, slot_backdate == 1),
            uuid: self.signed_uuid_seq,
            take_profit: trigger_leg(with_tp == 1, 1_200_000, base),
            stop_loss: trigger_leg(with_sl == 1, 800_000, base),
            max_margin_ratio: if with_max_margin_ratio == 1 {
                Some(max_margin_ratio)
            } else {
                None
            },
        }
    }

    /// Relays a taker's message, given in its encoding: the check of the
    /// signature, then the order, in one transaction. `None` where the address
    /// of the taker's ring has no derivation.
    pub fn send_signed_msg_taker_order(&self, user_idx: usize, message: &Vec<u8>) -> (r: Option<
        Transaction,
    >)
        requires
            self.wf(),
            user_idx < NUM_USERS,
        ensures
            r is Some <==> derivable(
                owned_seeds("SIGNED_MSG", self.users@[user_idx as int].authority()),
                self.program_id,
            ),
            r matches Some(t) ==> ({
                let user = self.users@[user_idx as int];
                let ring = pda_key(owned_seeds("SIGNED_MSG", user.authority()), self.program_id);
                t@ == tx(
                    seq![
                        signature_check(
                            MESSAGE_OFFSET as int,
                            1,
                            order_payload(message@).len() as int,
                        ),
                        ix(
                            self.program_id,
                            seq![
                                AccountMeta::new_readonly(self.state_pda, false),
                                AccountMeta::new(user.user_pda, false),
                                AccountMeta::new(user.stats_pda, false),
                                AccountMeta::new(ring, false),
                                AccountMeta::new_readonly(addr(self.crank), true),
                                AccountMeta::new_readonly(instructions_sysvar_id(), false),
                            ] + self.markets(true),
                            relayed(
                                D_PLACE_SIGNED_MSG_TAKER_ORDER@,
                                order_envelope(user.keypair, message@),
                                seq![0u8],
                            ),
                        ),
                    ],
                    seq![addr(self.crank)],
                )
            }),
    {
        let user = self.users[user_idx];
        let (ring, _) = signed_msg_orders_pda(&user.keypair.pubkey(), self.program_id)?;
        let envelope = build_signed_msg_envelope(&user.keypair, message);
        let mut args: Vec<u8> = Vec::new();
        push_len(&mut args, envelope.len(), 4);
        assert(args@ =~= le(envelope@.len() as int, 4));
        push_bytes(&mut args, envelope.as_slice());
        push_u8(&mut args, 0);
        let crank = self.crank.pubkey();
        let accounts = join(
            vec![
                AccountMeta::new_readonly(self.state_pda, false),
                AccountMeta::new(user.user_pda, false),
                AccountMeta::new(user.stats_pda, false),
                AccountMeta::new(ring, false),
                AccountMeta::new_readonly(crank, true),
                AccountMeta::new_readonly(instructions_sysvar_id(), false),
            ],
            self.market_ras(true),
        );
        let check = ed25519_verify_ix(1, envelope.len() - PAYLOAD_OFFSET as usize);
        let order = Instruction::new(
            self.program_id,
            accounts,
            ix_data(D_PLACE_SIGNED_MSG_TAKER_ORDER, &args),
        );
        let signers = vec![crank];
        assert(signers@ =~= seq![addr(self.crank)]);
        Some(Transaction::pair(check, order, signers))
    }

    /// Remembers an order that was placed, so that a maker can name it.
    pub fn record_signed_order(&mut self, user_idx: usize, message: &SignedMessage, placed: bool)
        requires
            old(self).wf(),
            user_idx < NUM_USERS,
        ensures
            final(self).wf(),
            final(self).signed_uuids@ == remembered(
                old(self).signed_uuids@,
                SignedUuid {
                    taker_idx: user_idx,
                    uuid: message.uuid,
                    taker_is_long: message.params.direction == PositionDirection::Long,
                },
                placed,
            ),
            *final(self) == (Fixture { signed_uuids: final(self).signed_uuids, ..*old(self) }),
    {
        if placed {
            self.signed_uuids.push(
                SignedUuid {
                    taker_idx: user_idx,
                    uuid: message.uuid,
                    taker_is_long: message.params.direction == PositionDirection::Long,
                },
            );
            if self.signed_uuids.len() > MAX_SIGNED {
                self.signed_uuids.remove(0);
            }
        }
    }
}

// ---------------------------------------------------------------------------
// The maker
// ---------------------------------------------------------------------------

/// The order that a maker places against a taker: on the other side and inside
/// the taker's worst price, unless it is to miss on purpose.
pub open spec fn signed_make_order(
    taker_is_long: bool,
    base: u64,
    cross: bool,
    must_post: bool,
) -> OrderParams {
    OrderParams {
        post_only: if must_post {
            PostOnlyParam::MustPostOnly
        } else {
            PostOnlyParam::TryPostOnly
        },
        immediate_or_cancel: true,
        ..OrderParams::perp(
            OrderType::Limit,
            if taker_is_long == cross {
                PositionDirection::Short
            } else {
                PositionDirection::Long
            },
            base,
            if taker_is_long {
                900_000u64
            } else {
                1_100_000u64
            },
        )
    }
}

/// A maker that does not miss on purpose takes the other side, at a price that
/// the taker accepts.
pub proof fn maker_meets_the_taker(taker: PositionDirection, base: u64, must_post: bool)
    ensures
        ({
            let make = signed_make_order(taker == PositionDirection::Long, base, true, must_post);
            &&& make.direction != taker
            &&& taker == PositionDirection::Long ==> make.price <= worst_price(taker)
            &&& taker == PositionDirection::Short ==> make.price >= worst_price(taker)
        }),
{
}

impl Fixture {
    /// The order that a maker places against a remembered taker, and that taker;
    /// `None` where none is remembered or where it is the maker's own.
    pub fn action_place_and_make_signed_msg(
        &self,
        maker_idx: usize,
        nth_uuid: usize,
        base: u64,
        dir: u8,
        post_only_sel: u8,
    ) -> (r: Option<(OrderParams, SignedUuid)>)
        requires
            self.wf(),
            maker_idx < NUM_USERS,
        ensures
            ({
                let orders = self.signed_uuids@;
                let taken = orders[nth_uuid as int % orders.len() as int];
                &&& r is Some <==> orders.len() > 0 && taken.taker_idx != maker_idx
                &&& r matches Some((order, taker)) ==> taker == taken && taker.taker_idx < NUM_USERS
                    && order == signed_make_order(
                    taken.taker_is_long,
                    base,
                    dir == 0,
                    post_only_sel == 0,
                )
            }),
    {
        if self.signed_uuids.len() == 0 {
            return None;
        }
        let taker = self.signed_uuids[nth_uuid % self.signed_uuids.len()];
        if taker.taker_idx == maker_idx {
            return None;
        }
        let cross = dir == 0;
        let direction = if taker.taker_is_long == cross {
            PositionDirection::Short
        } else {
            PositionDirection::Long
        };
        let price: u64 = if taker.taker_is_long {
            900_000
        } else {
            1_100_000
        };
        let order = OrderParams {
            post_only: if post_only_sel == 0 {
                PostOnlyParam::MustPostOnly
            } else {
                PostOnlyParam::TryPostOnly
            },
            immediate_or_cancel: true,
            ..OrderParams::perp(OrderType::Limit, direction, base, price)
        };
        Some((order, taker))
    }

    /// Places the maker's order, given in its encoding, against the taker's.
    pub fn send_place_and_make_signed_msg(
        &self,
        maker_idx: usize,
        taker: SignedUuid,
        order_wire: Vec<u8>,
    ) -> (r: Option<Transaction>)
        requires
            self.wf(),
            maker_idx < NUM_USERS,
            taker.taker_idx < NUM_USERS,
        ensures
            r is Some <==> derivable(
                owned_seeds("SIGNED_MSG", self.users@[taker.taker_idx as int].authority()),
                self.program_id,
            ),
            r matches Some(t) ==> ({
                let m = self.users@[maker_idx as int];
                let k = self.users@[taker.taker_idx as int];
                let ring = pda_key(owned_seeds("SIGNED_MSG", k.authority()), self.program_id);
                t@ == call(
                    self.program_id,
                    seq![
                        AccountMeta::new_readonly(self.state_pda, false),
                        AccountMeta::new(m.user_pda, false),
                        AccountMeta::new(m.stats_pda, false),
                        AccountMeta::new(k.user_pda, false),
                        AccountMeta::new(k.stats_pda, false),
                        AccountMeta::new_readonly(ring, false),
                        AccountMeta::new_readonly(m.authority(), true),
                    ] + self.markets(true),
                    D_PLACE_AND_MAKE_SIGNED_MSG_PERP_ORDER@ + (order_wire@ + le(
                        taker.uuid as int,
                        8,
                    )),
                    m.authority(),
                )
            }),
    {
        let m = self.users[maker_idx];
        let k = self.users[taker.taker_idx];
        let (ring, _) = signed_msg_orders_pda(&k.keypair.pubkey(), self.program_id)?;
        let mut args = order_wire;
        push_u64(&mut args, taker.uuid);
        let accounts = join(
            vec![
                AccountMeta::new_readonly(self.state_pda, false),
                AccountMeta::new(m.user_pda, false),
                AccountMeta::new(m.stats_pda, false),
                AccountMeta::new(k.user_pda, false),
                AccountMeta::new(k.stats_pda, false),
                AccountMeta::new_readonly(ring, false),
                AccountMeta::new_readonly(m.keypair.pubkey(), true),
            ],
            self.market_ras(true),
        );
        Some(
            self.submit(
                accounts,
                D_PLACE_AND_MAKE_SIGNED_MSG_PERP_ORDER,
                &args,
                m.keypair.pubkey(),
            ),
        )
    }
}

} // verus!
