//! Who may resize the ring of signed-message orders, and what a paused exchange
//! answers to one.

use vstd::prelude::*;
use crate::accounts::{
    PerpMarketAccount, SpotMarketAccount, StateAccount, UserAccount,
};
use crate::discriminators::{
    A_SIGNED_MSG_USER_ORDERS, D_PLACE_SIGNED_MSG_TAKER, D_RESIZE_SIGNED_MSG,
};
use crate::envelope::{build_signed_msg_envelope, order_envelope, order_payload, relayed, PAYLOAD_OFFSET};
use crate::fixture::{
    addr, derivable, indexed, pda_key, stats_pda, stats_seeds, user_pda, user_seeds, SpotAddresses,
};
use crate::keys::{
    call, instructions_sysvar_id, pda2, push_key, send, system_program_id, AccountMeta, Keypair,
    Pubkey, Transaction,
};
use crate::model::{BalanceType, OrderType, PositionDirection};
use crate::params::OrderParams;
use crate::scenario::{
    core_at, core_derivable, derive_core, perp_at, perp_market, quote_market, spot_at, Core,
};
use crate::setup::{SetupStep, FUNDED_LAMPORTS};
use crate::signed_msg::{owned_seeds, signed_msg_orders_pda, SignedMessage};
use crate::wire::{ix_data, le, le_len, push_bytes, push_len, push_u16, push_u32, u16_bytes};

verus! {

/// The exchange's answer while it is paused.
pub const E_EXCHANGE_PAUSED: u32 = 6024;

/// The exchange's refusal of a resize.
pub const E_INVALID_SIGNED_MSG_USER_ORDERS_RESIZE: u32 = 6313;

/// Bytes of one slot of the ring.
pub const SLOT_LEN: usize = 40;

// ---------------------------------------------------------------------------
// The ring
// ---------------------------------------------------------------------------

/// So many zero bytes.
pub open spec fn zeros(n: nat) -> Seq<u8> {
    Seq::new(n, |i: int| 0u8)
}

fn zero_bytes(n: usize) -> (r: Vec<u8>)
    ensures
        r@ == zeros(n as nat),
{
    let r: Vec<u8> = vec![0u8; n];
    assert(r@ =~= zeros(n as nat));
    r
}

/// A ring of blank slots: discriminator, owner, padding, the number of slots,
/// then the slots.
pub open spec fn signed_orders(authority: Pubkey, num_orders: u32) -> Seq<u8> {
    A_SIGNED_MSG_USER_ORDERS@ + authority.bytes@ + le(0, 4) + le(num_orders as int, 4) + zeros(
        (num_orders * SLOT_LEN) as nat,
    )
}

pub fn signed_msg_user_orders_bytes(authority: Pubkey, num_orders: u32) -> (r: Vec<u8>)
    requires
        num_orders * SLOT_LEN <= usize::MAX,
    ensures
        r@ == signed_orders(authority, num_orders),
{
    let mut v: Vec<u8> = Vec::new();
    push_bytes(&mut v, A_SIGNED_MSG_USER_ORDERS.as_slice());
    assert(v@ =~= A_SIGNED_MSG_USER_ORDERS@);
    push_key(&mut v, &authority);
    push_u32(&mut v, 0);
    push_u32(&mut v, num_orders);
    let slots = zero_bytes(num_orders as usize * SLOT_LEN);
    push_bytes(&mut v, slots.as_slice());
    v
}

/// The bytes that an account for so many slots takes.
pub open spec fn space(num_orders: int) -> int {
    76 + num_orders * SLOT_LEN
}

pub fn signed_msg_space(num_orders: usize) -> (r: usize)
    requires
        space(num_orders as int) <= usize::MAX,
    ensures
        r == space(num_orders as int),
{
    8 + 32 + 4 + 32 + num_orders * SLOT_LEN
}

/// The ring, padded to the space of its account.
pub open spec fn signed_orders_account(authority: Pubkey, num_orders: u32) -> Seq<u8> {
    signed_orders(authority, num_orders) + zeros(28)
}

/// The data of an account for so many slots.
pub fn signed_msg_account_data(authority: Pubkey, num_orders: u32) -> (r: Vec<u8>)
    requires
        space(num_orders as int) <= usize::MAX,
    ensures
        r@ == signed_orders_account(authority, num_orders),
        r@.len() == space(num_orders as int),
{
    let mut v = signed_msg_user_orders_bytes(authority, num_orders);
    proof {
        le_len(0, 4);
        le_len(num_orders as int, 4);
    }
    let missing: usize = signed_msg_space(num_orders as usize) - v.len();
    let padding = zero_bytes(missing);
    push_bytes(&mut v, padding.as_slice());
    v
}

/// Where the exchange looks for them, an account holds its owner, the number of
/// its slots, and nothing but blank slots.
pub proof fn rings_start_blank(authority: Pubkey, num_orders: u32, i: int)
    requires
        0 <= i < num_orders * SLOT_LEN,
    ensures
        ({
            let data = signed_orders_account(authority, num_orders);
            &&& data.subrange(8, 40) == authority.bytes@
            &&& data.subrange(44, 48) == le(num_orders as int, 4)
            &&& data[48 + i] == 0
        }),
{
    le_len(0, 4);
    le_len(num_orders as int, 4);
    let data = signed_orders_account(authority, num_orders);
    assert(data.subrange(8, 40) =~= authority.bytes@);
    assert(data.subrange(44, 48) =~= le(num_orders as int, 4));
}

// ---------------------------------------------------------------------------
// A delegate that shrinks the ring
// ---------------------------------------------------------------------------

/// The slots that the ring starts with.
pub const INITIAL_ORDERS: u32 = 8;

/// The slots that the delegate would leave it.
pub const SHRINK_TO_ORDERS: u16 = 1;

/// An authority with a ring, and the delegate of one of its accounts.
#[derive(Clone, Copy, PartialEq, Eq, Debug)]
pub struct Regr271Resize {
    pub program_id: Pubkey,
    pub signed_msg_pda: Pubkey,
    pub authority: Pubkey,
    pub user_pda: Pubkey,
    pub delegate: Keypair,
}

/// That scenario, ready to be performed.
#[derive(Debug)]
pub struct SetupResize {
    pub fixture: Regr271Resize,
    pub steps: Vec<SetupStep>,
}

/// A funded delegate, the ring, and the account that names the delegate.
pub open spec fn resize_steps(
    ring: Pubkey,
    user: Pubkey,
    authority: Pubkey,
    delegate: Pubkey,
) -> Seq<SetupStep> {
    seq![
        SetupStep::Fund { key: delegate, lamports: FUNDED_LAMPORTS },
        SetupStep::InjectSignedOrders { at: ring, authority, slots: INITIAL_ORDERS },
        SetupStep::InjectUser {
            at: user,
            user: UserAccount { delegate, ..UserAccount::fresh(authority, 0) },
        },
    ]
}

fn resize_steps_of(
    ring: Pubkey,
    user: Pubkey,
    authority: Pubkey,
    delegate: Pubkey,
) -> (r: Vec<SetupStep>)
    ensures
        r@ == resize_steps(ring, user, authority, delegate),
{
    vec![
        SetupStep::Fund { key: delegate, lamports: FUNDED_LAMPORTS },
        SetupStep::InjectSignedOrders { at: ring, authority, slots: INITIAL_ORDERS },
        SetupStep::InjectUser {
            at: user,
            user: UserAccount { delegate, ..UserAccount::fresh(authority, 0) },
        },
    ]
}

impl Regr271Resize {
    /// Sets the scenario up.
    pub fn setup(program_id: Pubkey, authority: Pubkey, delegate: Keypair) -> (r: Option<SetupResize>)
        ensures
            r is Some <==> derivable(owned_seeds("SIGNED_MSG", authority), program_id) && derivable(
                user_seeds(authority, 0),
                program_id,
            ),
            r matches Some(s) ==> {
                let ring = pda_key(owned_seeds("SIGNED_MSG", authority), program_id);
                let user = pda_key(user_seeds(authority, 0), program_id);
                &&& s.fixture == (Regr271Resize {
                    program_id,
                    signed_msg_pda: ring,
                    authority,
                    user_pda: user,
                    delegate,
                })
                &&& s.steps@ == resize_steps(ring, user, authority, addr(delegate))
            },
    {
        let (ring, _) = signed_msg_orders_pda(&authority, program_id)?;
        let (user, _) = user_pda(&authority, 0, program_id)?;
        Some(
            SetupResize {
                fixture: Regr271Resize {
                    program_id,
                    signed_msg_pda: ring,
                    authority,
                    user_pda: user,
                    delegate,
                },
                steps: resize_steps_of(ring, user, authority, delegate.pubkey()),
            },
        )
    }

    /// The delegate shrinks the ring, paying for it itself.
    pub fn resize_shrink_as_delegate(&self) -> (r: Transaction)
        ensures
            r@ == call(
                self.program_id,
                seq![
                    AccountMeta::new(self.signed_msg_pda, false),
                    AccountMeta::new_readonly(self.authority, false),
                    AccountMeta::new(addr(self.delegate), true),
                    AccountMeta::new_readonly(system_program_id(), false),
                ],
                D_RESIZE_SIGNED_MSG@ + le(SHRINK_TO_ORDERS as int, 2),
                addr(self.delegate),
            ),
    {
        let mut args: Vec<u8> = Vec::new();
        push_u16(&mut args, SHRINK_TO_ORDERS);
        assert(args@ =~= le(SHRINK_TO_ORDERS as int, 2));
        let accounts = vec![
            AccountMeta::new(self.signed_msg_pda, false),
            AccountMeta::new_readonly(self.authority, false),
            AccountMeta::new(self.delegate.pubkey(), true),
            AccountMeta::new_readonly(system_program_id(), false),
        ];
        send(self.program_id, accounts, ix_data(D_RESIZE_SIGNED_MSG, &args), self.delegate.pubkey())
    }
}

/// Whether the exchange refused the delegate.
pub fn regr_271_replay_resize_authority(error_code: Option<u32>) -> (r: bool)
    ensures
        r == (error_code == Some(E_INVALID_SIGNED_MSG_USER_ORDERS_RESIZE)),
{
    match error_code {
        Some(code) => code == E_INVALID_SIGNED_MSG_USER_ORDERS_RESIZE,
        None => false,
    }
}

// ---------------------------------------------------------------------------
// An order on a paused exchange
// ---------------------------------------------------------------------------

/// The number of the message, which reads `regr0271`.
pub const UUID: u64 = 0x3137_3230_7267_6572;

/// The pause of everything.
pub const ALL_PAUSED: u8 = 255;

/// The address of the market's book, which holds nothing.
pub const BOOK_BYTES: [u8; 32] = [
    8, 8, 8, 8, 8, 8, 8, 8, 8, 8, 8, 8, 8, 8, 8, 8, 8, 8, 8, 8, 8, 8, 8, 8, 8, 8, 8, 8, 8, 8, 8, 8,
];

/// A taker with collateral on an exchange that has paused everything.
#[derive(Clone, Copy, PartialEq, Eq, Debug)]
pub struct Regr271Pause {
    pub program_id: Pubkey,
    pub state_pda: Pubkey,
    pub spot_market_pda: Pubkey,
    pub perp_market_pda: Pubkey,
    pub signed_msg_pda: Pubkey,
    pub user_pda: Pubkey,
    pub user_stats_pda: Pubkey,
    pub quoter_slab_pda: Pubkey,
    pub clob_market_pda: Pubkey,
    pub clob_program_id: Pubkey,
    pub authority: Keypair,
}

/// That scenario, ready to be performed.
#[derive(Debug)]
pub struct SetupPause {
    pub fixture: Regr271Pause,
    pub steps: Vec<SetupStep>,
}

/// Where the taker's accounts and the market's quotes live.
#[derive(Clone, Copy, PartialEq, Eq, Debug)]
pub struct TakerAt {
    pub authority: Pubkey,
    pub stats: Pubkey,
    pub user: Pubkey,
    pub ring: Pubkey,
    pub quoter_slab: Pubkey,
    pub quoter_slab_bump: u8,
}

#[verifier::allow_in_spec]
pub fn book_key() -> Pubkey
    returns
        (Pubkey { bytes: BOOK_BYTES }),
{
    Pubkey { bytes: BOOK_BYTES }
}

/// An exchange that has paused everything, a market with a vacant slab of
/// quotes and an empty book, and a taker with a million units of collateral and
/// a ring.
pub open spec fn pause_steps(
    c: Core,
    m: SpotAddresses,
    perp: Pubkey,
    t: TakerAt,
    usdc_mint: Pubkey,
    clob_program: Pubkey,
) -> Seq<SetupStep> {
    seq![
        SetupStep::InjectState {
            at: c.state,
            state: StateAccount::one_market(c.signer, c.signer_nonce, ALL_PAUSED),
        },
        SetupStep::Mint { key: usdc_mint, authority: c.signer, decimals: 6 },
        SetupStep::InjectSpotMarket {
            at: m.market,
            market: SpotMarketAccount::quote(m.market, usdc_mint, m.vault, m.if_vault),
        },
        SetupStep::TokenAccount {
            key: m.vault,
            mint: usdc_mint,
            owner: c.signer,
            amount: 1_000_000_000,
        },
        SetupStep::InjectPerpMarket {
            at: perp,
            market: PerpMarketAccount {
                quoter_slab: t.quoter_slab,
                clob_market: book_key(),
                ..PerpMarketAccount::quoted(perp, 0)
            },
        },
        SetupStep::Fund { key: t.authority, lamports: FUNDED_LAMPORTS },
        SetupStep::InjectStats { at: t.stats, authority: t.authority },
        SetupStep::InjectUser {
            at: t.user,
            user: UserAccount {
                next_order_id: 1,
                spot_side: BalanceType::Deposit,
                spot_balance: 1_000_000_000_000_000,
                ..UserAccount::fresh(t.authority, 0)
            },
        },
        SetupStep::InjectSignedOrders { at: t.ring, authority: t.authority, slots: 8 },
        SetupStep::InjectQuoterSlab {
            at: t.quoter_slab,
            bump: t.quoter_slab_bump,
            clob_market: book_key(),
        },
        SetupStep::EmptyAccount { at: book_key(), owner: clob_program },
    ]
}

fn pause_steps_of(
    c: Core,
    m: SpotAddresses,
    perp: Pubkey,
    t: TakerAt,
    usdc_mint: Pubkey,
    clob_program: Pubkey,
) -> (r: Vec<SetupStep>)
    ensures
        r@ == pause_steps(c, m, perp, t, usdc_mint, clob_program),
{
    vec![
        SetupStep::InjectState {
            at: c.state,
            state: StateAccount::one_market(c.signer, c.signer_nonce, ALL_PAUSED),
        },
        SetupStep::Mint { key: usdc_mint, authority: c.signer, decimals: 6 },
        SetupStep::InjectSpotMarket {
            at: m.market,
            market: SpotMarketAccount::quote(m.market, usdc_mint, m.vault, m.if_vault),
        },
        SetupStep::TokenAccount {
            key: m.vault,
            mint: usdc_mint,
            owner: c.signer,
            amount: 1_000_000_000,
        },
        SetupStep::InjectPerpMarket {
            at: perp,
            market: PerpMarketAccount {
                quoter_slab: t.quoter_slab,
                clob_market: book_key(),
                ..PerpMarketAccount::quoted(perp, 0)
            },
        },
        SetupStep::Fund { key: t.authority, lamports: FUNDED_LAMPORTS },
        SetupStep::InjectStats { at: t.stats, authority: t.authority },
        SetupStep::InjectUser {
            at: t.user,
            user: UserAccount {
                next_order_id: 1,
                spot_side: BalanceType::Deposit,
                spot_balance: 1_000_000_000_000_000,
                ..UserAccount::fresh(t.authority, 0)
            },
        },
        SetupStep::InjectSignedOrders { at: t.ring, authority: t.authority, slots: 8 },
        SetupStep::InjectQuoterSlab {
            at: t.quoter_slab,
            bump: t.quoter_slab_bump,
            clob_market: book_key(),
        },
        SetupStep::EmptyAccount { at: book_key(), owner: clob_program },
    ]
}

pub open spec fn taker_at(authority: Pubkey, program: Pubkey) -> TakerAt {
    TakerAt {
        authority,
        stats: pda_key(stats_seeds(authority), program),
        user: pda_key(user_seeds(authority, 0), program),
        ring: pda_key(owned_seeds("SIGNED_MSG", authority), program),
        quoter_slab: pda_key(indexed("quoter_slab", 0), program),
        quoter_slab_bump: (crate::keys::program_address(indexed("quoter_slab", 0), program)->0).1,
    }
}

pub open spec fn taker_derivable(authority: Pubkey, program: Pubkey) -> bool {
    derivable(stats_seeds(authority), program) && derivable(user_seeds(authority, 0), program)
        && derivable(owned_seeds("SIGNED_MSG", authority), program) && derivable(
        indexed("quoter_slab", 0),
        program,
    )
}

fn derive_taker(authority: Pubkey, program: Pubkey) -> (r: Option<TakerAt>)
    ensures
        r is Some <==> taker_derivable(authority, program),
        r matches Some(t) ==> t == taker_at(authority, program),
{
    let (stats, _) = stats_pda(&authority, program)?;
    let (user, _) = user_pda(&authority, 0, program)?;
    let (ring, _) = signed_msg_orders_pda(&authority, program)?;
    let (quoter_slab, quoter_slab_bump) = pda2("quoter_slab", u16_bytes(0), program)?;
    Some(TakerAt { authority, stats, user, ring, quoter_slab, quoter_slab_bump })
}

/// What the taker signs: a market buy of one unit with a short auction.
pub open spec fn paused_message(sub_account_id: u16, slot: u64) -> SignedMessage {
    SignedMessage {
        params: OrderParams {
            auction_duration: Some(10),
            auction_start_price: Some(1_000_000),
            auction_end_price: Some(1_010_000),
            ..OrderParams::perp(OrderType::Market, PositionDirection::Long, 1_000_000_000, 0)
        },
        sub_account_id,
        slot,
        uuid: UUID,
        take_profit: None,
        stop_loss: None,
        max_margin_ratio: None,
    }
}

pub fn message_to_sign(sub_account_id: u16, slot: u64) -> (r: SignedMessage)
    ensures
        r == paused_message(sub_account_id, slot),
{
    SignedMessage {
        params: OrderParams {
            auction_duration: Some(10),
            auction_start_price: Some(1_000_000),
            auction_end_price: Some(1_010_000),
            ..OrderParams::perp(OrderType::Market, PositionDirection::Long, 1_000_000_000, 0)
        },
        sub_account_id,
        slot,
        uuid: UUID,
        take_profit: None,
        stop_loss: None,
        max_margin_ratio: None,
    }
}

/// Signs and frames a message, given in its encoding; with the low sixteen bits
/// of its payload's length.
pub fn build_envelope(signer: &Keypair, message: &Vec<u8>) -> (r: (Vec<u8>, u16))
    ensures
        r.0@ == order_envelope(*signer, message@),
        r.1 == order_payload(message@).len() % 65_536,
{
    let envelope = build_signed_msg_envelope(signer, message);
    let size: u16 = ((envelope.len() - PAYLOAD_OFFSET as usize) % 65_536) as u16;
    (envelope, size)
}

impl Regr271Pause {
    /// Sets the scenario up; the book belongs to `clob_program_id`.
    pub fn setup(
        program_id: Pubkey,
        usdc_mint: Pubkey,
        authority: Keypair,
        clob_program_id: Pubkey,
    ) -> (r: Option<SetupPause>)
        ensures
            r is Some <==> core_derivable(program_id) && SpotAddresses::all_derivable(
                0,
                program_id,
            ) && derivable(indexed("perp_market", 0), program_id) && taker_derivable(
                addr(authority),
                program_id,
            ),
            r matches Some(s) ==> {
                let c = core_at(program_id);
                let m = spot_at(0, program_id);
                let t = taker_at(addr(authority), program_id);
                &&& s.fixture == (Regr271Pause {
                    program_id,
                    state_pda: c.state,
                    spot_market_pda: m.market,
                    perp_market_pda: perp_at(program_id),
                    signed_msg_pda: t.ring,
                    user_pda: t.user,
                    user_stats_pda: t.stats,
                    quoter_slab_pda: t.quoter_slab,
                    clob_market_pda: book_key(),
                    clob_program_id,
                    authority,
                })
                &&& s.steps@ == pause_steps(
                    c,
                    m,
                    perp_at(program_id),
                    t,
                    usdc_mint,
                    clob_program_id,
                )
            },
    {
        let c = derive_core(program_id)?;
        let m = quote_market(program_id)?;
        let perp = perp_market(program_id)?;
        let t = derive_taker(authority.pubkey(), program_id)?;
        Some(
            SetupPause {
                fixture: Regr271Pause {
                    program_id,
                    state_pda: c.state,
                    spot_market_pda: m.market,
                    perp_market_pda: perp,
                    signed_msg_pda: t.ring,
                    user_pda: t.user,
                    user_stats_pda: t.stats,
                    quoter_slab_pda: t.quoter_slab,
                    clob_market_pda: book_key(),
                    clob_program_id,
                    authority,
                },
                steps: pause_steps_of(c, m, perp, t, usdc_mint, clob_program_id),
            },
        )
    }

    /// Places the taker's order, given in its encoding, which carries its own
    /// signature. The taker fills it itself.
    pub fn place_while_paused(&self, message: &Vec<u8>) -> (r: Transaction)
        ensures
            r@ == call(
                self.program_id,
                seq![
                    AccountMeta::new_readonly(self.state_pda, false),
                    AccountMeta::new(self.user_pda, false),
                    AccountMeta::new(self.user_stats_pda, false),
                    AccountMeta::new(self.signed_msg_pda, false),
                    AccountMeta::new_readonly(addr(self.authority), true),
                    AccountMeta::new_readonly(instructions_sysvar_id(), false),
                    AccountMeta::new(self.user_pda, false),
                    AccountMeta::new(self.user_stats_pda, false),
                    AccountMeta::new_readonly(self.quoter_slab_pda, false),
                    AccountMeta::new(self.clob_market_pda, false),
                    AccountMeta::new_readonly(self.clob_program_id, false),
                    AccountMeta::new(self.spot_market_pda, false),
                    AccountMeta::new(self.perp_market_pda, false),
                ],
                relayed(
                    D_PLACE_SIGNED_MSG_TAKER@,
                    order_envelope(self.authority, message@),
                    seq![0u8, 0u8],
                ),
                addr(self.authority),
            ),
    {
        let (envelope, _) = build_envelope(&self.authority, message);
        let mut args: Vec<u8> = Vec::new();
        push_len(&mut args, envelope.len(), 4);
        assert(args@ =~= le(envelope@.len() as int, 4));
        push_bytes(&mut args, envelope.as_slice());
        let flags: Vec<u8> = vec![0, 0];
        assert(flags@ =~= seq![0u8, 0u8]);
        push_bytes(&mut args, flags.as_slice());
        let accounts = vec![
            AccountMeta::new_readonly(self.state_pda, false),
            AccountMeta::new(self.user_pda, false),
            AccountMeta::new(self.user_stats_pda, false),
            AccountMeta::new(self.signed_msg_pda, false),
            AccountMeta::new_readonly(self.authority.pubkey(), true),
            AccountMeta::new_readonly(instructions_sysvar_id(), false),
            AccountMeta::new(self.user_pda, false),
            AccountMeta::new(self.user_stats_pda, false),
            AccountMeta::new_readonly(self.quoter_slab_pda, false),
            AccountMeta::new(self.clob_market_pda, false),
            AccountMeta::new_readonly(self.clob_program_id, false),
            AccountMeta::new(self.spot_market_pda, false),
            AccountMeta::new(self.perp_market_pda, false),
        ];
        send(
            self.program_id,
            accounts,
            ix_data(D_PLACE_SIGNED_MSG_TAKER, &args),
            self.authority.pubkey(),
        )
    }
}

/// Whether the exchange answered that it is paused.
pub fn regr_271_signed_msg_taker_pause(error_code: Option<u32>) -> (r: bool)
    ensures
        r == (error_code == Some(E_EXCHANGE_PAUSED)),
{
    match error_code {
        Some(code) => code == E_EXCHANGE_PAUSED,
        None => false,
    }
}

} // verus!
