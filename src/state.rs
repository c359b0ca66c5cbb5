//! Durable records: the escrow record with its lifecycle state, and the
//! one-flag receipts left by the deposit, withdraw and funding flows.

use crate::key::Key;
use vstd::prelude::*;

verus! {

/// Size in bytes of a receipt record: a single initialization flag.
pub const FLAG_ACCOUNT_SIZE: usize = 1;

/// Size in bytes of a stored escrow record: the state tag, the amounts and fee
/// schedule, seven keys, the bump and an optional timestamp at its widest.
pub const ESCROW_DATA_SIZE: usize = 253;

/// Something decoded from account data that may or may not have been written yet.
pub trait IsInitialized {
    spec fn initialized_spec(&self) -> bool;

    fn is_initialized(&self) -> (r: bool)
        ensures
            r == self.initialized_spec(),
    ;
}

/// Where an escrow stands in its lifecycle.
#[derive(Debug, Copy, Clone, PartialEq, Eq, Structural)]
pub enum EscrowState {
    Uninitialized,
    Initialized,
    Settled,
    Canceled,
    Closed,
}

/// The rank of a state along the lifecycle; every legal step raises it.
pub open spec fn state_rank(s: EscrowState) -> int {
    match s {
        EscrowState::Uninitialized => 0,
        EscrowState::Initialized => 1,
        EscrowState::Settled => 2,
        EscrowState::Canceled => 2,
        EscrowState::Closed => 3,
    }
}

/// The escrow record: a single custody-and-release agreement.
#[derive(Debug, Copy, Clone)]
pub struct Escrow {
    pub state: EscrowState,
    pub amount: u64,
    pub fee_bps: u16,
    pub fixed_fee: u64,
    pub src_token: Key,
    pub dst_token: Key,
    pub vault_token: Key,
    pub fee_token: Key,
    pub mint: Key,
    pub authority: Key,
    pub vault_bump: u8,
    pub reference: Key,
    pub settled_at: Option<u64>,
}

impl Escrow {
    /// Seed tag that separates escrow addresses from the other derived addresses.
    pub const PREFIX: &'static str = "escrow";

    /// An empty record, as read from freshly allocated storage.
    pub fn empty() -> (r: Escrow)
        ensures
            r.state == EscrowState::Uninitialized,
            r.amount == 0,
            r.fee_bps == 0,
            r.fixed_fee == 0,
            r.vault_bump == 0,
            r.settled_at is None,
            r.src_token@ == Seq::new(32, |i: int| 0u8),
    {
        let z = Key([0u8; 32]);
        proof {
            assert(z@ =~= Seq::new(32, |i: int| 0u8));
        }
        Escrow {
            state: EscrowState::Uninitialized,
            amount: 0,
            fee_bps: 0,
            fixed_fee: 0,
            src_token: z,
            dst_token: z,
            vault_token: z,
            fee_token: z,
            mint: z,
            authority: z,
            vault_bump: 0,
            reference: z,
            settled_at: None,
        }
    }

    /// Funds are held and awaiting settlement or cancellation.
    pub fn is_pending(&self) -> (r: bool)
        ensures
            r == (self.state == EscrowState::Initialized),
    {
        self.state == EscrowState::Initialized
    }

    /// The funds went to the destination and the fee account.
    pub fn is_settled(&self) -> (r: bool)
        ensures
            r == (self.state == EscrowState::Settled),
    {
        self.state == EscrowState::Settled
    }

    /// The funds went back to the source.
    pub fn is_canceled(&self) -> (r: bool)
        ensures
            r == (self.state == EscrowState::Canceled),
    {
        self.state == EscrowState::Canceled
    }

    /// The record is finished and its vault released.
    pub fn is_closed(&self) -> (r: bool)
        ensures
            r == (self.state == EscrowState::Closed),
    {
        self.state == EscrowState::Closed
    }
}

impl IsInitialized for Escrow {
    open spec fn initialized_spec(&self) -> bool {
        self.state != EscrowState::Uninitialized
    }

    fn is_initialized(&self) -> (r: bool) {
        self.state != EscrowState::Uninitialized
    }
}

/// Receipt of a one-shot deposit.
#[derive(Debug, Copy, Clone, PartialEq, Eq, Structural)]
pub struct Deposit {
    pub is_initialized: bool,
}

impl Deposit {
    /// Seed tag of deposit receipts.
    pub const PREFIX: &'static str = "deposit";
}

impl IsInitialized for Deposit {
    open spec fn initialized_spec(&self) -> bool {
        self.is_initialized
    }

    fn is_initialized(&self) -> (r: bool) {
        self.is_initialized
    }
}

/// Receipt of a one-shot withdrawal.
#[derive(Debug, Copy, Clone, PartialEq, Eq, Structural)]
pub struct Withdraw {
    pub is_initialized: bool,
}

impl Withdraw {
    /// Seed tag of withdrawal receipts.
    pub const PREFIX: &'static str = "withdraw";
}

impl IsInitialized for Withdraw {
    open spec fn initialized_spec(&self) -> bool {
        self.is_initialized
    }

    fn is_initialized(&self) -> (r: bool) {
        self.is_initialized
    }
}

/// Receipt of a generic funding.
#[derive(Debug, Copy, Clone, PartialEq, Eq, Structural)]
pub struct Funding {
    pub is_initialized: bool,
}

impl Funding {
    /// Seed tag of funding receipts.
    pub const PREFIX: &'static str = "funding";
}

impl IsInitialized for Funding {
    open spec fn initialized_spec(&self) -> bool {
        self.is_initialized
    }

    fn is_initialized(&self) -> (r: bool) {
        self.is_initialized
    }
}

/// Decodes a receipt flag byte: `0` is unset, `1` is set, anything else or a
/// length other than one byte is refused.
pub fn unpack_flag(src: &[u8]) -> (r: Option<bool>)
    ensures
        r == (if src@.len() == FLAG_ACCOUNT_SIZE && src@[0] <= 1 {
            Some(src@[0] == 1)
        } else {
            None
        }),
{
    if src.len() != FLAG_ACCOUNT_SIZE {
        return None;
    }
    let b = src[0];
    if b == 0 {
        Some(false)
    } else if b == 1 {
        Some(true)
    } else {
        None
    }
}

/// Encodes a receipt flag as its single byte.
pub fn pack_flag(flag: bool) -> (r: Vec<u8>)
    ensures
        r@ == seq![if flag { 1u8 } else { 0u8 }],
{
    let b: u8 = if flag { 1 } else { 0 };
    let v: Vec<u8> = vec![b];
    assert(v@ =~= seq![b]);
    v
}

} // verus!
