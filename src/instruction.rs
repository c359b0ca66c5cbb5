//! Instruction arguments and the tagged set of operations.

use crate::key::Key;
use vstd::prelude::*;

verus! {

/// Arguments of a one-shot deposit.
#[derive(Debug, Copy, Clone)]
pub struct DepositArgs {
    pub amount: u64,
    pub fee_bps: u16,
    pub key: Key,
    pub bump: u8,
}

/// Arguments of a one-shot withdrawal.
#[derive(Debug, Copy, Clone)]
pub struct WithdrawArgs {
    pub amount: u64,
    pub fee_bps: u16,
    pub key: Key,
    pub bump: u8,
    pub fixed_fee: u64,
}

/// Arguments of a generic funding.
#[derive(Debug, Copy, Clone)]
pub struct FundingArgs {
    pub amount: u64,
    pub fee_bps: u16,
    pub key: Key,
    pub bump: u8,
}

/// Arguments of escrow creation.
#[derive(Debug, Copy, Clone, PartialEq, Eq, Structural)]
pub struct InitEscrowArgs {
    pub amount: u64,
    pub fee_bps: u16,
    pub fixed_fee: u64,
    pub bump: u8,
}

/// The operations the program performs.
#[derive(Debug, Copy, Clone)]
pub enum CardInstruction {
    InitDeposit(DepositArgs),
    InitWithdrawal(WithdrawArgs),
    InitEscrow(InitEscrowArgs),
    Settle,
    Cancel,
    Close,
}

} // verus!
