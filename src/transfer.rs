//! Asset transfer adapter: the movements of funds and the account creations
//! that an instruction asks the ledger to perform once its checks pass.

use crate::account::AccountView;
use crate::key::Key;
use vstd::prelude::*;

verus! {

/// A movement of `amount` units from `source` to `destination`, in the native
/// unit or through the token ledger, authorised by `authority`; `vault_signed`
/// marks a movement out of a vault, signed by the derived vault authority.
#[derive(Debug, Copy, Clone)]
pub struct Transfer {
    pub is_native: bool,
    pub source: Key,
    pub destination: Key,
    pub authority: Key,
    pub amount: u64,
    pub vault_signed: bool,
}

/// Describes the transfer of `amount` from `source` to `destination`.
pub fn transfer(
    is_native: bool,
    source: &AccountView,
    destination: &AccountView,
    authority: &AccountView,
    amount: u64,
    vault_signed: bool,
) -> (r: Transfer)
    ensures
        r == (Transfer {
            is_native,
            source: source.key,
            destination: destination.key,
            authority: authority.key,
            amount,
            vault_signed,
        }),
{
    Transfer {
        is_native,
        source: source.key,
        destination: destination.key,
        authority: authority.key,
        amount,
        vault_signed,
    }
}

/// A request to create a program-owned account of `space` bytes at `address`,
/// funded with `lamports` more by the payer.
#[derive(Debug, Copy, Clone)]
pub struct Allocation {
    pub address: Key,
    pub owner: Key,
    pub lamports: u64,
    pub space: u64,
}

/// What must be added to a balance of `current` to reach `minimum`, itself
/// raised to at least one unit.
pub open spec fn required_lamports(minimum: u64, current: u64) -> u64 {
    let target: int = if minimum >= 1 { minimum as int } else { 1 };
    if target > current {
        (target - current) as u64
    } else {
        0
    }
}

/// Asks for a new account of `size` bytes owned by `program_id` at the
/// address of `new_account`, topping its balance up to the rent-exempt
/// `minimum_balance` (at least one unit).
pub fn create_new_account_raw(
    program_id: &Key,
    new_account: &AccountView,
    minimum_balance: u64,
    size: usize,
) -> (r: Allocation)
    requires
        size <= u64::MAX,
    ensures
        r == (Allocation {
            address: new_account.key,
            owner: *program_id,
            lamports: required_lamports(minimum_balance, new_account.lamports),
            space: size as u64,
        }),
{
    let target: u64 = if minimum_balance >= 1 { minimum_balance } else { 1 };
    let lamports: u64 = target.saturating_sub(new_account.lamports);
    Allocation { address: new_account.key, owner: *program_id, lamports, space: size as u64 }
}

} // verus!
