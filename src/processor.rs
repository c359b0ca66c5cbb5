//! Instruction handlers, and the guarded allocation that every creation path
//! shares: derive the address, check the slot is empty, then allocate.

pub mod deposit;
pub mod escrow;
pub mod funding;
pub mod withdraw;

use crate::account::{assert_empty_slot, first_err, gate, slot_occupied, AccountView};
use crate::address::{find_record_address, program_address_of, record_seeds};
use crate::config::Config;
use crate::error::CardError;
use crate::key::Key;
use crate::state::FLAG_ACCOUNT_SIZE;
use crate::transfer::{create_new_account_raw, required_lamports, Allocation, Transfer};
use vstd::prelude::*;
use vstd::string::StringSliceAdditionalSpecFns;

verus! {

/// What a one-shot flow does: its transfers, none where it moves nothing, and
/// the allocation of its receipt.
#[derive(Debug, Copy, Clone)]
pub struct ReceiptOutcome {
    pub principal: Option<Transfer>,
    pub fee: Option<Transfer>,
    pub allocation: Allocation,
}

/// The address and bump of the receipt kept under `reference` with `tag`.
pub open spec fn receipt_address_of(program_id: Seq<u8>, reference: Seq<u8>, tag: Seq<u8>) -> Option<
    (Seq<u8>, u8),
> {
    program_address_of(record_seeds(program_id, reference, tag), program_id)
}

/// Fails with `InvalidArgument` unless the slot's key and `bump` are the
/// receipt address kept under `reference`.
pub open spec fn receipt_address_gate(
    cfg: Config,
    slot: AccountView,
    reference: Key,
    tag: Seq<u8>,
    bump: u8,
) -> Result<(), CardError> {
    gate(
        receipt_address_of(cfg.program_id@, reference@, tag) == Some((slot.key@, bump)),
        CardError::InvalidArgument,
    )
}

/// The receipt allocation: one flag byte at the slot, funded up to `rent_minimum`.
pub open spec fn receipt_allocation(cfg: Config, slot: AccountView, rent_minimum: u64) -> Allocation {
    Allocation {
        address: slot.key,
        owner: cfg.program_id,
        lamports: required_lamports(rent_minimum, slot.lamports),
        space: FLAG_ACCOUNT_SIZE as u64,
    }
}

/// Reserves the receipt slot kept under `reference` with `tag`: fails with
/// `InvalidArgument` unless the slot is at the computed address with `bump`,
/// with `AccountAlreadyInitialized` when it is already occupied.
pub fn reserve_receipt(
    cfg: &Config,
    slot: &AccountView,
    reference: &Key,
    tag: &str,
    bump: u8,
    rent_minimum: u64,
) -> (r: Result<Allocation, CardError>)
    ensures
        r == (match first_err(
            receipt_address_gate(*cfg, *slot, *reference, tag.spec_bytes(), bump),
            gate(!slot_occupied(*slot), CardError::AccountAlreadyInitialized),
        ) {
            Err(e) => Err(e),
            Ok(_) => Ok(receipt_allocation(*cfg, *slot, rent_minimum)),
        }),
{
    match find_record_address(&cfg.program_id, reference, tag) {
        Some((k, b)) => {
            if !(k.same(&slot.key) && b == bump) {
                return Err(CardError::InvalidArgument);
            }
        },
        None => {
            return Err(CardError::InvalidArgument);
        },
    }
    assert_empty_slot(slot)?;
    Ok(create_new_account_raw(&cfg.program_id, slot, rent_minimum, FLAG_ACCOUNT_SIZE))
}

} // verus!
