//! Errors reported by every gate and handler of the library.

use vstd::prelude::*;

verus! {

/// The reason an instruction was refused. The first group are the program's
/// own codes, reported to the ledger as the variant's position, so variants
/// keep their places and new ones go after them (a few early codes are no
/// longer produced). The last group mirrors the runtime's generic failures.
#[derive(Debug, Copy, Clone, PartialEq, Eq, Structural)]
pub enum CardError {
    InvalidOwner,
    InvalidMint,
    InvalidInstruction,
    NotRentExempt,
    ExpectedAmountMismatch,
    InvalidAuthorityId,
    AmountOverflow,
    AccountAlreadySettled,
    AccountAlreadyCanceled,
    FeeOverflow,
    AccountNotSettledOrCanceled,
    AccountNotInitialized,
    MathOverflow,
    InvalidFundingKey,
    InvalidVaultOwner,
    InvalidVaultTokenOwner,
    InvalidSrcTokenOwner,
    InvalidDstTokenOwner,
    InvalidFeeTokenOwner,
    AccountAlreadyClosed,
    /// A required signature is absent.
    MissingRequiredSignature,
    /// The target address already holds a record.
    AccountAlreadyInitialized,
    /// A supplied key differs from the expected one and no specific error applies.
    InvalidArgument,
    /// The account balance is below the rent-exempt minimum.
    AccountNotRentExempt,
    /// Account data could not be decoded.
    InvalidAccountData,
}

} // verus!
