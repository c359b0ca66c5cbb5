//! One-shot deposit: the user's principal goes to the deposit collection and
//! the fee to the fee collection, then a receipt marks the reference as used.

use crate::account::{
    assert_account_key, assert_empty_slot, assert_signer, check_held_endpoint, first_err, gate,
    held_endpoint_gate, key_gate, signer_gate, slot_occupied, AccountView,
};
use crate::config::Config;
use crate::error::CardError;
use crate::fee::{calculate_fee, checked_u64, fee_of};
use crate::instruction::DepositArgs;
use crate::processor::{
    receipt_address_gate, receipt_allocation, reserve_receipt, ReceiptOutcome,
};
use crate::state::Deposit;
use crate::transfer::{transfer, Transfer};
use vstd::prelude::*;
use vstd::string::StringSliceAdditionalSpecFns;

verus! {

/// The accounts of a deposit, in their wire order.
#[derive(Debug, Clone)]
pub struct DepositAccounts {
    pub user: AccountView,
    pub authority: AccountView,
    pub payer: AccountView,
    pub deposit: AccountView,
    pub source_token: AccountView,
    pub collection_token: AccountView,
    pub collection_fee_token: AccountView,
    pub mint: AccountView,
}

/// The gates of a deposit, in the order they are checked.
pub open spec fn deposit_gate(cfg: Config, a: DepositAccounts, args: DepositArgs) -> Result<
    (),
    CardError,
> {
    first_err(
        signer_gate(a.user),
        first_err(
            signer_gate(a.authority),
            first_err(
                key_gate(a.authority, cfg.authority@, CardError::InvalidAuthorityId),
                first_err(
                    gate(!slot_occupied(a.deposit), CardError::AccountAlreadyInitialized),
                    first_err(
                        held_endpoint_gate(
                            a.source_token,
                            cfg.token_program@,
                            a.mint.key@,
                            a.user.key@,
                        ),
                        first_err(
                            held_endpoint_gate(
                                a.collection_token,
                                cfg.token_program@,
                                a.mint.key@,
                                cfg.deposit_collector@,
                            ),
                            first_err(
                                held_endpoint_gate(
                                    a.collection_fee_token,
                                    cfg.token_program@,
                                    a.mint.key@,
                                    cfg.fee_collector@,
                                ),
                                first_err(
                                    gate(
                                        checked_u64(fee_of(args.amount as int, args.fee_bps as int))
                                            is Ok,
                                        CardError::MathOverflow,
                                    ),
                                    receipt_address_gate(
                                        cfg,
                                        a.deposit,
                                        args.key,
                                        Deposit::PREFIX.spec_bytes(),
                                        args.bump,
                                    ),
                                ),
                            ),
                        ),
                    ),
                ),
            ),
        ),
    )
}

/// A token transfer out of the user's source account, signed by the user.
pub open spec fn user_transfer(a: DepositAccounts, to: AccountView, amount: u64) -> Transfer {
    Transfer {
        is_native: false,
        source: a.source_token.key,
        destination: to.key,
        authority: a.user.key,
        amount,
        vault_signed: false,
    }
}

/// What a deposit returns: the first failing gate, or the principal going to
/// the collection, the proportional fee going to the fee collection, and the
/// receipt's allocation.
pub open spec fn deposit_result(
    cfg: Config,
    a: DepositAccounts,
    args: DepositArgs,
    rent_minimum: u64,
) -> Result<ReceiptOutcome, CardError> {
    match deposit_gate(cfg, a, args) {
        Err(e) => Err(e),
        Ok(_) => Ok(
            ReceiptOutcome {
                principal: Some(user_transfer(a, a.collection_token, args.amount)),
                fee: Some(
                    user_transfer(
                        a,
                        a.collection_fee_token,
                        fee_of(args.amount as int, args.fee_bps as int) as u64,
                    ),
                ),
                allocation: receipt_allocation(cfg, a.deposit, rent_minimum),
            },
        ),
    }
}

/// Processes a deposit; `rent_minimum` is what the receipt's storage must hold.
pub fn init(cfg: &Config, accounts: &DepositAccounts, args: &DepositArgs, rent_minimum: u64) -> (r:
    Result<ReceiptOutcome, CardError>)
    ensures
        r == deposit_result(*cfg, *accounts, *args, rent_minimum),
{
    let a = accounts;
    assert_signer(&a.user)?;
    assert_signer(&a.authority)?;
    assert_account_key(&a.authority, &cfg.authority, Some(CardError::InvalidAuthorityId))?;
    assert_empty_slot(&a.deposit)?;
    check_held_endpoint(&a.source_token, &cfg.token_program, &a.mint.key, &a.user.key)?;
    check_held_endpoint(
        &a.collection_token,
        &cfg.token_program,
        &a.mint.key,
        &cfg.deposit_collector,
    )?;
    check_held_endpoint(
        &a.collection_fee_token,
        &cfg.token_program,
        &a.mint.key,
        &cfg.fee_collector,
    )?;
    let fee = calculate_fee(args.amount, args.fee_bps as u64)?;
    let allocation = reserve_receipt(
        cfg,
        &a.deposit,
        &args.key,
        Deposit::PREFIX,
        args.bump,
        rent_minimum,
    )?;
    let principal = transfer(false, &a.source_token, &a.collection_token, &a.user, args.amount, false);
    let fee_transfer = transfer(false, &a.source_token, &a.collection_fee_token, &a.user, fee, false);
    Ok(ReceiptOutcome { principal: Some(principal), fee: Some(fee_transfer), allocation })
}

/// A deposit under a reference succeeds at most once. The receipt it allocates
/// leaves its slot with a balance and data; the same instruction sent again, by
/// the same signers against that slot, fails with `AccountAlreadyInitialized`
/// and moves nothing.
pub proof fn lemma_deposit_once(
    cfg: Config,
    a: DepositAccounts,
    args: DepositArgs,
    rent_minimum: u64,
    again: DepositAccounts,
)
    requires
        deposit_result(cfg, a, args, rent_minimum) is Ok,
        again.user == a.user,
        again.authority == a.authority,
        again.deposit.lamports == a.deposit.lamports + deposit_result(
            cfg,
            a,
            args,
            rent_minimum,
        )->Ok_0.allocation.lamports,
        again.deposit.data@.len() == deposit_result(cfg, a, args, rent_minimum)->Ok_0.allocation.space,
    ensures
        deposit_result(cfg, again, args, rent_minimum) == Err::<ReceiptOutcome, CardError>(
            CardError::AccountAlreadyInitialized,
        ),
{
}

} // verus!
