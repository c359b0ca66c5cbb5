//! Generic funding: of the amount drawn from the user, the part net of the
//! proportional fee goes to the deposit collection and the fee to the fee
//! collection, then a receipt marks the reference as used.

use crate::account::{
    assert_account_key, assert_empty_slot, assert_signer, check_held_endpoint, first_err, gate,
    held_endpoint_gate, key_gate, signer_gate, slot_occupied, AccountView,
};
use crate::config::Config;
use crate::error::CardError;
use crate::fee::{calculate_amount_less_fee, calculate_fee, checked_u64, fee_of};
use crate::instruction::FundingArgs;
use crate::processor::{
    receipt_address_gate, receipt_allocation, reserve_receipt, ReceiptOutcome,
};
use crate::state::Funding;
use crate::transfer::{transfer, Transfer};
use vstd::prelude::*;
use vstd::string::StringSliceAdditionalSpecFns;

verus! {

/// The accounts of a funding, in their wire order.
#[derive(Debug, Clone)]
pub struct FundingAccounts {
    pub user: AccountView,
    pub authority: AccountView,
    pub payer: AccountView,
    pub funding: AccountView,
    pub source_token: AccountView,
    pub collection_token: AccountView,
    pub collection_fee_token: AccountView,
    pub mint: AccountView,
}

/// The gates of a funding, in the order they are checked.
pub open spec fn funding_gate(cfg: Config, a: FundingAccounts, args: FundingArgs) -> Result<
    (),
    CardError,
> {
    first_err(
        signer_gate(a.user),
        first_err(
            signer_gate(a.authority),
            first_err(
                key_gate(a.authority, cfg.authority@, CardError::InvalidAuthorityId),
                first_err(
                    gate(!slot_occupied(a.funding), CardError::AccountAlreadyInitialized),
                    first_err(
                        held_endpoint_gate(
                            a.source_token,
                            cfg.token_program@,
                            a.mint.key@,
                            a.user.key@,
                        ),
                        first_err(
                            held_endpoint_gate(
                                a.collection_token,
                                cfg.token_program@,
                                a.mint.key@,
                                cfg.deposit_collector@,
                            ),
                            first_err(
                                held_endpoint_gate(
                                    a.collection_fee_token,
                                    cfg.token_program@,
                                    a.mint.key@,
                                    cfg.fee_collector@,
                                ),
                                first_err(
                                    gate(
                                        checked_u64(fee_of(args.amount as int, args.fee_bps as int))
                                            is Ok && fee_of(args.amount as int, args.fee_bps as int)
                                            <= args.amount,
                                        CardError::MathOverflow,
                                    ),
                                    receipt_address_gate(
                                        cfg,
                                        a.funding,
                                        args.key,
                                        Funding::PREFIX.spec_bytes(),
                                        args.bump,
                                    ),
                                ),
                            ),
                        ),
                    ),
                ),
            ),
        ),
    )
}

/// A token transfer out of the user's source account, signed by the user.
pub open spec fn funding_transfer(a: FundingAccounts, to: AccountView, amount: u64) -> Transfer {
    Transfer {
        is_native: false,
        source: a.source_token.key,
        destination: to.key,
        authority: a.user.key,
        amount,
        vault_signed: false,
    }
}

/// What a funding returns: the first failing gate, or the amount net of the
/// fee going to the collection, the fee going to the fee collection, and the
/// receipt's allocation.
pub open spec fn funding_result(
    cfg: Config,
    a: FundingAccounts,
    args: FundingArgs,
    rent_minimum: u64,
) -> Result<ReceiptOutcome, CardError> {
    match funding_gate(cfg, a, args) {
        Err(e) => Err(e),
        Ok(_) => {
            let fee = fee_of(args.amount as int, args.fee_bps as int);
            Ok(
                ReceiptOutcome {
                    principal: Some(
                        funding_transfer(a, a.collection_token, (args.amount - fee) as u64),
                    ),
                    fee: Some(funding_transfer(a, a.collection_fee_token, fee as u64)),
                    allocation: receipt_allocation(cfg, a.funding, rent_minimum),
                },
            )
        },
    }
}

/// Processes a funding; `rent_minimum` is what the receipt's storage must hold.
pub fn init(cfg: &Config, accounts: &FundingAccounts, args: &FundingArgs, rent_minimum: u64) -> (r:
    Result<ReceiptOutcome, CardError>)
    ensures
        r == funding_result(*cfg, *accounts, *args, rent_minimum),
{
    let a = accounts;
    assert_signer(&a.user)?;
    assert_signer(&a.authority)?;
    assert_account_key(&a.authority, &cfg.authority, Some(CardError::InvalidAuthorityId))?;
    assert_empty_slot(&a.funding)?;
    check_held_endpoint(&a.source_token, &cfg.token_program, &a.mint.key, &a.user.key)?;
    check_held_endpoint(
        &a.collection_token,
        &cfg.token_program,
        &a.mint.key,
        &cfg.deposit_collector,
    )?;
    check_held_endpoint(
        &a.collection_fee_token,
        &cfg.token_program,
        &a.mint.key,
        &cfg.fee_collector,
    )?;
    let fee = calculate_fee(args.amount, args.fee_bps as u64)?;
    let amount = calculate_amount_less_fee(args.amount, args.fee_bps as u64)?;
    let allocation = reserve_receipt(
        cfg,
        &a.funding,
        &args.key,
        Funding::PREFIX,
        args.bump,
        rent_minimum,
    )?;
    let principal = transfer(false, &a.source_token, &a.collection_token, &a.user, amount, false);
    let fee_transfer = transfer(false, &a.source_token, &a.collection_fee_token, &a.user, fee, false);
    Ok(ReceiptOutcome { principal: Some(principal), fee: Some(fee_transfer), allocation })
}

/// A funding under a reference succeeds at most once. The receipt it allocates
/// leaves its slot with a balance and data; the same instruction sent again, by
/// the same signers against that slot, fails with `AccountAlreadyInitialized`
/// and moves nothing.
pub proof fn lemma_funding_once(
    cfg: Config,
    a: FundingAccounts,
    args: FundingArgs,
    rent_minimum: u64,
    again: FundingAccounts,
)
    requires
        funding_result(cfg, a, args, rent_minimum) is Ok,
        again.user == a.user,
        again.authority == a.authority,
        again.funding.lamports == a.funding.lamports + funding_result(
            cfg,
            a,
            args,
            rent_minimum,
        )->Ok_0.allocation.lamports,
        again.funding.data@.len() == funding_result(cfg, a, args, rent_minimum)->Ok_0.allocation.space,
    ensures
        funding_result(cfg, again, args, rent_minimum) == Err::<ReceiptOutcome, CardError>(
            CardError::AccountAlreadyInitialized,
        ),
{
}

} // verus!
