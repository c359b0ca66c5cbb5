//! One-shot withdrawal: the principal goes from the source to the wallet's
//! destination and the whole fee to the fee collection, each only when it is
//! not zero, then a receipt marks the reference as used.

use crate::account::{
    assert_account_key, assert_empty_slot, assert_signer, check_held_endpoint,
    check_token_endpoint, first_err, gate, held_endpoint_gate, key_gate, signer_gate,
    slot_occupied, token_endpoint_gate, AccountView,
};
use crate::config::Config;
use crate::error::CardError;
use crate::fee::{calculate_total_fee, checked_u64, total_fee_of};
use crate::instruction::WithdrawArgs;
use crate::processor::{
    receipt_address_gate, receipt_allocation, reserve_receipt, ReceiptOutcome,
};
use crate::state::Withdraw;
use crate::transfer::{transfer, Transfer};
use vstd::prelude::*;
use vstd::string::StringSliceAdditionalSpecFns;

verus! {

/// The accounts of a withdrawal, in their wire order.
#[derive(Debug, Clone)]
pub struct WithdrawAccounts {
    pub wallet: AccountView,
    pub authority: AccountView,
    pub payer: AccountView,
    pub withdraw: AccountView,
    pub source_token: AccountView,
    pub destination_token: AccountView,
    pub collection_fee_token: AccountView,
    pub mint: AccountView,
}

/// The gates of a withdrawal, in the order they are checked.
pub open spec fn withdraw_gate(cfg: Config, a: WithdrawAccounts, args: WithdrawArgs) -> Result<
    (),
    CardError,
> {
    first_err(
        signer_gate(a.wallet),
        first_err(
            signer_gate(a.authority),
            first_err(
                key_gate(a.authority, cfg.authority@, CardError::InvalidAuthorityId),
                first_err(
                    gate(!slot_occupied(a.withdraw), CardError::AccountAlreadyInitialized),
                    first_err(
                        held_endpoint_gate(
                            a.source_token,
                            cfg.token_program@,
                            a.mint.key@,
                            a.wallet.key@,
                        ),
                        first_err(
                            token_endpoint_gate(a.destination_token, cfg.token_program@, a.mint.key@),
                            first_err(
                                token_endpoint_gate(
                                    a.collection_fee_token,
                                    cfg.token_program@,
                                    a.mint.key@,
                                ),
                                first_err(
                                    gate(
                                        checked_u64(
                                            total_fee_of(
                                                args.amount as int,
                                                args.fee_bps as int,
                                                args.fixed_fee as int,
                                            ),
                                        ) is Ok,
                                        CardError::MathOverflow,
                                    ),
                                    receipt_address_gate(
                                        cfg,
                                        a.withdraw,
                                        args.key,
                                        Withdraw::PREFIX.spec_bytes(),
                                        args.bump,
                                    ),
                                ),
                            ),
                        ),
                    ),
                ),
            ),
        ),
    )
}

/// A token transfer out of the source account, signed by the wallet, made only
/// when it moves something.
pub open spec fn wallet_transfer(a: WithdrawAccounts, to: AccountView, amount: u64) -> Option<
    Transfer,
> {
    if amount > 0 {
        Some(
            Transfer {
                is_native: false,
                source: a.source_token.key,
                destination: to.key,
                authority: a.wallet.key,
                amount,
                vault_signed: false,
            },
        )
    } else {
        None
    }
}

/// What a withdrawal returns: the first failing gate, or the principal going to
/// the destination, the whole fee going to the fee collection (each skipped
/// when zero), and the receipt's allocation.
pub open spec fn withdraw_result(
    cfg: Config,
    a: WithdrawAccounts,
    args: WithdrawArgs,
    rent_minimum: u64,
) -> Result<ReceiptOutcome, CardError> {
    match withdraw_gate(cfg, a, args) {
        Err(e) => Err(e),
        Ok(_) => Ok(
            ReceiptOutcome {
                principal: wallet_transfer(a, a.destination_token, args.amount),
                fee: wallet_transfer(
                    a,
                    a.collection_fee_token,
                    total_fee_of(args.amount as int, args.fee_bps as int, args.fixed_fee as int)
                        as u64,
                ),
                allocation: receipt_allocation(cfg, a.withdraw, rent_minimum),
            },
        ),
    }
}

/// Processes a withdrawal; `rent_minimum` is what the receipt's storage must hold.
pub fn init(cfg: &Config, accounts: &WithdrawAccounts, args: &WithdrawArgs, rent_minimum: u64) -> (r:
    Result<ReceiptOutcome, CardError>)
    ensures
        r == withdraw_result(*cfg, *accounts, *args, rent_minimum),
{
    let a = accounts;
    assert_signer(&a.wallet)?;
    assert_signer(&a.authority)?;
    assert_account_key(&a.authority, &cfg.authority, Some(CardError::InvalidAuthorityId))?;
    assert_empty_slot(&a.withdraw)?;
    check_held_endpoint(&a.source_token, &cfg.token_program, &a.mint.key, &a.wallet.key)?;
    check_token_endpoint(&a.destination_token, &cfg.token_program, &a.mint.key)?;
    check_token_endpoint(&a.collection_fee_token, &cfg.token_program, &a.mint.key)?;
    let fee = calculate_total_fee(args.amount, args.fee_bps as u64, args.fixed_fee)?;
    let allocation = reserve_receipt(
        cfg,
        &a.withdraw,
        &args.key,
        Withdraw::PREFIX,
        args.bump,
        rent_minimum,
    )?;
    let principal = if args.amount > 0 {
        Some(transfer(false, &a.source_token, &a.destination_token, &a.wallet, args.amount, false))
    } else {
        None
    };
    let fee_transfer = if fee > 0 {
        Some(transfer(false, &a.source_token, &a.collection_fee_token, &a.wallet, fee, false))
    } else {
        None
    };
    Ok(ReceiptOutcome { principal, fee: fee_transfer, allocation })
}

/// A withdrawal under a reference succeeds at most once. The receipt it allocates
/// leaves its slot with a balance and data; the same instruction sent again, by
/// the same signers against that slot, fails with `AccountAlreadyInitialized`
/// and moves nothing.
pub proof fn lemma_withdrawal_once(
    cfg: Config,
    a: WithdrawAccounts,
    args: WithdrawArgs,
    rent_minimum: u64,
    again: WithdrawAccounts,
)
    requires
        withdraw_result(cfg, a, args, rent_minimum) is Ok,
        again.wallet == a.wallet,
        again.authority == a.authority,
        again.withdraw.lamports == a.withdraw.lamports + withdraw_result(
            cfg,
            a,
            args,
            rent_minimum,
        )->Ok_0.allocation.lamports,
        again.withdraw.data@.len() == withdraw_result(cfg, a, args, rent_minimum)->Ok_0.allocation.space,
    ensures
        withdraw_result(cfg, again, args, rent_minimum) == Err::<ReceiptOutcome, CardError>(
            CardError::AccountAlreadyInitialized,
        ),
{
}

} // verus!
