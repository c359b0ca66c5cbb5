//! Escrow state machine: creation pulls the principal and fee into a vault,
//! then exactly one of Settle or Cancel releases it, and Close finishes the
//! record. Each handler checks every gate before it produces any effect, and
//! returns the new record together with the transfers the ledger must make.

use crate::account::{
    assert_account_key, assert_empty_slot, assert_initialized, assert_owned_by, assert_signer,
    assert_token_owned_by, assert_uninitialized, check_token_endpoint, first_err, gate, initialized_token_result,
    key_gate, owner_gate, signer_gate, slot_occupied, token_amount, token_endpoint_gate,
    token_owner, AccountView,
};
use crate::address::{
    find_escrow_program_address, find_program_authority, program_address_of,
    record_seeds, vault_authority_of,
};
use crate::config::Config;
use crate::error::CardError;
use crate::fee::{
    calculate_total_fee, calculate_total_with_fee, checked_u64, total_fee_of, total_with_fee_of,
};
use crate::instruction::InitEscrowArgs;
use crate::key::Key;
use crate::state::{state_rank, Escrow, EscrowState, ESCROW_DATA_SIZE};
use crate::transfer::{create_new_account_raw, required_lamports, transfer, Allocation, Transfer};
use vstd::prelude::*;
use vstd::string::StringSliceAdditionalSpecFns;

verus! {

/// Fails, naming the current state, unless the escrow awaits settlement.
pub open spec fn pending_gate(e: Escrow) -> Result<(), CardError> {
    match e.state {
        EscrowState::Initialized => Ok(()),
        EscrowState::Settled => Err(CardError::AccountAlreadySettled),
        EscrowState::Canceled => Err(CardError::AccountAlreadyCanceled),
        EscrowState::Closed => Err(CardError::AccountAlreadyClosed),
        EscrowState::Uninitialized => Err(CardError::AccountNotInitialized),
    }
}

/// Settle and Cancel proceed only from `Initialized`; any other state fails
/// with the error that names it.
pub fn require_pending(escrow: &Escrow) -> (r: Result<(), CardError>)
    ensures
        r == pending_gate(*escrow),
{
    match escrow.state {
        EscrowState::Initialized => Ok(()),
        EscrowState::Settled => Err(CardError::AccountAlreadySettled),
        EscrowState::Canceled => Err(CardError::AccountAlreadyCanceled),
        EscrowState::Closed => Err(CardError::AccountAlreadyClosed),
        EscrowState::Uninitialized => Err(CardError::AccountNotInitialized),
    }
}

/// Fails unless the escrow may be closed: `Settled` or `Canceled`, or also
/// `Initialized` where the deployment allows closing a pending escrow.
pub open spec fn closable_gate(close_pending: bool, e: Escrow) -> Result<(), CardError> {
    match e.state {
        EscrowState::Settled => Ok(()),
        EscrowState::Canceled => Ok(()),
        EscrowState::Initialized => gate(close_pending, CardError::AccountNotSettledOrCanceled),
        EscrowState::Closed => Err(CardError::AccountAlreadyClosed),
        EscrowState::Uninitialized => Err(CardError::AccountNotInitialized),
    }
}

/// Close proceeds only from a state that `closable_gate` accepts.
pub fn require_closable(close_pending: bool, escrow: &Escrow) -> (r: Result<(), CardError>)
    ensures
        r == closable_gate(close_pending, *escrow),
{
    match escrow.state {
        EscrowState::Settled => Ok(()),
        EscrowState::Canceled => Ok(()),
        EscrowState::Initialized => {
            if close_pending {
                Ok(())
            } else {
                Err(CardError::AccountNotSettledOrCanceled)
            }
        },
        EscrowState::Closed => Err(CardError::AccountAlreadyClosed),
        EscrowState::Uninitialized => Err(CardError::AccountNotInitialized),
    }
}

/// Fails with `InvalidVaultOwner` unless `vault_owner` is the program's vault
/// authority derived with `bump`.
pub open spec fn vault_authority_gate(program_id: Seq<u8>, vault_owner: AccountView, bump: u8) -> Result<
    (),
    CardError,
> {
    gate(
        vault_authority_of(program_id) == Some((vault_owner.key@, bump)),
        CardError::InvalidVaultOwner,
    )
}

/// Re-derives the vault authority and checks it against `vault_owner` and the
/// stored `bump`.
fn check_vault_authority(program_id: &Key, vault_owner: &AccountView, bump: u8) -> (r: Result<
    (),
    CardError,
>)
    ensures
        r == vault_authority_gate(program_id@, *vault_owner, bump),
{
    match find_program_authority(program_id) {
        Some((k, b)) => {
            if k.same(&vault_owner.key) && b == bump {
                Ok(())
            } else {
                Err(CardError::InvalidVaultOwner)
            }
        },
        None => Err(CardError::InvalidVaultOwner),
    }
}

/// Whether the escrowed asset is the ledger's native unit.
pub open spec fn is_native_mint(cfg: Config, mint: Key) -> bool {
    mint@ == cfg.native_mint@
}

/// The accounts of a settlement, in their wire order.
#[derive(Debug, Clone)]
pub struct SettleAccounts {
    pub authority: AccountView,
    pub dst_token: AccountView,
    pub fee_token: AccountView,
    pub vault_token: AccountView,
    pub escrow: AccountView,
    pub mint: AccountView,
    pub vault_owner: AccountView,
}

/// What a settlement does: the record it leaves and its two transfers.
#[derive(Debug, Copy, Clone)]
pub struct SettleOutcome {
    pub escrow: Escrow,
    pub to_destination: Transfer,
    pub to_fee: Transfer,
}

/// The gates of a settlement, in the order they are checked.
pub open spec fn settle_gate(cfg: Config, a: SettleAccounts, e: Escrow) -> Result<(), CardError> {
    first_err(
        signer_gate(a.authority),
        first_err(
            owner_gate(a.escrow, cfg.program_id@),
            first_err(
                key_gate(a.authority, e.authority@, CardError::InvalidAuthorityId),
                first_err(
                    pending_gate(e),
                    first_err(
                        key_gate(a.vault_token, e.vault_token@, CardError::InvalidVaultTokenOwner),
                        first_err(
                            key_gate(a.mint, e.mint@, CardError::InvalidMint),
                            first_err(
                                key_gate(a.dst_token, e.dst_token@, CardError::InvalidDstTokenOwner),
                                first_err(
                                    key_gate(
                                        a.fee_token,
                                        e.fee_token@,
                                        CardError::InvalidFeeTokenOwner,
                                    ),
                                    first_err(
                                        vault_authority_gate(
                                            cfg.program_id@,
                                            a.vault_owner,
                                            e.vault_bump,
                                        ),
                                        first_err(
                                            settle_endpoints_gate(cfg, a, e),
                                            gate(
                                                checked_u64(
                                                    total_fee_of(
                                                        e.amount as int,
                                                        e.fee_bps as int,
                                                        e.fixed_fee as int,
                                                    ),
                                                ) is Ok,
                                                CardError::MathOverflow,
                                            ),
                                        ),
                                    ),
                                ),
                            ),
                        ),
                    ),
                ),
            ),
        ),
    )
}

/// For a token escrow, the destination and fee accounts must be initialized
/// token accounts of the escrowed mint.
pub open spec fn settle_endpoints_gate(cfg: Config, a: SettleAccounts, e: Escrow) -> Result<
    (),
    CardError,
> {
    if is_native_mint(cfg, e.mint) {
        Ok(())
    } else {
        first_err(
            token_endpoint_gate(a.dst_token, cfg.token_program@, e.mint@),
            token_endpoint_gate(a.fee_token, cfg.token_program@, e.mint@),
        )
    }
}

/// The record after settlement: state `Settled`, stamped with `now`.
pub open spec fn settled_record(e: Escrow, now: u64) -> Escrow {
    Escrow { state: EscrowState::Settled, settled_at: Some(now), ..e }
}

/// A transfer out of the vault, signed by the vault authority.
pub open spec fn vault_transfer(
    native: bool,
    vault: AccountView,
    to: AccountView,
    vault_owner: AccountView,
    amount: u64,
) -> Transfer {
    Transfer {
        is_native: native,
        source: vault.key,
        destination: to.key,
        authority: vault_owner.key,
        amount,
        vault_signed: true,
    }
}

/// What a settlement returns: the first failing gate, or the settled record
/// with the principal going to the destination and the whole fee, recomputed
/// from the record, going to the fee account.
pub open spec fn settle_result(cfg: Config, a: SettleAccounts, e: Escrow, now: u64) -> Result<
    SettleOutcome,
    CardError,
> {
    match settle_gate(cfg, a, e) {
        Err(err) => Err(err),
        Ok(_) => Ok(
            SettleOutcome {
                escrow: settled_record(e, now),
                to_destination: vault_transfer(
                    is_native_mint(cfg, e.mint),
                    a.vault_token,
                    a.dst_token,
                    a.vault_owner,
                    e.amount,
                ),
                to_fee: vault_transfer(
                    is_native_mint(cfg, e.mint),
                    a.vault_token,
                    a.fee_token,
                    a.vault_owner,
                    total_fee_of(e.amount as int, e.fee_bps as int, e.fixed_fee as int) as u64,
                ),
            },
        ),
    }
}

/// Settles a pending escrow at time `now`.
pub fn process_settlement(cfg: &Config, accounts: &SettleAccounts, escrow: &Escrow, now: u64) -> (r:
    Result<SettleOutcome, CardError>)
    ensures
        r == settle_result(*cfg, *accounts, *escrow, now),
{
    let a = accounts;
    assert_signer(&a.authority)?;
    assert_owned_by(&a.escrow, &cfg.program_id)?;
    assert_account_key(&a.authority, &escrow.authority, Some(CardError::InvalidAuthorityId))?;
    require_pending(escrow)?;
    assert_account_key(&a.vault_token, &escrow.vault_token, Some(CardError::InvalidVaultTokenOwner))?;
    assert_account_key(&a.mint, &escrow.mint, Some(CardError::InvalidMint))?;
    assert_account_key(&a.dst_token, &escrow.dst_token, Some(CardError::InvalidDstTokenOwner))?;
    assert_account_key(&a.fee_token, &escrow.fee_token, Some(CardError::InvalidFeeTokenOwner))?;
    check_vault_authority(&cfg.program_id, &a.vault_owner, escrow.vault_bump)?;
    let is_native = escrow.mint.same(&cfg.native_mint);
    if !is_native {
        check_token_endpoint(&a.dst_token, &cfg.token_program, &escrow.mint)?;
        check_token_endpoint(&a.fee_token, &cfg.token_program, &escrow.mint)?;
    }
    let fee = calculate_total_fee(escrow.amount, escrow.fee_bps as u64, escrow.fixed_fee)?;
    let to_destination = transfer(
        is_native,
        &a.vault_token,
        &a.dst_token,
        &a.vault_owner,
        escrow.amount,
        true,
    );
    let to_fee = transfer(is_native, &a.vault_token, &a.fee_token, &a.vault_owner, fee, true);
    let settled = Escrow { state: EscrowState::Settled, settled_at: Some(now), ..*escrow };
    Ok(SettleOutcome { escrow: settled, to_destination, to_fee })
}

/// The accounts of a cancellation, in their wire order.
#[derive(Debug, Clone)]
pub struct CancelAccounts {
    pub authority: AccountView,
    pub escrow: AccountView,
    pub src_token: AccountView,
    pub vault_token: AccountView,
    pub mint: AccountView,
    pub vault_owner: AccountView,
}

/// What a cancellation does: the record it leaves and its refund.
#[derive(Debug, Copy, Clone)]
pub struct CancelOutcome {
    pub escrow: Escrow,
    pub refund: Transfer,
}

/// The gates of a cancellation, in the order they are checked.
pub open spec fn cancel_gate(cfg: Config, a: CancelAccounts, e: Escrow) -> Result<(), CardError> {
    first_err(
        signer_gate(a.authority),
        first_err(
            owner_gate(a.escrow, cfg.program_id@),
            first_err(
                key_gate(a.authority, e.authority@, CardError::InvalidAuthorityId),
                first_err(
                    pending_gate(e),
                    first_err(
                        key_gate(a.vault_token, e.vault_token@, CardError::InvalidVaultTokenOwner),
                        first_err(
                            key_gate(a.mint, e.mint@, CardError::InvalidMint),
                            first_err(
                                key_gate(a.src_token, e.src_token@, CardError::InvalidSrcTokenOwner),
                                first_err(
                                    vault_authority_gate(cfg.program_id@, a.vault_owner, e.vault_bump),
                                    first_err(
                                        if is_native_mint(cfg, e.mint) {
                                            Ok(())
                                        } else {
                                            token_endpoint_gate(
                                                a.src_token,
                                                cfg.token_program@,
                                                e.mint@,
                                            )
                                        },
                                        gate(
                                            checked_u64(
                                                total_with_fee_of(
                                                    e.amount as int,
                                                    e.fee_bps as int,
                                                    e.fixed_fee as int,
                                                ),
                                            ) is Ok,
                                            CardError::MathOverflow,
                                        ),
                                    ),
                                ),
                            ),
                        ),
                    ),
                ),
            ),
        ),
    )
}

/// What a cancellation returns: the first failing gate, or the canceled record
/// with the principal and the whole fee going back to the source.
pub open spec fn cancel_result(cfg: Config, a: CancelAccounts, e: Escrow) -> Result<
    CancelOutcome,
    CardError,
> {
    match cancel_gate(cfg, a, e) {
        Err(err) => Err(err),
        Ok(_) => Ok(
            CancelOutcome {
                escrow: Escrow { state: EscrowState::Canceled, ..e },
                refund: vault_transfer(
                    is_native_mint(cfg, e.mint),
                    a.vault_token,
                    a.src_token,
                    a.vault_owner,
                    total_with_fee_of(e.amount as int, e.fee_bps as int, e.fixed_fee as int) as u64,
                ),
            },
        ),
    }
}

/// Cancels a pending escrow, refunding the source.
pub fn process_cancel(cfg: &Config, accounts: &CancelAccounts, escrow: &Escrow) -> (r: Result<
    CancelOutcome,
    CardError,
>)
    ensures
        r == cancel_result(*cfg, *accounts, *escrow),
{
    let a = accounts;
    assert_signer(&a.authority)?;
    assert_owned_by(&a.escrow, &cfg.program_id)?;
    assert_account_key(&a.authority, &escrow.authority, Some(CardError::InvalidAuthorityId))?;
    require_pending(escrow)?;
    assert_account_key(&a.vault_token, &escrow.vault_token, Some(CardError::InvalidVaultTokenOwner))?;
    assert_account_key(&a.mint, &escrow.mint, Some(CardError::InvalidMint))?;
    assert_account_key(&a.src_token, &escrow.src_token, Some(CardError::InvalidSrcTokenOwner))?;
    check_vault_authority(&cfg.program_id, &a.vault_owner, escrow.vault_bump)?;
    let is_native = escrow.mint.same(&cfg.native_mint);
    if !is_native {
        check_token_endpoint(&a.src_token, &cfg.token_program, &escrow.mint)?;
    }
    let total = calculate_total_with_fee(escrow.amount, escrow.fee_bps as u64, escrow.fixed_fee)?;
    let refund = transfer(is_native, &a.vault_token, &a.src_token, &a.vault_owner, total, true);
    let canceled = Escrow { state: EscrowState::Canceled, ..*escrow };
    Ok(CancelOutcome { escrow: canceled, refund })
}

/// The accounts of a close, in their wire order.
#[derive(Debug, Clone)]
pub struct CloseAccounts {
    pub authority: AccountView,
    pub escrow: AccountView,
    pub src_token: AccountView,
    pub vault_token: AccountView,
    pub vault_owner: AccountView,
    pub mint: AccountView,
    pub fee_payer: AccountView,
}

/// Release of an emptied token vault: the account is closed and its rent goes
/// to `destination`, signed by the vault authority.
#[derive(Debug, Copy, Clone)]
pub struct VaultRelease {
    pub account: Key,
    pub destination: Key,
    pub authority: Key,
}

/// What a close does: the record it leaves, the sweep of any residue back to
/// the source, and, for a token vault, its release.
#[derive(Debug, Copy, Clone)]
pub struct CloseOutcome {
    pub escrow: Escrow,
    pub sweep: Option<Transfer>,
    pub release: Option<VaultRelease>,
}

/// The gates of a close, in the order they are checked.
pub open spec fn close_gate(cfg: Config, a: CloseAccounts, e: Escrow) -> Result<(), CardError> {
    first_err(
        signer_gate(a.authority),
        first_err(
            owner_gate(a.escrow, cfg.program_id@),
            first_err(
                key_gate(a.authority, e.authority@, CardError::InvalidAuthorityId),
                first_err(
                    closable_gate(cfg.close_pending, e),
                    first_err(
                        key_gate(a.mint, e.mint@, CardError::InvalidMint),
                        first_err(
                            key_gate(a.src_token, e.src_token@, CardError::InvalidSrcTokenOwner),
                            first_err(
                                key_gate(a.vault_token, e.vault_token@, CardError::InvalidVaultTokenOwner),
                                first_err(
                                    vault_authority_gate(cfg.program_id@, a.vault_owner, e.vault_bump),
                                    if is_native_mint(cfg, e.mint) {
                                        key_gate(
                                            a.vault_token,
                                            a.vault_owner.key@,
                                            CardError::InvalidVaultOwner,
                                        )
                                    } else {
                                        first_err(
                                            owner_gate(a.vault_token, cfg.token_program@),
                                            initialized_token_result(a.vault_token.data@),
                                        )
                                    },
                                ),
                            ),
                        ),
                    ),
                ),
            ),
        ),
    )
}

/// What a vault holds above what it must keep: for a native vault, its balance
/// over the rent-exempt minimum; for a token vault, its token balance.
pub open spec fn vault_residue(cfg: Config, a: CloseAccounts, e: Escrow, rent_minimum: u64) -> int {
    if is_native_mint(cfg, e.mint) {
        if a.vault_token.lamports > rent_minimum {
            a.vault_token.lamports - rent_minimum
        } else {
            0
        }
    } else {
        token_amount(a.vault_token.data@)
    }
}

/// What a close returns: the first failing gate, or the closed record, a sweep
/// of the vault's residue to the source when there is any, and the release of
/// a token vault to the fee payer.
pub open spec fn close_result(cfg: Config, a: CloseAccounts, e: Escrow, rent_minimum: u64) -> Result<
    CloseOutcome,
    CardError,
> {
    match close_gate(cfg, a, e) {
        Err(err) => Err(err),
        Ok(_) => {
            let residue = vault_residue(cfg, a, e, rent_minimum);
            Ok(
                CloseOutcome {
                    escrow: Escrow { state: EscrowState::Closed, ..e },
                    sweep: if residue > 0 {
                        Some(
                            vault_transfer(
                                is_native_mint(cfg, e.mint),
                                a.vault_token,
                                a.src_token,
                                a.vault_owner,
                                residue as u64,
                            ),
                        )
                    } else {
                        None
                    },
                    release: if is_native_mint(cfg, e.mint) {
                        None
                    } else {
                        Some(
                            VaultRelease {
                                account: a.vault_token.key,
                                destination: a.fee_payer.key,
                                authority: a.vault_owner.key,
                            },
                        )
                    },
                },
            )
        },
    }
}

/// Closes a finished escrow; `rent_minimum` is what a native vault keeps.
pub fn process_close(cfg: &Config, accounts: &CloseAccounts, escrow: &Escrow, rent_minimum: u64) -> (r:
    Result<CloseOutcome, CardError>)
    ensures
        r == close_result(*cfg, *accounts, *escrow, rent_minimum),
{
    let a = accounts;
    assert_signer(&a.authority)?;
    assert_owned_by(&a.escrow, &cfg.program_id)?;
    assert_account_key(&a.authority, &escrow.authority, Some(CardError::InvalidAuthorityId))?;
    require_closable(cfg.close_pending, escrow)?;
    assert_account_key(&a.mint, &escrow.mint, Some(CardError::InvalidMint))?;
    assert_account_key(&a.src_token, &escrow.src_token, Some(CardError::InvalidSrcTokenOwner))?;
    assert_account_key(&a.vault_token, &escrow.vault_token, Some(CardError::InvalidVaultTokenOwner))?;
    check_vault_authority(&cfg.program_id, &a.vault_owner, escrow.vault_bump)?;
    let is_native = escrow.mint.same(&cfg.native_mint);
    let closed = Escrow { state: EscrowState::Closed, ..*escrow };
    if is_native {
        assert_account_key(&a.vault_token, &a.vault_owner.key, Some(CardError::InvalidVaultOwner))?;
        let sweep = if a.vault_token.lamports > rent_minimum {
            let amount = a.vault_token.lamports - rent_minimum;
            Some(transfer(is_native, &a.vault_token, &a.src_token, &a.vault_owner, amount, true))
        } else {
            None
        };
        Ok(CloseOutcome { escrow: closed, sweep, release: None })
    } else {
        assert_owned_by(&a.vault_token, &cfg.token_program)?;
        let vault = assert_initialized(&a.vault_token)?;
        let sweep = if vault.amount > 0 {
            Some(
                transfer(
                    is_native,
                    &a.vault_token,
                    &a.src_token,
                    &a.vault_owner,
                    vault.amount,
                    true,
                ),
            )
        } else {
            None
        };
        let release = VaultRelease {
            account: a.vault_token.key,
            destination: a.fee_payer.key,
            authority: a.vault_owner.key,
        };
        Ok(CloseOutcome { escrow: closed, sweep, release: Some(release) })
    }
}

/// The accounts of escrow creation, in their wire order.
#[derive(Debug, Clone)]
pub struct InitEscrowAccounts {
    pub wallet: AccountView,
    pub authority: AccountView,
    pub fee_payer: AccountView,
    pub escrow: AccountView,
    pub vault_owner: AccountView,
    pub vault_token: AccountView,
    pub src_token: AccountView,
    pub dst_token: AccountView,
    pub fee_token: AccountView,
    pub mint: AccountView,
    pub reference: AccountView,
}

/// What escrow creation does: the storage it allocates (none where a record is
/// already there), the pull of principal and fee into the vault, and the record.
#[derive(Debug, Copy, Clone)]
pub struct InitEscrowOutcome {
    pub allocation: Option<Allocation>,
    pub funding: Transfer,
    pub escrow: Escrow,
}

/// The endpoint gates of creation. A native escrow pins its vault to the vault
/// authority, its source to the wallet, its destination and fee accounts to the
/// deployment's collectors; a token escrow needs initialized token accounts of
/// the mint, a vault held by the vault authority and a source held by the wallet.
pub open spec fn init_endpoints_gate(cfg: Config, a: InitEscrowAccounts) -> Result<(), CardError> {
    if is_native_mint(cfg, a.mint.key) {
        first_err(
            key_gate(a.vault_token, a.vault_owner.key@, CardError::InvalidVaultOwner),
            first_err(
                key_gate(a.src_token, a.wallet.key@, CardError::InvalidSrcTokenOwner),
                first_err(
                    key_gate(a.dst_token, cfg.deposit_collector@, CardError::InvalidDstTokenOwner),
                    key_gate(a.fee_token, cfg.fee_collector@, CardError::InvalidFeeTokenOwner),
                ),
            ),
        )
    } else {
        first_err(
            token_endpoint_gate(a.vault_token, cfg.token_program@, a.mint.key@),
            first_err(
                gate(token_owner(a.vault_token.data@) == a.vault_owner.key@, CardError::InvalidOwner),
                first_err(
                    token_endpoint_gate(a.src_token, cfg.token_program@, a.mint.key@),
                    first_err(
                        gate(token_owner(a.src_token.data@) == a.wallet.key@, CardError::InvalidOwner),
                        first_err(
                            token_endpoint_gate(a.dst_token, cfg.token_program@, a.mint.key@),
                            token_endpoint_gate(a.fee_token, cfg.token_program@, a.mint.key@),
                        ),
                    ),
                ),
            ),
        )
    }
}

/// The address and bump at which the escrow kept under `reference` lives.
pub open spec fn escrow_address_of(program_id: Seq<u8>, reference: Seq<u8>) -> Option<(Seq<u8>, u8)> {
    program_address_of(record_seeds(program_id, reference, Escrow::PREFIX.spec_bytes()), program_id)
}

/// Whether a stored record is already in use.
pub open spec fn record_in_use(existing: Option<Escrow>) -> bool {
    match existing {
        Some(e) => e.state != EscrowState::Uninitialized,
        None => false,
    }
}

/// The gates of creation, in the order they are checked.
pub open spec fn init_escrow_gate(
    cfg: Config,
    a: InitEscrowAccounts,
    args: InitEscrowArgs,
    existing: Option<Escrow>,
) -> Result<(), CardError> {
    first_err(
        signer_gate(a.wallet),
        first_err(
            signer_gate(a.authority),
            first_err(
                gate(
                    vault_authority_of(cfg.program_id@) matches Some((k, b)) && k == a.vault_owner.key@,
                    CardError::InvalidVaultOwner,
                ),
                first_err(
                    init_endpoints_gate(cfg, a),
                    first_err(
                        gate(
                            checked_u64(
                                total_with_fee_of(
                                    args.amount as int,
                                    args.fee_bps as int,
                                    args.fixed_fee as int,
                                ),
                            ) is Ok,
                            CardError::MathOverflow,
                        ),
                        first_err(
                            gate(
                                escrow_address_of(cfg.program_id@, a.reference.key@) == Some(
                                    (a.escrow.key@, args.bump),
                                ),
                                CardError::InvalidArgument,
                            ),
                            first_err(
                                gate(!slot_occupied(a.escrow), CardError::AccountAlreadyInitialized),
                                gate(!record_in_use(existing), CardError::AccountAlreadyInitialized),
                            ),
                        ),
                    ),
                ),
            ),
        ),
    )
}

/// The record that creation writes.
pub open spec fn initialized_record(a: InitEscrowAccounts, args: InitEscrowArgs, vault_bump: u8) -> Escrow {
    Escrow {
        state: EscrowState::Initialized,
        amount: args.amount,
        fee_bps: args.fee_bps,
        fixed_fee: args.fixed_fee,
        src_token: a.src_token.key,
        dst_token: a.dst_token.key,
        vault_token: a.vault_token.key,
        fee_token: a.fee_token.key,
        mint: a.mint.key,
        authority: a.authority.key,
        vault_bump,
        reference: a.reference.key,
        settled_at: None,
    }
}

/// What creation returns: the first failing gate, or the allocation of the
/// record's storage where none is there yet, the pull of the principal plus
/// its whole fee from the source into the vault, signed by the wallet, and the
/// record, marked `Initialized`, holding the vault authority's bump.
pub open spec fn init_escrow_result(
    cfg: Config,
    a: InitEscrowAccounts,
    args: InitEscrowArgs,
    existing: Option<Escrow>,
    rent_minimum: u64,
) -> Result<InitEscrowOutcome, CardError> {
    match init_escrow_gate(cfg, a, args, existing) {
        Err(err) => Err(err),
        Ok(_) => Ok(
            InitEscrowOutcome {
                allocation: if existing is None {
                    Some(
                        Allocation {
                            address: a.escrow.key,
                            owner: cfg.program_id,
                            lamports: required_lamports(rent_minimum, a.escrow.lamports),
                            space: ESCROW_DATA_SIZE as u64,
                        },
                    )
                } else {
                    None
                },
                funding: Transfer {
                    is_native: is_native_mint(cfg, a.mint.key),
                    source: a.src_token.key,
                    destination: a.vault_token.key,
                    authority: a.wallet.key,
                    amount: total_with_fee_of(
                        args.amount as int,
                        args.fee_bps as int,
                        args.fixed_fee as int,
                    ) as u64,
                    vault_signed: false,
                },
                escrow: initialized_record(a, args, vault_authority_of(cfg.program_id@)->Some_0.1),
            },
        ),
    }
}

/// What preparing the record's storage gives: `AccountAlreadyInitialized` when
/// the slot is occupied or holds a record in use; otherwise the allocation of
/// fresh storage where no record decodes there, or none where an unused one does.
pub open spec fn create_escrow_result(
    program_id: Key,
    slot: AccountView,
    existing: Option<Escrow>,
    rent_minimum: u64,
) -> Result<Option<Allocation>, CardError> {
    if slot_occupied(slot) || record_in_use(existing) {
        Err(CardError::AccountAlreadyInitialized)
    } else if existing is None {
        Ok(
            Some(
                Allocation {
                    address: slot.key,
                    owner: program_id,
                    lamports: required_lamports(rent_minimum, slot.lamports),
                    space: ESCROW_DATA_SIZE as u64,
                },
            ),
        )
    } else {
        Ok(None)
    }
}

/// Prepares the escrow record's storage: refuses an occupied slot, reuses an
/// unused record already there, or asks for fresh storage.
pub fn create_escrow(
    program_id: &Key,
    slot: &AccountView,
    existing: Option<Escrow>,
    rent_minimum: u64,
) -> (r: Result<Option<Allocation>, CardError>)
    ensures
        r == create_escrow_result(*program_id, *slot, existing, rent_minimum),
{
    assert_empty_slot(slot)?;
    let (allocation, record) = match existing {
        Some(e) => (None, e),
        None => (
            Some(create_new_account_raw(program_id, slot, rent_minimum, ESCROW_DATA_SIZE)),
            Escrow::empty(),
        ),
    };
    assert_uninitialized(&record)?;
    Ok(allocation)
}

/// Creates an escrow: checks every gate, then asks for the principal plus fee
/// to move into the vault and for the record at its derived address.
/// `existing` is the record already stored at that address, if its data decodes;
/// `rent_minimum` is what the record's storage must hold.
pub fn process_init_escrow(
    cfg: &Config,
    accounts: &InitEscrowAccounts,
    args: &InitEscrowArgs,
    existing: Option<Escrow>,
    rent_minimum: u64,
) -> (r: Result<InitEscrowOutcome, CardError>)
    ensures
        r == init_escrow_result(*cfg, *accounts, *args, existing, rent_minimum),
{
    let a = accounts;
    assert_signer(&a.wallet)?;
    assert_signer(&a.authority)?;
    let (vault_owner_key, vault_bump) = match find_program_authority(&cfg.program_id) {
        Some(derived) => derived,
        None => {
            return Err(CardError::InvalidVaultOwner);
        },
    };
    assert_account_key(&a.vault_owner, &vault_owner_key, Some(CardError::InvalidVaultOwner))?;
    let is_native = a.mint.key.same(&cfg.native_mint);
    if is_native {
        assert_account_key(&a.vault_token, &a.vault_owner.key, Some(CardError::InvalidVaultOwner))?;
        assert_account_key(&a.src_token, &a.wallet.key, Some(CardError::InvalidSrcTokenOwner))?;
        assert_account_key(&a.dst_token, &cfg.deposit_collector, Some(CardError::InvalidDstTokenOwner))?;
        assert_account_key(&a.fee_token, &cfg.fee_collector, Some(CardError::InvalidFeeTokenOwner))?;
    } else {
        let vault = check_token_endpoint(&a.vault_token, &cfg.token_program, &a.mint.key)?;
        assert_token_owned_by(&vault, &a.vault_owner.key)?;
        let src = check_token_endpoint(&a.src_token, &cfg.token_program, &a.mint.key)?;
        assert_token_owned_by(&src, &a.wallet.key)?;
        check_token_endpoint(&a.dst_token, &cfg.token_program, &a.mint.key)?;
        check_token_endpoint(&a.fee_token, &cfg.token_program, &a.mint.key)?;
    }
    let total = calculate_total_with_fee(args.amount, args.fee_bps as u64, args.fixed_fee)?;
    match find_escrow_program_address(&cfg.program_id, &a.reference.key) {
        Some((k, b)) => {
            if !(k.same(&a.escrow.key) && b == args.bump) {
                return Err(CardError::InvalidArgument);
            }
        },
        None => {
            return Err(CardError::InvalidArgument);
        },
    }
    let allocation = create_escrow(&cfg.program_id, &a.escrow, existing, rent_minimum)?;
    let funding = transfer(is_native, &a.src_token, &a.vault_token, &a.wallet, total, false);
    let escrow = Escrow {
        state: EscrowState::Initialized,
        amount: args.amount,
        fee_bps: args.fee_bps,
        fixed_fee: args.fixed_fee,
        src_token: a.src_token.key,
        dst_token: a.dst_token.key,
        vault_token: a.vault_token.key,
        fee_token: a.fee_token.key,
        mint: a.mint.key,
        authority: a.authority.key,
        vault_bump,
        reference: a.reference.key,
        settled_at: None,
    };
    Ok(InitEscrowOutcome { allocation, funding, escrow })
}

/// The caller of a handler is the recorded authority, has signed, and names
/// an escrow account this program owns.
pub open spec fn authorised(cfg: Config, authority: AccountView, escrow_account: AccountView, e: Escrow) -> bool {
    &&& authority.is_signer
    &&& escrow_account.owner@ == cfg.program_id@
    &&& authority.key@ == e.authority@
}

/// The lifecycle only moves forward along its legal edges: Settle and Cancel
/// leave `Initialized` only, Close leaves `Settled` or `Canceled` (or
/// `Initialized` where the deployment allows closing a pending escrow). Every
/// step keeps the amount, fee schedule and endpoints. Any other attempt fails,
/// and for an authorised caller it fails with the error naming the current
/// state; a failed handler returns no record, so the state stays as it was.
pub proof fn lemma_lifecycle_edges(
    cfg: Config,
    sa: SettleAccounts,
    ca: CancelAccounts,
    xa: CloseAccounts,
    e: Escrow,
    now: u64,
    rent_minimum: u64,
)
    ensures
        settle_result(cfg, sa, e, now) matches Ok(o) ==> {
            &&& e.state == EscrowState::Initialized
            &&& o.escrow == (Escrow { state: EscrowState::Settled, settled_at: Some(now), ..e })
            &&& state_rank(o.escrow.state) > state_rank(e.state)
        },
        cancel_result(cfg, ca, e) matches Ok(o) ==> {
            &&& e.state == EscrowState::Initialized
            &&& o.escrow == (Escrow { state: EscrowState::Canceled, ..e })
            &&& state_rank(o.escrow.state) > state_rank(e.state)
        },
        close_result(cfg, xa, e, rent_minimum) matches Ok(o) ==> {
            &&& (e.state == EscrowState::Settled || e.state == EscrowState::Canceled || (
            cfg.close_pending && e.state == EscrowState::Initialized))
            &&& o.escrow == (Escrow { state: EscrowState::Closed, ..e })
            &&& state_rank(o.escrow.state) > state_rank(e.state)
        },
        e.state != EscrowState::Initialized ==> settle_result(cfg, sa, e, now) is Err
            && cancel_result(cfg, ca, e) is Err,
        authorised(cfg, sa.authority, sa.escrow, e) && e.state == EscrowState::Settled
            ==> settle_result(cfg, sa, e, now) == Err::<SettleOutcome, CardError>(
            CardError::AccountAlreadySettled,
        ),
        authorised(cfg, sa.authority, sa.escrow, e) && e.state == EscrowState::Canceled
            ==> settle_result(cfg, sa, e, now) == Err::<SettleOutcome, CardError>(
            CardError::AccountAlreadyCanceled,
        ),
        authorised(cfg, sa.authority, sa.escrow, e) && e.state == EscrowState::Closed
            ==> settle_result(cfg, sa, e, now) == Err::<SettleOutcome, CardError>(
            CardError::AccountAlreadyClosed,
        ),
        authorised(cfg, ca.authority, ca.escrow, e) && e.state == EscrowState::Settled
            ==> cancel_result(cfg, ca, e) == Err::<CancelOutcome, CardError>(
            CardError::AccountAlreadySettled,
        ),
        authorised(cfg, ca.authority, ca.escrow, e) && e.state == EscrowState::Canceled
            ==> cancel_result(cfg, ca, e) == Err::<CancelOutcome, CardError>(
            CardError::AccountAlreadyCanceled,
        ),
        authorised(cfg, ca.authority, ca.escrow, e) && e.state == EscrowState::Closed
            ==> cancel_result(cfg, ca, e) == Err::<CancelOutcome, CardError>(
            CardError::AccountAlreadyClosed,
        ),
        authorised(cfg, xa.authority, xa.escrow, e) && e.state == EscrowState::Closed
            ==> close_result(cfg, xa, e, rent_minimum) == Err::<CloseOutcome, CardError>(
            CardError::AccountAlreadyClosed,
        ),
        authorised(cfg, xa.authority, xa.escrow, e) && !cfg.close_pending && e.state
            == EscrowState::Initialized ==> close_result(cfg, xa, e, rent_minimum) == Err::<
            CloseOutcome,
            CardError,
        >(CardError::AccountNotSettledOrCanceled),
{
}

/// Funds are conserved through the vault: what creation pulls in is exactly
/// what settlement pays out (the principal to the recorded destination, the
/// whole fee to the recorded fee account), or what cancellation refunds to the
/// recorded source, so the vault keeps none of it.
pub proof fn lemma_vault_conserves(
    cfg: Config,
    ia: InitEscrowAccounts,
    args: InitEscrowArgs,
    existing: Option<Escrow>,
    rent_minimum: u64,
    sa: SettleAccounts,
    ca: CancelAccounts,
    now: u64,
)
    requires
        init_escrow_result(cfg, ia, args, existing, rent_minimum) is Ok,
    ensures
        ({
            let io = init_escrow_result(cfg, ia, args, existing, rent_minimum)->Ok_0;
            settle_result(cfg, sa, io.escrow, now) matches Ok(so) ==> {
                &&& so.to_destination.source@ == io.funding.destination@
                &&& so.to_fee.source@ == io.funding.destination@
                &&& so.to_destination.destination@ == ia.dst_token.key@
                &&& so.to_fee.destination@ == ia.fee_token.key@
                &&& so.to_destination.amount == args.amount
                &&& io.funding.amount == so.to_destination.amount + so.to_fee.amount
                &&& io.funding.amount - (so.to_destination.amount + so.to_fee.amount) == 0
            }
        }),
        ({
            let io = init_escrow_result(cfg, ia, args, existing, rent_minimum)->Ok_0;
            cancel_result(cfg, ca, io.escrow) matches Ok(co) ==> {
                &&& co.refund.source@ == io.funding.destination@
                &&& co.refund.destination@ == io.funding.source@
                &&& co.refund.amount == io.funding.amount
            }
        }),
{
    let io = init_escrow_result(cfg, ia, args, existing, rent_minimum)->Ok_0;
    crate::fee::lemma_fee_nonneg(args.amount as int, args.fee_bps as int);
}

/// Settlement and cancellation re-check every supplied account against the
/// record: a destination, fee, vault, source or mint account other than the
/// recorded one makes the handler fail whatever else holds.
pub proof fn lemma_revalidation(cfg: Config, sa: SettleAccounts, ca: CancelAccounts, e: Escrow, now: u64)
    ensures
        sa.dst_token.key@ != e.dst_token@ || sa.fee_token.key@ != e.fee_token@
            || sa.vault_token.key@ != e.vault_token@ || sa.mint.key@ != e.mint@
            ==> settle_result(cfg, sa, e, now) is Err,
        ca.src_token.key@ != e.src_token@ || ca.vault_token.key@ != e.vault_token@
            || ca.mint.key@ != e.mint@ ==> cancel_result(cfg, ca, e) is Err,
{
}

} // verus!
