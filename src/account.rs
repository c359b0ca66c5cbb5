//! Account validator: the gates checked before any state change, over plain
//! snapshots of the accounts an instruction receives.

use crate::error::CardError;
use crate::key::Key;
use crate::state::IsInitialized;
use vstd::prelude::*;

verus! {

/// What an instruction sees of one account.
#[derive(Debug, Clone)]
pub struct AccountView {
    pub key: Key,
    pub owner: Key,
    pub is_signer: bool,
    pub lamports: u64,
    pub data: Vec<u8>,
}

/// The fields of a token-ledger account that the logic reads.
#[derive(Debug, Copy, Clone)]
pub struct TokenAccount {
    pub mint: Key,
    pub owner: Key,
    pub amount: u64,
    pub is_initialized: bool,
}

impl IsInitialized for TokenAccount {
    open spec fn initialized_spec(&self) -> bool {
        self.is_initialized
    }

    fn is_initialized(&self) -> (r: bool) {
        self.is_initialized
    }
}

/// Size in bytes of a token-ledger account.
pub const TOKEN_ACCOUNT_LEN: usize = 165;

/// The value of bytes read as a little-endian unsigned integer.
pub open spec fn le_value(b: Seq<u8>) -> int
    decreases b.len(),
{
    if b.len() == 0 {
        0
    } else {
        b[0] as int + 256 * le_value(b.drop_first())
    }
}

/// A four-byte optional-value tag at `at`: `[0,0,0,0]` or `[1,0,0,0]`.
pub open spec fn option_tag_valid(d: Seq<u8>, at: int) -> bool {
    &&& d[at] <= 1
    &&& d[at + 1] == 0
    &&& d[at + 2] == 0
    &&& d[at + 3] == 0
}

/// Token-account bytes that decode: the exact length, valid optional-value tags
/// for the delegate, native flag and close authority, and a known state byte.
pub open spec fn token_layout_valid(d: Seq<u8>) -> bool {
    &&& d.len() == TOKEN_ACCOUNT_LEN
    &&& option_tag_valid(d, 72)
    &&& d[108] <= 2
    &&& option_tag_valid(d, 109)
    &&& option_tag_valid(d, 129)
}

/// The mint recorded in token-account bytes.
pub open spec fn token_mint(d: Seq<u8>) -> Seq<u8> {
    d.subrange(0, 32)
}

/// The owner recorded in token-account bytes.
pub open spec fn token_owner(d: Seq<u8>) -> Seq<u8> {
    d.subrange(32, 64)
}

/// The balance recorded in token-account bytes.
pub open spec fn token_amount(d: Seq<u8>) -> int {
    le_value(d.subrange(64, 72))
}

/// Whether token-account bytes record an initialized (or frozen) account.
pub open spec fn token_initialized(d: Seq<u8>) -> bool {
    d[108] != 0
}

/// Relies on spl_token's `Account::unpack_unchecked`: a 165-byte buffer whose
/// mint, owner and little-endian amount sit at bytes 0, 32 and 64, whose state
/// byte at 108 is 0 (uninitialized), 1 or 2, and whose three optional fields
/// carry a `[0,0,0,0]` or `[1,0,0,0]` tag at 72, 109 and 129.
#[verifier::external_body]
fn unpack_token_account(data: &[u8]) -> (r: Option<TokenAccount>)
    ensures
        r is Some <==> token_layout_valid(data@),
        r matches Some(t) ==> {
            &&& t.mint@ == token_mint(data@)
            &&& t.owner@ == token_owner(data@)
            &&& t.amount == token_amount(data@)
            &&& t.is_initialized == token_initialized(data@)
        },
{
    match <spl_token::state::Account as solana_program::program_pack::Pack>::unpack_unchecked(data) {
        Ok(a) => Some(
            TokenAccount {
                mint: Key(a.mint.to_bytes()),
                owner: Key(a.owner.to_bytes()),
                amount: a.amount,
                is_initialized: solana_program::program_pack::IsInitialized::is_initialized(&a),
            },
        ),
        Err(_) => None,
    }
}

/// Fails with `AccountAlreadyInitialized` when the record was already written.
pub fn assert_uninitialized<T: IsInitialized>(account: &T) -> (r: Result<(), CardError>)
    ensures
        r == (if account.initialized_spec() {
            Err(CardError::AccountAlreadyInitialized)
        } else {
            Ok(())
        }),
{
    if account.is_initialized() {
        Err(CardError::AccountAlreadyInitialized)
    } else {
        Ok(())
    }
}

/// The first failure of two checks made in turn.
pub open spec fn first_err(a: Result<(), CardError>, b: Result<(), CardError>) -> Result<
    (),
    CardError,
> {
    if a is Err {
        a
    } else {
        b
    }
}

/// A check that fails with `e` unless `ok` holds.
pub open spec fn gate(ok: bool, e: CardError) -> Result<(), CardError> {
    if ok {
        Ok(())
    } else {
        Err(e)
    }
}

/// The signature gate.
pub open spec fn signer_gate(account: AccountView) -> Result<(), CardError> {
    gate(account.is_signer, CardError::MissingRequiredSignature)
}

/// The ownership gate.
pub open spec fn owner_gate(account: AccountView, owner: Seq<u8>) -> Result<(), CardError> {
    gate(account.owner@ == owner, CardError::InvalidOwner)
}

/// The key gate, with the error it reports on a mismatch.
pub open spec fn key_gate(account: AccountView, key: Seq<u8>, e: CardError) -> Result<(), CardError> {
    gate(account.key@ == key, e)
}

/// Fails with `MissingRequiredSignature` unless the account signed.
pub fn assert_signer(account: &AccountView) -> (r: Result<(), CardError>)
    ensures
        r == signer_gate(*account),
{
    if account.is_signer {
        return Ok(());
    }
    Err(CardError::MissingRequiredSignature)
}

/// Fails with `InvalidOwner` unless the account belongs to `owner`.
pub fn assert_owned_by(account: &AccountView, owner: &Key) -> (r: Result<(), CardError>)
    ensures
        r == owner_gate(*account, owner@),
{
    if !account.owner.same(owner) {
        Err(CardError::InvalidOwner)
    } else {
        Ok(())
    }
}

/// Fails with `InvalidOwner` unless the token account's owner is `owner`.
pub fn assert_token_owned_by(token: &TokenAccount, owner: &Key) -> (r: Result<(), CardError>)
    ensures
        r == (if token.owner@ == owner@ {
            Ok(())
        } else {
            Err(CardError::InvalidOwner)
        }),
{
    if !token.owner.same(owner) {
        Err(CardError::InvalidOwner)
    } else {
        Ok(())
    }
}

/// The error of a key mismatch: the given one, or `InvalidArgument`.
pub open spec fn mismatch_error(error: Option<CardError>) -> CardError {
    match error {
        Some(e) => e,
        None => CardError::InvalidArgument,
    }
}

/// Fails with `error` (or `InvalidArgument` when none is given) unless the
/// account's key is `key`.
pub fn assert_account_key(account: &AccountView, key: &Key, error: Option<CardError>) -> (r: Result<
    (),
    CardError,
>)
    ensures
        r == key_gate(*account, key@, mismatch_error(error)),
{
    if !account.key.same(key) {
        match error {
            Some(e) => Err(e),
            None => Err(CardError::InvalidArgument),
        }
    } else {
        Ok(())
    }
}

/// Fails with `AccountNotRentExempt` when the balance is under the rent-exempt
/// minimum for the account's size.
pub fn assert_rent_exempt(minimum_balance: u64, account: &AccountView) -> (r: Result<(), CardError>)
    ensures
        r == (if account.lamports >= minimum_balance {
            Ok(())
        } else {
            Err(CardError::AccountNotRentExempt)
        }),
{
    if account.lamports < minimum_balance {
        Err(CardError::AccountNotRentExempt)
    } else {
        Ok(())
    }
}

/// What decoding an account as an initialized token account gives.
pub open spec fn initialized_token_result(d: Seq<u8>) -> Result<(), CardError> {
    if !token_layout_valid(d) {
        Err(CardError::InvalidAccountData)
    } else if !token_initialized(d) {
        Err(CardError::AccountNotInitialized)
    } else {
        Ok(())
    }
}

/// The gates on an account that must be an initialized token account of the
/// token ledger for `mint`.
pub open spec fn token_endpoint_gate(account: AccountView, token_program: Seq<u8>, mint: Seq<u8>) -> Result<
    (),
    CardError,
> {
    first_err(
        owner_gate(account, token_program),
        first_err(
            initialized_token_result(account.data@),
            gate(token_mint(account.data@) == mint, CardError::InvalidMint),
        ),
    )
}

/// Checks that the account is an initialized token account of the token ledger
/// for `mint`: `InvalidOwner`, `InvalidAccountData`, `AccountNotInitialized` or
/// `InvalidMint` otherwise, in that order.
pub fn check_token_endpoint(account: &AccountView, token_program: &Key, mint: &Key) -> (r: Result<
    TokenAccount,
    CardError,
>)
    ensures
        r is Ok <==> token_endpoint_gate(*account, token_program@, mint@) is Ok,
        r matches Err(e) ==> token_endpoint_gate(*account, token_program@, mint@) == Err::<
            (),
            CardError,
        >(e),
        r matches Ok(t) ==> {
            &&& t.owner@ == token_owner(account.data@)
            &&& t.amount == token_amount(account.data@)
        },
{
    assert_owned_by(account, token_program)?;
    let t = assert_initialized(account)?;
    if !t.mint.same(mint) {
        return Err(CardError::InvalidMint);
    }
    Ok(t)
}

/// The gates on a token account of `mint` that must be held by `holder`.
pub open spec fn held_endpoint_gate(
    account: AccountView,
    token_program: Seq<u8>,
    mint: Seq<u8>,
    holder: Seq<u8>,
) -> Result<(), CardError> {
    first_err(
        token_endpoint_gate(account, token_program, mint),
        gate(token_owner(account.data@) == holder, CardError::InvalidOwner),
    )
}

/// Checks that the account is an initialized token account of `mint` held by
/// `holder`.
pub fn check_held_endpoint(account: &AccountView, token_program: &Key, mint: &Key, holder: &Key) -> (r:
    Result<(), CardError>)
    ensures
        r == held_endpoint_gate(*account, token_program@, mint@, holder@),
{
    let t = check_token_endpoint(account, token_program, mint)?;
    assert_token_owned_by(&t, holder)
}

/// Decodes the account as a token account and fails unless it is initialized:
/// `InvalidAccountData` when it does not decode, `AccountNotInitialized` when
/// its state is unset.
pub fn assert_initialized(account: &AccountView) -> (r: Result<TokenAccount, CardError>)
    ensures
        r is Ok <==> initialized_token_result(account.data@) is Ok,
        r matches Err(e) ==> initialized_token_result(account.data@) == Err::<(), CardError>(e),
        r matches Ok(t) ==> {
            &&& t.mint@ == token_mint(account.data@)
            &&& t.owner@ == token_owner(account.data@)
            &&& t.amount == token_amount(account.data@)
            &&& t.is_initialized
        },
{
    match unpack_token_account(account.data.as_slice()) {
        None => Err(CardError::InvalidAccountData),
        Some(t) => {
            if !t.is_initialized() {
                Err(CardError::AccountNotInitialized)
            } else {
                Ok(t)
            }
        },
    }
}

/// Whether a storage slot already carries both a balance and data.
pub open spec fn slot_occupied(account: AccountView) -> bool {
    account.lamports > 0 && account.data@.len() > 0
}

/// Fails with `AccountAlreadyInitialized` when the slot already carries a
/// balance and data: the guard before any first-time creation.
pub fn assert_empty_slot(account: &AccountView) -> (r: Result<(), CardError>)
    ensures
        r == gate(!slot_occupied(*account), CardError::AccountAlreadyInitialized),
{
    if account.lamports > 0 && account.data.len() != 0 {
        Err(CardError::AccountAlreadyInitialized)
    } else {
        Ok(())
    }
}

/// Moves the whole balance of `source` into `receiver`; fails with
/// `MathOverflow`, changing nothing, when the receiver's balance would overflow.
pub fn empty_account_balance(source: &mut AccountView, receiver: &mut AccountView) -> (r: Result<
    (),
    CardError,
>)
    ensures
        old(receiver).lamports + old(source).lamports <= u64::MAX ==> {
            &&& r is Ok
            &&& final(receiver).lamports == old(receiver).lamports + old(source).lamports
            &&& final(source).lamports == 0
        },
        old(receiver).lamports + old(source).lamports > u64::MAX ==> {
            &&& r == Err::<(), CardError>(CardError::MathOverflow)
            &&& final(receiver).lamports == old(receiver).lamports
            &&& final(source).lamports == old(source).lamports
        },
        final(source).key == old(source).key,
        final(source).owner == old(source).owner,
        final(source).is_signer == old(source).is_signer,
        final(source).data == old(source).data,
        final(receiver).key == old(receiver).key,
        final(receiver).owner == old(receiver).owner,
        final(receiver).is_signer == old(receiver).is_signer,
        final(receiver).data == old(receiver).data,
{
    match receiver.lamports.checked_add(source.lamports) {
        Some(total) => {
            receiver.lamports = total;
            source.lamports = 0;
            Ok(())
        },
        None => Err(CardError::MathOverflow),
    }
}

} // verus!
