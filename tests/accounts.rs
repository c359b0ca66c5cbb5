use card_escrow::account::{
    assert_account_key, assert_empty_slot, assert_initialized, assert_owned_by,
    assert_rent_exempt, assert_signer, assert_token_owned_by, assert_uninitialized,
    empty_account_balance, AccountView,
};
use card_escrow::address::PREFIX;
use card_escrow::error::CardError;
use card_escrow::key::Key;
use card_escrow::state::{pack_flag, unpack_flag, Deposit, Escrow, EscrowState, Funding, Withdraw};
use card_escrow::transfer::create_new_account_raw;
use card_escrow::{
    find_deposit_program_address, find_escrow_program_address, find_program_authority,
    find_withdrawal_program_address,
};
use solana_program::program_pack::Pack;
use solana_program::pubkey::Pubkey;

fn key(b: u8) -> Key {
    Key::new([b; 32])
}

fn account(k: Key, owner: Key, is_signer: bool, lamports: u64, data: Vec<u8>) -> AccountView {
    AccountView { key: k, owner, is_signer, lamports, data }
}

fn token_data(mint: &Key, owner: &Key, amount: u64, state: spl_token::state::AccountState) -> Vec<u8> {
    let acct = spl_token::state::Account {
        mint: Pubkey::new_from_array(mint.to_bytes()),
        owner: Pubkey::new_from_array(owner.to_bytes()),
        amount,
        state,
        ..Default::default()
    };
    let mut data = vec![0u8; spl_token::state::Account::LEN];
    spl_token::state::Account::pack(acct, &mut data).unwrap();
    data
}

#[test]
fn signer_gate() {
    assert_eq!(assert_signer(&account(key(1), key(0), true, 0, vec![])), Ok(()));
    assert_eq!(
        assert_signer(&account(key(1), key(0), false, 0, vec![])),
        Err(CardError::MissingRequiredSignature)
    );
}

#[test]
fn owner_and_key_gates() {
    let a = account(key(1), key(2), false, 0, vec![]);
    assert_eq!(assert_owned_by(&a, &key(2)), Ok(()));
    assert_eq!(assert_owned_by(&a, &key(3)), Err(CardError::InvalidOwner));
    assert_eq!(assert_account_key(&a, &key(1), None), Ok(()));
    assert_eq!(assert_account_key(&a, &key(4), None), Err(CardError::InvalidArgument));
    assert_eq!(
        assert_account_key(&a, &key(4), Some(CardError::InvalidMint)),
        Err(CardError::InvalidMint)
    );
}

#[test]
fn keys_differing_in_one_byte_differ() {
    let mut b = [5u8; 32];
    b[31] = 6;
    assert!(key(5).same(&key(5)));
    assert!(!key(5).same(&Key::new(b)));
    assert_eq!(key(5).to_vec(), vec![5u8; 32]);
}

#[test]
fn rent_and_slot_gates() {
    let a = account(key(1), key(2), false, 100, vec![]);
    assert_eq!(assert_rent_exempt(100, &a), Ok(()));
    assert_eq!(assert_rent_exempt(101, &a), Err(CardError::AccountNotRentExempt));
    assert_eq!(assert_empty_slot(&a), Ok(()));
    assert_eq!(assert_empty_slot(&account(key(1), key(2), false, 0, vec![1])), Ok(()));
    assert_eq!(
        assert_empty_slot(&account(key(1), key(2), false, 1, vec![0])),
        Err(CardError::AccountAlreadyInitialized)
    );
}

#[test]
fn token_account_decoding() {
    let init = spl_token::state::AccountState::Initialized;
    let a = account(key(1), key(2), false, 1, token_data(&key(8), &key(9), 77, init));
    let t = assert_initialized(&a).unwrap();
    assert_eq!(t.mint, key(8));
    assert_eq!(t.owner, key(9));
    assert_eq!(t.amount, 77);
    assert!(t.is_initialized);
    assert_eq!(assert_token_owned_by(&t, &key(9)), Ok(()));
    assert_eq!(assert_token_owned_by(&t, &key(8)), Err(CardError::InvalidOwner));

    let un = spl_token::state::AccountState::Uninitialized;
    let b = account(key(1), key(2), false, 1, token_data(&key(8), &key(9), 0, un));
    assert_eq!(assert_initialized(&b).unwrap_err(), CardError::AccountNotInitialized);

    let short = account(key(1), key(2), false, 1, vec![0u8; 164]);
    assert_eq!(assert_initialized(&short).unwrap_err(), CardError::InvalidAccountData);

    let mut bad_state = token_data(&key(8), &key(9), 0, init);
    bad_state[108] = 3;
    let c = account(key(1), key(2), false, 1, bad_state);
    assert_eq!(assert_initialized(&c).unwrap_err(), CardError::InvalidAccountData);

    let mut bad_tag = token_data(&key(8), &key(9), 0, init);
    bad_tag[72] = 2;
    let d = account(key(1), key(2), false, 1, bad_tag);
    assert_eq!(assert_initialized(&d).unwrap_err(), CardError::InvalidAccountData);
}

#[test]
fn uninitialized_gate_on_records() {
    assert_eq!(assert_uninitialized(&Escrow::empty()), Ok(()));
    let e = Escrow { state: EscrowState::Canceled, ..Escrow::empty() };
    assert_eq!(assert_uninitialized(&e), Err(CardError::AccountAlreadyInitialized));
    assert_eq!(assert_uninitialized(&Deposit { is_initialized: false }), Ok(()));
    assert_eq!(
        assert_uninitialized(&Withdraw { is_initialized: true }),
        Err(CardError::AccountAlreadyInitialized)
    );
    assert_eq!(
        assert_uninitialized(&Funding { is_initialized: true }),
        Err(CardError::AccountAlreadyInitialized)
    );
}

#[test]
fn escrow_capabilities_follow_state() {
    let e = Escrow { state: EscrowState::Settled, ..Escrow::empty() };
    assert!(e.is_settled() && !e.is_canceled() && !e.is_closed() && !e.is_pending());
    let e = Escrow { state: EscrowState::Canceled, ..Escrow::empty() };
    assert!(e.is_canceled() && !e.is_settled());
    let e = Escrow { state: EscrowState::Closed, ..Escrow::empty() };
    assert!(e.is_closed());
    let e = Escrow { state: EscrowState::Initialized, ..Escrow::empty() };
    assert!(e.is_pending());
}

#[test]
fn receipt_flag_round_trip() {
    assert_eq!(pack_flag(true), vec![1u8]);
    assert_eq!(pack_flag(false), vec![0u8]);
    assert_eq!(unpack_flag(&pack_flag(true)), Some(true));
    assert_eq!(unpack_flag(&[0u8]), Some(false));
    assert_eq!(unpack_flag(&[2u8]), None);
    assert_eq!(unpack_flag(&[]), None);
    assert_eq!(unpack_flag(&[1u8, 0]), None);
}

#[test]
fn moving_whole_balance() {
    let mut from = account(key(1), key(0), false, 40, vec![]);
    let mut to = account(key(2), key(0), false, 2, vec![]);
    assert_eq!(empty_account_balance(&mut from, &mut to), Ok(()));
    assert_eq!((from.lamports, to.lamports), (0, 42));
    let mut from = account(key(1), key(0), false, 40, vec![]);
    let mut to = account(key(2), key(0), false, u64::MAX, vec![]);
    assert_eq!(empty_account_balance(&mut from, &mut to), Err(CardError::MathOverflow));
    assert_eq!((from.lamports, to.lamports), (40, u64::MAX));
}

#[test]
fn allocation_tops_up_to_rent_minimum() {
    let slot = account(key(3), key(0), false, 300, vec![]);
    let a = create_new_account_raw(&key(7), &slot, 1_000, 1);
    assert_eq!(a.lamports, 700);
    assert_eq!(a.space, 1);
    assert_eq!(a.address, key(3));
    assert_eq!(a.owner, key(7));
    assert_eq!(create_new_account_raw(&key(7), &slot, 100, 1).lamports, 0);
    let empty = account(key(3), key(0), false, 0, vec![]);
    assert_eq!(create_new_account_raw(&key(7), &empty, 0, 1).lamports, 1);
}

#[test]
fn derived_addresses_match_the_ledger() {
    let program = key(7);
    let reference = key(40);
    let pid = Pubkey::new_from_array(program.to_bytes());
    let r = Pubkey::new_from_array(reference.to_bytes());
    let (k, b) = find_program_authority(&program).unwrap();
    let (ek, eb) = Pubkey::find_program_address(&[PREFIX.as_bytes(), pid.as_ref()], &pid);
    assert_eq!((k.to_bytes(), b), (ek.to_bytes(), eb));
    assert_ne!(k, program);

    let cases: [(&str, Option<(Key, u8)>); 3] = [
        ("deposit", find_deposit_program_address(&program, &reference)),
        ("withdraw", find_withdrawal_program_address(&program, &reference)),
        ("escrow", find_escrow_program_address(&program, &reference)),
    ];
    for (tag, got) in cases.iter() {
        let (gk, gb) = got.unwrap();
        let (xk, xb) = Pubkey::find_program_address(
            &[PREFIX.as_bytes(), pid.as_ref(), r.as_ref(), tag.as_bytes()],
            &pid,
        );
        assert_eq!((gk.to_bytes(), gb), (xk.to_bytes(), xb));
    }
    assert_ne!(
        find_deposit_program_address(&program, &reference).unwrap().0,
        find_escrow_program_address(&program, &reference).unwrap().0
    );
}
