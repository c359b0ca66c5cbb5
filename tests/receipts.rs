use card_escrow::account::AccountView;
use card_escrow::config::Config;
use card_escrow::error::CardError;
use card_escrow::instruction::{DepositArgs, FundingArgs, WithdrawArgs};
use card_escrow::key::Key;
use card_escrow::processor::deposit::DepositAccounts;
use card_escrow::processor::funding::FundingAccounts;
use card_escrow::processor::withdraw::WithdrawAccounts;
use card_escrow::processor::{deposit, funding, withdraw};
use card_escrow::state::pack_flag;
use card_escrow::{find_deposit_program_address, find_withdrawal_program_address};
use card_escrow::address::find_record_address;
use solana_program::program_pack::Pack;
use solana_program::pubkey::Pubkey;

const RENT: u64 = 890_880;

fn key(b: u8) -> Key {
    Key::new([b; 32])
}

fn config() -> Config {
    Config {
        program_id: key(7),
        token_program: Key::new(spl_token::id().to_bytes()),
        native_mint: Key::new(spl_token::native_mint::id().to_bytes()),
        authority: key(1),
        fee_collector: key(2),
        deposit_collector: key(3),
        close_pending: false,
    }
}

fn account(k: Key, owner: Key, is_signer: bool, lamports: u64, data: Vec<u8>) -> AccountView {
    AccountView { key: k, owner, is_signer, lamports, data }
}

fn token_account(k: Key, cfg: &Config, mint: &Key, holder: &Key) -> AccountView {
    let acct = spl_token::state::Account {
        mint: Pubkey::new_from_array(mint.to_bytes()),
        owner: Pubkey::new_from_array(holder.to_bytes()),
        amount: 9_000_000,
        state: spl_token::state::AccountState::Initialized,
        ..Default::default()
    };
    let mut data = vec![0u8; spl_token::state::Account::LEN];
    spl_token::state::Account::pack(acct, &mut data).unwrap();
    account(k, cfg.token_program, false, 2_039_280, data)
}

fn deposit_setup() -> (Config, DepositAccounts, DepositArgs) {
    let cfg = config();
    let reference = key(40);
    let (slot, bump) = find_deposit_program_address(&cfg.program_id, &reference).unwrap();
    let mint = key(50);
    let user = key(60);
    let a = DepositAccounts {
        user: account(user, key(0), true, 10, vec![]),
        authority: account(cfg.authority, key(0), true, 10, vec![]),
        payer: account(key(62), key(0), true, 10_000_000, vec![]),
        deposit: account(slot, key(0), false, 0, vec![]),
        source_token: token_account(key(71), &cfg, &mint, &user),
        collection_token: token_account(key(72), &cfg, &mint, &cfg.deposit_collector),
        collection_fee_token: token_account(key(73), &cfg, &mint, &cfg.fee_collector),
        mint: account(mint, cfg.token_program, false, 10, vec![]),
    };
    (cfg, a, DepositArgs { amount: 1_000_000, fee_bps: 50, key: reference, bump })
}

fn withdraw_setup() -> (Config, WithdrawAccounts, WithdrawArgs) {
    let cfg = config();
    let reference = key(41);
    let (slot, bump) = find_withdrawal_program_address(&cfg.program_id, &reference).unwrap();
    let mint = key(50);
    let wallet = key(60);
    let a = WithdrawAccounts {
        wallet: account(wallet, key(0), true, 10, vec![]),
        authority: account(cfg.authority, key(0), true, 10, vec![]),
        payer: account(key(62), key(0), true, 10_000_000, vec![]),
        withdraw: account(slot, key(0), false, 0, vec![]),
        source_token: token_account(key(71), &cfg, &mint, &wallet),
        destination_token: token_account(key(74), &cfg, &mint, &key(88)),
        collection_fee_token: token_account(key(73), &cfg, &mint, &cfg.fee_collector),
        mint: account(mint, cfg.token_program, false, 10, vec![]),
    };
    let args = WithdrawArgs { amount: 500_000, fee_bps: 100, key: reference, bump, fixed_fee: 250 };
    (cfg, a, args)
}

fn funding_setup() -> (Config, FundingAccounts, FundingArgs) {
    let cfg = config();
    let reference = key(42);
    let (slot, bump) = find_record_address(&cfg.program_id, &reference, "funding").unwrap();
    let mint = key(50);
    let user = key(60);
    let a = FundingAccounts {
        user: account(user, key(0), true, 10, vec![]),
        authority: account(cfg.authority, key(0), true, 10, vec![]),
        payer: account(key(62), key(0), true, 10_000_000, vec![]),
        funding: account(slot, key(0), false, 0, vec![]),
        source_token: token_account(key(71), &cfg, &mint, &user),
        collection_token: token_account(key(72), &cfg, &mint, &cfg.deposit_collector),
        collection_fee_token: token_account(key(73), &cfg, &mint, &cfg.fee_collector),
        mint: account(mint, cfg.token_program, false, 10, vec![]),
    };
    (cfg, a, FundingArgs { amount: 1_000_000, fee_bps: 50, key: reference, bump })
}

#[test]
fn deposit_moves_principal_and_fee() {
    let (cfg, a, args) = deposit_setup();
    let out = deposit::init(&cfg, &a, &args, RENT).unwrap();
    let p = out.principal.unwrap();
    assert_eq!((p.source, p.destination, p.authority, p.amount), (a.source_token.key, a.collection_token.key, a.user.key, 1_000_000));
    let f = out.fee.unwrap();
    assert_eq!((f.destination, f.amount), (a.collection_fee_token.key, 5_000));
    assert!(!p.is_native && !p.vault_signed);
    assert_eq!(out.allocation.address, a.deposit.key);
    assert_eq!(out.allocation.space, 1);
    assert_eq!(out.allocation.lamports, RENT);
}

#[test]
fn deposit_twice_fails_second_time() {
    let (cfg, a, args) = deposit_setup();
    let first = deposit::init(&cfg, &a, &args, RENT).unwrap();
    let mut again = a.clone();
    again.deposit.lamports += first.allocation.lamports;
    again.deposit.data = pack_flag(true);
    let second = deposit::init(&cfg, &again, &args, RENT);
    assert_eq!(second.unwrap_err(), CardError::AccountAlreadyInitialized);
}

#[test]
fn deposit_gates() {
    let (cfg, a, args) = deposit_setup();
    let mut b = a.clone();
    b.authority.key = key(9);
    assert_eq!(deposit::init(&cfg, &b, &args, RENT).unwrap_err(), CardError::InvalidAuthorityId);
    let mut b = a.clone();
    b.user.is_signer = false;
    assert_eq!(deposit::init(&cfg, &b, &args, RENT).unwrap_err(), CardError::MissingRequiredSignature);
    let mut b = a.clone();
    b.collection_token = token_account(key(72), &cfg, &key(50), &key(9));
    assert_eq!(deposit::init(&cfg, &b, &args, RENT).unwrap_err(), CardError::InvalidOwner);
    let mut b = a.clone();
    b.collection_fee_token = token_account(key(73), &cfg, &key(51), &cfg.fee_collector);
    assert_eq!(deposit::init(&cfg, &b, &args, RENT).unwrap_err(), CardError::InvalidMint);
    let mut b = a.clone();
    b.source_token.data.pop();
    assert_eq!(deposit::init(&cfg, &b, &args, RENT).unwrap_err(), CardError::InvalidAccountData);
    let wrong = DepositArgs { key: key(43), ..args };
    assert_eq!(deposit::init(&cfg, &a, &wrong, RENT).unwrap_err(), CardError::InvalidArgument);
    let huge = DepositArgs { amount: u64::MAX, fee_bps: 65_535, ..args };
    assert_eq!(deposit::init(&cfg, &a, &huge, RENT).unwrap_err(), CardError::MathOverflow);
}

#[test]
fn withdraw_moves_principal_and_whole_fee() {
    let (cfg, a, args) = withdraw_setup();
    let out = withdraw::init(&cfg, &a, &args, RENT).unwrap();
    let p = out.principal.unwrap();
    assert_eq!((p.destination, p.amount, p.authority), (a.destination_token.key, 500_000, a.wallet.key));
    let f = out.fee.unwrap();
    assert_eq!((f.destination, f.amount), (a.collection_fee_token.key, 5_250));
}

#[test]
fn withdraw_skips_zero_transfers() {
    let (cfg, a, args) = withdraw_setup();
    let zero = WithdrawArgs { amount: 0, fixed_fee: 0, ..args };
    let out = withdraw::init(&cfg, &a, &zero, RENT).unwrap();
    assert!(out.principal.is_none());
    assert!(out.fee.is_none());
    let fee_only = WithdrawArgs { amount: 0, fixed_fee: 7, ..args };
    let out = withdraw::init(&cfg, &a, &fee_only, RENT).unwrap();
    assert!(out.principal.is_none());
    assert_eq!(out.fee.unwrap().amount, 7);
}

#[test]
fn withdraw_twice_fails_second_time() {
    let (cfg, a, args) = withdraw_setup();
    let first = withdraw::init(&cfg, &a, &args, RENT).unwrap();
    let mut again = a.clone();
    again.withdraw.lamports += first.allocation.lamports;
    again.withdraw.data = pack_flag(true);
    assert_eq!(withdraw::init(&cfg, &again, &args, RENT).unwrap_err(), CardError::AccountAlreadyInitialized);
}

#[test]
fn withdraw_gates() {
    let (cfg, a, args) = withdraw_setup();
    let mut b = a.clone();
    b.source_token = token_account(key(71), &cfg, &key(50), &key(9));
    assert_eq!(withdraw::init(&cfg, &b, &args, RENT).unwrap_err(), CardError::InvalidOwner);
    let mut b = a.clone();
    b.destination_token.owner = key(9);
    assert_eq!(withdraw::init(&cfg, &b, &args, RENT).unwrap_err(), CardError::InvalidOwner);
    let over = WithdrawArgs { fixed_fee: u64::MAX, ..args };
    assert_eq!(withdraw::init(&cfg, &a, &over, RENT).unwrap_err(), CardError::MathOverflow);
    let mut b = a.clone();
    b.authority.is_signer = false;
    assert_eq!(withdraw::init(&cfg, &b, &args, RENT).unwrap_err(), CardError::MissingRequiredSignature);
}

#[test]
fn funding_splits_amount_and_fee() {
    let (cfg, a, args) = funding_setup();
    let out = funding::init(&cfg, &a, &args, RENT).unwrap();
    assert_eq!(out.principal.unwrap().amount, 995_000);
    assert_eq!(out.fee.unwrap().amount, 5_000);
    let mut again = a.clone();
    again.funding.lamports += out.allocation.lamports;
    again.funding.data = pack_flag(true);
    assert_eq!(funding::init(&cfg, &again, &args, RENT).unwrap_err(), CardError::AccountAlreadyInitialized);
    let over = FundingArgs { fee_bps: 20_000, ..args };
    assert_eq!(funding::init(&cfg, &a, &over, RENT).unwrap_err(), CardError::MathOverflow);
}
