use card_escrow::error::CardError;
use card_escrow::key::Key;
use card_escrow::state::{Escrow, EscrowState};

fn sample(settled_at: Option<u64>) -> Escrow {
    Escrow {
        state: EscrowState::Settled,
        amount: 1_000_000,
        fee_bps: 50,
        fixed_fee: 1000,
        src_token: Key::new([1; 32]),
        dst_token: Key::new([2; 32]),
        vault_token: Key::new([3; 32]),
        fee_token: Key::new([4; 32]),
        mint: Key::new([5; 32]),
        authority: Key::new([6; 32]),
        vault_bump: 254,
        reference: Key::new([7; 32]),
        settled_at,
    }
}

fn same(a: &Escrow, b: &Escrow) -> bool {
    a.state == b.state
        && a.amount == b.amount
        && a.fee_bps == b.fee_bps
        && a.fixed_fee == b.fixed_fee
        && a.src_token == b.src_token
        && a.dst_token == b.dst_token
        && a.vault_token == b.vault_token
        && a.fee_token == b.fee_token
        && a.mint == b.mint
        && a.authority == b.authority
        && a.vault_bump == b.vault_bump
        && a.reference == b.reference
        && a.settled_at == b.settled_at
}

#[test]
fn record_round_trip() {
    for t in [None, Some(0), Some(1_700_000_000), Some(u64::MAX)] {
        let e = sample(t);
        let bytes = e.pack();
        assert_eq!(bytes.len(), 253);
        let back = Escrow::unpack_from_slice(&bytes).unwrap();
        assert!(same(&e, &back));
    }
}

#[test]
fn record_layout() {
    let bytes = sample(Some(0x0102_0304_0506_0708)).pack();
    assert_eq!(bytes[0], 2);
    assert_eq!(&bytes[1..9], &1_000_000u64.to_le_bytes());
    assert_eq!(&bytes[9..11], &50u16.to_le_bytes());
    assert_eq!(&bytes[11..19], &1000u64.to_le_bytes());
    assert_eq!(&bytes[19..51], &[1u8; 32]);
    assert_eq!(&bytes[179..211], &[6u8; 32]);
    assert_eq!(bytes[211], 254);
    assert_eq!(&bytes[212..244], &[7u8; 32]);
    assert_eq!(bytes[244], 1);
    assert_eq!(&bytes[245..253], &0x0102_0304_0506_0708u64.to_le_bytes());
    let none = sample(None).pack();
    assert_eq!(none[244], 0);
    assert!(none[245..].iter().all(|b| *b == 0));
}

#[test]
fn record_decoding_rejects_bad_bytes() {
    let bytes = sample(None).pack();
    assert_eq!(Escrow::unpack_from_slice(&bytes[..252]).unwrap_err(), CardError::InvalidAccountData);
    let mut bad = bytes.clone();
    bad[0] = 5;
    assert_eq!(Escrow::unpack_from_slice(&bad).unwrap_err(), CardError::InvalidAccountData);
    let mut bad = bytes.clone();
    bad[244] = 2;
    assert_eq!(Escrow::unpack_from_slice(&bad).unwrap_err(), CardError::InvalidAccountData);
    let blank = Escrow::unpack_from_slice(&[0u8; 253]).unwrap();
    assert_eq!(blank.state, EscrowState::Uninitialized);
    assert_eq!(blank.settled_at, None);
}
