use card_escrow::error::CardError;
use card_escrow::fee::{
    calculate_amount_less_fee, calculate_fee, calculate_total_fee, calculate_total_with_fee,
};

#[test]
fn fee_is_floor_of_basis_points() {
    assert_eq!(calculate_fee(1_000_000, 50), Ok(5_000));
    assert_eq!(calculate_fee(199, 50), Ok(0));
    assert_eq!(calculate_fee(12_345, 100), Ok(123));
    assert_eq!(calculate_fee(0, 65_535), Ok(0));
    assert_eq!(calculate_fee(10_000, 10_000), Ok(10_000));
}

#[test]
fn fee_uses_wide_intermediate() {
    // amount * bps exceeds 64 bits, the quotient does not.
    assert_eq!(calculate_fee(u64::MAX, 100), Ok(u64::MAX / 100));
    assert_eq!(calculate_fee(u64::MAX, 10_000), Ok(u64::MAX));
}

#[test]
fn fee_overflow_is_reported() {
    assert_eq!(calculate_fee(u64::MAX, 20_000), Err(CardError::MathOverflow));
    assert_eq!(calculate_total_fee(u64::MAX, 10_000, 1), Err(CardError::MathOverflow));
    assert_eq!(calculate_total_with_fee(u64::MAX, 1, 0), Err(CardError::MathOverflow));
    assert_eq!(calculate_total_with_fee(u64::MAX - 5, 0, 6), Err(CardError::MathOverflow));
}

#[test]
fn total_fee_adds_fixed_fee() {
    assert_eq!(calculate_total_fee(1_000_000, 50, 1000), Ok(6_000));
    assert_eq!(calculate_total_fee(0, 50, 1000), Ok(1_000));
    let fee = calculate_fee(987_654, 37).unwrap();
    assert_eq!(calculate_total_fee(987_654, 37, 11), Ok(fee + 11));
    assert_eq!(fee, 987_654 * 37 / 10_000);
}

#[test]
fn total_with_fee_adds_principal() {
    assert_eq!(calculate_total_with_fee(1_000_000, 50, 1000), Ok(1_006_000));
    assert_eq!(calculate_total_with_fee(u64::MAX - 6, 0, 6), Ok(u64::MAX));
}

#[test]
fn amount_less_fee_subtracts_fee() {
    assert_eq!(calculate_amount_less_fee(1_000_000, 50), Ok(995_000));
    assert_eq!(calculate_amount_less_fee(100, 10_000), Ok(0));
    assert_eq!(calculate_amount_less_fee(100, 20_000), Err(CardError::MathOverflow));
}
