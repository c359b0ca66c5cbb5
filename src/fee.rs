//! Fee calculator: a basis-point fee plus a fixed fee, every step checked.

use crate::error::CardError;
use vstd::prelude::*;

verus! {

/// The number of basis points in one whole.
pub const BPS_DENOMINATOR: u64 = 10000;

/// The proportional fee: `floor(amount * bps / 10000)`.
pub open spec fn fee_of(amount: int, bps: int) -> int {
    amount * bps / 10000
}

/// The whole fee: the proportional part plus the fixed part.
pub open spec fn total_fee_of(amount: int, bps: int, fixed: int) -> int {
    fee_of(amount, bps) + fixed
}

/// The principal together with its whole fee.
pub open spec fn total_with_fee_of(amount: int, bps: int, fixed: int) -> int {
    amount + total_fee_of(amount, bps, fixed)
}

/// What a checked computation of `v` gives: `v` when it fits in a `u64`, an
/// overflow error otherwise.
pub open spec fn checked_u64(v: int) -> Result<u64, CardError> {
    if 0 <= v <= u64::MAX {
        Ok(v as u64)
    } else {
        Err(CardError::MathOverflow)
    }
}

/// The proportional fee on `total_amount` at `fee_basis_points`, computed in a
/// 128-bit intermediate; fails with `MathOverflow` when it does not fit in 64 bits.
pub fn calculate_fee(total_amount: u64, fee_basis_points: u64) -> (r: Result<u64, CardError>)
    ensures
        r == checked_u64(fee_of(total_amount as int, fee_basis_points as int)),
{
    proof {
        let a = total_amount as int;
        let b = fee_basis_points as int;
        assert(0 <= a * b <= u64::MAX as int * u64::MAX as int) by (nonlinear_arith)
            requires
                0 <= a <= u64::MAX,
                0 <= b <= u64::MAX,
        ;
    }
    let wide: u128 = (total_amount as u128) * (fee_basis_points as u128);
    let q: u128 = wide / (BPS_DENOMINATOR as u128);
    if q <= u64::MAX as u128 {
        Ok(q as u64)
    } else {
        Err(CardError::MathOverflow)
    }
}

/// The whole fee: `calculate_fee(amount, bps) + fixed_fee`, failing with
/// `MathOverflow` when any step overflows.
pub fn calculate_total_fee(amount: u64, fee_bps: u64, fixed_fee: u64) -> (r: Result<u64, CardError>)
    ensures
        r == checked_u64(total_fee_of(amount as int, fee_bps as int, fixed_fee as int)),
{
    proof {
        lemma_fee_nonneg(amount as int, fee_bps as int);
    }
    let fee = calculate_fee(amount, fee_bps)?;
    match fee.checked_add(fixed_fee) {
        Some(t) => Ok(t),
        None => Err(CardError::MathOverflow),
    }
}

/// The principal plus its whole fee, failing with `MathOverflow` when any step
/// overflows.
pub fn calculate_total_with_fee(amount: u64, fee_bps: u64, fixed_fee: u64) -> (r: Result<
    u64,
    CardError,
>)
    ensures
        r == checked_u64(total_with_fee_of(amount as int, fee_bps as int, fixed_fee as int)),
{
    proof {
        lemma_fee_nonneg(amount as int, fee_bps as int);
    }
    let fee = calculate_total_fee(amount, fee_bps, fixed_fee)?;
    match amount.checked_add(fee) {
        Some(t) => Ok(t),
        None => Err(CardError::MathOverflow),
    }
}

/// The amount that remains once the proportional fee is taken out.
pub fn calculate_amount_less_fee(total_amount: u64, fee_basis_points: u64) -> (r: Result<
    u64,
    CardError,
>)
    ensures
        r == checked_u64(
            total_amount - fee_of(total_amount as int, fee_basis_points as int),
        ),
{
    proof {
        lemma_fee_nonneg(total_amount as int, fee_basis_points as int);
    }
    let fee = calculate_fee(total_amount, fee_basis_points)?;
    match total_amount.checked_sub(fee) {
        Some(t) => Ok(t),
        None => Err(CardError::MathOverflow),
    }
}

/// The proportional fee of non-negative values is non-negative.
pub proof fn lemma_fee_nonneg(amount: int, bps: int)
    requires
        amount >= 0,
        bps >= 0,
    ensures
        fee_of(amount, bps) >= 0,
{
    assert(amount * bps >= 0) by (nonlinear_arith)
        requires
            amount >= 0,
            bps >= 0,
    ;
}

/// The whole fee is the proportional fee plus the fixed fee, each the exact
/// floor quotient, and it is refused with `MathOverflow` exactly when the
/// proportional fee or the sum does not fit in 64 bits: nothing wraps.
pub proof fn lemma_total_fee_splits(amount: u64, fee_bps: u64, fixed_fee: u64)
    ensures
        checked_u64(fee_of(amount as int, fee_bps as int)) matches Ok(f) ==> f == (amount as int
            * fee_bps as int) / 10000,
        checked_u64(total_fee_of(amount as int, fee_bps as int, fixed_fee as int)) matches Ok(t)
            ==> checked_u64(fee_of(amount as int, fee_bps as int)) matches Ok(f) && t == f
            + fixed_fee,
        checked_u64(total_fee_of(amount as int, fee_bps as int, fixed_fee as int)) is Err
            <==> fee_of(amount as int, fee_bps as int) + fixed_fee > u64::MAX,
        checked_u64(total_fee_of(amount as int, fee_bps as int, fixed_fee as int)) is Err
            ==> checked_u64(total_fee_of(amount as int, fee_bps as int, fixed_fee as int))
            == Err::<u64, CardError>(CardError::MathOverflow),
{
    lemma_fee_nonneg(amount as int, fee_bps as int);
}

} // verus!
