//! The trading fee: a share of a trade's sol amount, in basis points.

use vstd::prelude::*;
use crate::arith::lemma_floor_bounds;
use crate::error::CurveLaunchpadError;

verus! {

/// One basis point is a ten-thousandth.
pub const BASIS_POINTS: u64 = 10_000;

/// The fee on `sol_amount` at `fee_basis_points`, rounded down.
pub open spec fn fee_of(sol_amount: int, fee_basis_points: int) -> int {
    sol_amount * fee_basis_points / 10_000
}

/// At a rate of at most the whole, the fee is at most the amount.
pub proof fn fee_of_bounds(sol_amount: int, fee_basis_points: int)
    requires
        0 <= sol_amount,
        0 <= fee_basis_points <= 10_000,
    ensures
        0 <= fee_of(sol_amount, fee_basis_points) <= sol_amount,
        fee_basis_points == 10_000 ==> fee_of(sol_amount, fee_basis_points) == sol_amount,
        fee_basis_points == 0 ==> fee_of(sol_amount, fee_basis_points) == 0,
{
    let k = sol_amount * fee_basis_points;
    assert(0 <= k <= sol_amount * 10_000) by (nonlinear_arith)
        requires
            k == sol_amount * fee_basis_points,
            0 <= sol_amount,
            0 <= fee_basis_points <= 10_000,
    ;
    lemma_floor_bounds(k, 10_000);
}

/// The fee on `sol_amount` at `fee_basis_points`: the product over ten
/// thousand, rounded down.
///
/// The product is formed in 128 bits, so the only failure is a fee that does
/// not fit in 64 bits, which takes a rate above the whole.
pub fn calculate_fee(sol_amount: u64, fee_basis_points: u64) -> (r: Result<
    u64,
    CurveLaunchpadError,
>)
    ensures
        fee_of(sol_amount as int, fee_basis_points as int) <= u64::MAX ==> r == Ok::<
            u64,
            CurveLaunchpadError,
        >(fee_of(sol_amount as int, fee_basis_points as int) as u64),
        fee_of(sol_amount as int, fee_basis_points as int) > u64::MAX ==> r == Err::<
            u64,
            CurveLaunchpadError,
        >(CurveLaunchpadError::ArithmeticOverflow),
        fee_basis_points <= 10_000 ==> r is Ok && r->Ok_0 <= sol_amount,
{
    assert(0 <= sol_amount * fee_basis_points <= u128::MAX) by (nonlinear_arith)
        requires
            0 <= sol_amount <= 0xffff_ffff_ffff_ffff,
            0 <= fee_basis_points <= 0xffff_ffff_ffff_ffff,
    ;
    let product: u128 = (sol_amount as u128) * (fee_basis_points as u128);
    let fee: u128 = product / (BASIS_POINTS as u128);
    proof {
        if fee_basis_points <= 10_000 {
            fee_of_bounds(sol_amount as int, fee_basis_points as int);
        }
    }
    if fee > 0xffff_ffff_ffff_ffff {
        Err(CurveLaunchpadError::ArithmeticOverflow)
    } else {
        Ok(fee as u64)
    }
}

} // verus!
