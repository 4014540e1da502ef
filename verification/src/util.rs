//! Fee computation.

use vstd::prelude::*;

verus! {

/// One whole in basis points: a fee rate of `BASIS_POINT_SCALE` keeps the
/// full amount.
pub const BASIS_POINT_SCALE: u64 = 10_000;

/// The protocol fee on a traded amount: `floor(amount * rate / 10000)`,
/// with the rate in basis points.
pub open spec fn spec_fee(amount: int, fee_basis_points: int) -> int {
    amount * fee_basis_points / (BASIS_POINT_SCALE as int)
}

/// The fee charged on `amount` at `fee_basis_points`, computed with a wide
/// intermediate so the product cannot overflow.
pub fn calculate_fee(amount: u64, fee_basis_points: u64) -> (fee: u64)
    requires
        spec_fee(amount as int, fee_basis_points as int) <= u64::MAX,
    ensures
        fee == spec_fee(amount as int, fee_basis_points as int),
{
    proof {
        assert((amount as int) * (fee_basis_points as int) <= u128::MAX) by (nonlinear_arith)
            requires
                amount <= u64::MAX,
                fee_basis_points <= u64::MAX;
    }
    let wide: u128 = (amount as u128) * (fee_basis_points as u128);
    (wide / (BASIS_POINT_SCALE as u128)) as u64
}

} // verus!
