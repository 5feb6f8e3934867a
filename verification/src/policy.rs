//! The collateralization policy: when collateral at a price covers a debt.

use vstd::prelude::*;

verus! {

/// Whether `x` can be held in a signed 128-bit integer.
pub open spec fn fits(x: int) -> bool {
    i128::MIN <= x <= i128::MAX
}

/// Collateral covers a debt when its value at `price` is at least 150% of the
/// debt. Exactly 150% counts as covered.
pub open spec fn collateralized(collateral: int, price: int, debt: int) -> bool {
    collateral * price * 100 >= debt * 150
}

/// Whether every intermediate value of the coverage test fits in 128 bits:
/// the collateral's value, that value times 100, and the debt times 150.
pub open spec fn coverage_fits(collateral: int, price: int, debt: int) -> bool {
    &&& fits(collateral * price)
    &&& fits(collateral * price * 100)
    &&& fits(debt * 150)
}

/// Tests whether `collateral` at `price` covers `debt`, with checked
/// arithmetic. Returns `None` exactly when an intermediate value overflows.
pub fn covers(collateral: i128, price: i128, debt: i128) -> (r: Option<bool>)
    ensures
        r is Some <==> coverage_fits(collateral as int, price as int, debt as int),
        r matches Some(ok) ==> ok == collateralized(collateral as int, price as int, debt as int),
{
    let value = match collateral.checked_mul(price) {
        Some(v) => v,
        None => return None,
    };
    let scaled_value = match value.checked_mul(100) {
        Some(v) => v,
        None => return None,
    };
    let scaled_debt = match debt.checked_mul(150) {
        Some(v) => v,
        None => return None,
    };
    Some(scaled_value >= scaled_debt)
}

} // verus!
