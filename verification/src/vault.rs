//! Vaults: the per-account record of collateral and debt, and what each
//! operation does to one.

use crate::policy::{collateralized, coverage_fits, fits};
use vstd::prelude::*;

verus! {

/// The collateral deposited by an account and the debt it has drawn, in the
/// smallest unit of each asset.
#[derive(Clone, Copy, Debug, PartialEq, Eq)]
pub struct Vault {
    pub collateral: i128,
    pub debt: i128,
}

/// A vault as a pair of mathematical integers.
pub struct VaultView {
    pub collateral: int,
    pub debt: int,
}

impl View for Vault {
    type V = VaultView;

    open spec fn view(&self) -> VaultView {
        VaultView { collateral: self.collateral as int, debt: self.debt as int }
    }
}

impl VaultView {
    /// The vault of an account that has neither deposited nor borrowed.
    pub open spec fn zero() -> VaultView {
        VaultView { collateral: 0, debt: 0 }
    }

    /// Neither collateral nor debt is negative.
    pub open spec fn nonnegative(self) -> bool {
        self.collateral >= 0 && self.debt >= 0
    }

    /// The vault after `amount` more collateral has been deposited.
    pub open spec fn deposited(self, amount: int) -> VaultView {
        VaultView { collateral: self.collateral + amount, debt: self.debt }
    }

    /// A withdrawal is granted when it does not exceed the collateral. The
    /// debt plays no part: a withdrawal may leave the vault under-collateralized.
    pub open spec fn can_withdraw(self, amount: int) -> bool {
        amount <= self.collateral
    }

    /// The vault after `amount` of collateral has been withdrawn.
    pub open spec fn withdrawn(self, amount: int) -> VaultView {
        VaultView { collateral: self.collateral - amount, debt: self.debt }
    }

    /// A loan of `amount` is granted when the collateral at `price` covers the
    /// debt as it would stand after the loan.
    pub open spec fn can_borrow(self, price: int, amount: int) -> bool {
        collateralized(self.collateral, price, self.debt + amount)
    }

    /// The vault after `amount` more has been borrowed.
    pub open spec fn borrowed(self, amount: int) -> VaultView {
        VaultView { collateral: self.collateral, debt: self.debt + amount }
    }

    /// A repayment is accepted whenever there is debt, whatever the amount.
    pub open spec fn can_repay(self) -> bool {
        self.debt != 0
    }

    /// The part of `amount` that a repayment takes: never more than the debt.
    pub open spec fn repayment(self, amount: int) -> int {
        if amount > self.debt {
            self.debt
        } else {
            amount
        }
    }

    /// The vault after a repayment of `amount`; what exceeds the debt is
    /// discarded.
    pub open spec fn repaid(self, amount: int) -> VaultView {
        VaultView { collateral: self.collateral, debt: self.debt - self.repayment(amount) }
    }

    /// A vault can be liquidated when it has debt that its collateral at
    /// `price` does not cover. Exactly 150% is covered, hence not liquidatable.
    pub open spec fn liquidatable(self, price: int) -> bool {
        self.debt != 0 && !collateralized(self.collateral, price, self.debt)
    }

    /// The liquidator's vault after it has received `seized` collateral.
    pub open spec fn enriched(self, seized: int) -> VaultView {
        VaultView { collateral: self.collateral + seized, debt: self.debt }
    }

    /// The deposit's sum fits in 128 bits.
    pub open spec fn deposit_fits(self, amount: int) -> bool {
        fits(self.collateral + amount)
    }

    /// The difference of a granted withdrawal fits in 128 bits. A withdrawal
    /// that is declined computes nothing.
    pub open spec fn withdraw_fits(self, amount: int) -> bool {
        self.can_withdraw(amount) ==> fits(self.collateral - amount)
    }

    /// Every value that deciding and booking a loan computes fits in 128
    /// bits: the new debt and the three products of the coverage test.
    pub open spec fn borrow_fits(self, price: int, amount: int) -> bool {
        fits(self.debt + amount) && coverage_fits(self.collateral, price, self.debt + amount)
    }

    /// The difference of an accepted repayment fits in 128 bits. A repayment
    /// on a vault without debt computes nothing.
    pub open spec fn repay_fits(self, amount: int) -> bool {
        self.can_repay() ==> fits(self.debt - self.repayment(amount))
    }

    /// Every value that deciding a liquidation of this vault computes fits in
    /// 128 bits. Without debt nothing is computed.
    pub open spec fn liquidation_fits(self, price: int) -> bool {
        self.debt != 0 ==> coverage_fits(self.collateral, price, self.debt)
    }
}

impl Vault {
    /// A vault with no collateral and no debt.
    pub fn zero() -> (v: Vault)
        ensures
            v@ == VaultView::zero(),
    {
        Vault { collateral: 0, debt: 0 }
    }
}

} // verus!
