//! The ledger as a mathematical object: a map from accounts to vaults and a
//! price, with the effect of every operation as a function on it.

use crate::vault::VaultView;
use soroban_sdk::Address;
use vstd::prelude::*;

verus! {

/// The state of a ledger.
pub struct LedgerView {
    /// The vault of every account that has a readable entry.
    pub vaults: Map<Address, VaultView>,
    /// The accounts whose entry exists but does not hold a vault record.
    pub unreadable: Set<Address>,
    /// The price that was set, if any.
    pub price: Option<int>,
}

impl LedgerView {
    /// The ledger before anything has happened.
    pub open spec fn empty() -> LedgerView {
        LedgerView { vaults: Map::empty(), unreadable: Set::empty(), price: None }
    }

    /// Whether the ledger has an entry for `account`, readable or not.
    pub open spec fn has_entry(self, account: Address) -> bool {
        self.vaults.contains_key(account) || self.unreadable.contains(account)
    }

    /// Whether the entry of `account`, if there is one, holds a vault record.
    pub open spec fn readable(self, account: Address) -> bool {
        !self.unreadable.contains(account)
    }

    /// The vault of `account`; an account without an entry has the zero
    /// vault.
    pub open spec fn vault_of(self, account: Address) -> VaultView {
        if self.vaults.contains_key(account) {
            self.vaults[account]
        } else {
            VaultView::zero()
        }
    }

    /// The price of one unit of collateral in units of debt: 1 until a price
    /// is set.
    pub open spec fn current_price(self) -> int {
        match self.price {
            Some(p) => p,
            None => 1,
        }
    }

    /// The ledger with `vault` as the entry of `account`.
    pub open spec fn with_vault(self, account: Address, vault: VaultView) -> LedgerView {
        LedgerView {
            vaults: self.vaults.insert(account, vault),
            unreadable: self.unreadable.remove(account),
            price: self.price,
        }
    }

    /// The ledger with `price` as the price that was set.
    pub open spec fn with_price(self, price: int) -> LedgerView {
        LedgerView { vaults: self.vaults, unreadable: self.unreadable, price: Some(price) }
    }

    /// No vault holds negative collateral or negative debt.
    pub open spec fn nonnegative(self) -> bool {
        forall|account: Address|
            self.vaults.contains_key(account) ==> (#[trigger] self.vaults[account]).nonnegative()
    }

    /// The ledger after `account` has been given an empty vault.
    pub open spec fn after_init(self, account: Address) -> LedgerView {
        self.with_vault(account, VaultView::zero())
    }

    /// The ledger after `account` has deposited `amount`.
    pub open spec fn after_deposit(self, account: Address, amount: int) -> LedgerView {
        self.with_vault(account, self.vault_of(account).deposited(amount))
    }

    /// Whether `account` may withdraw `amount`.
    pub open spec fn withdraw_granted(self, account: Address, amount: int) -> bool {
        self.vault_of(account).can_withdraw(amount)
    }

    /// The ledger after `account` has asked to withdraw `amount`: unchanged
    /// when the withdrawal is declined.
    pub open spec fn after_withdraw(self, account: Address, amount: int) -> LedgerView {
        if self.withdraw_granted(account, amount) {
            self.with_vault(account, self.vault_of(account).withdrawn(amount))
        } else {
            self
        }
    }

    /// Whether `account` may borrow `amount` at the current price.
    pub open spec fn borrow_granted(self, account: Address, amount: int) -> bool {
        self.vault_of(account).can_borrow(self.current_price(), amount)
    }

    /// The ledger after `account` has asked to borrow `amount`: unchanged when
    /// the loan is declined.
    pub open spec fn after_borrow(self, account: Address, amount: int) -> LedgerView {
        if self.borrow_granted(account, amount) {
            self.with_vault(account, self.vault_of(account).borrowed(amount))
        } else {
            self
        }
    }

    /// Whether a repayment by `account` is accepted.
    pub open spec fn repay_accepted(self, account: Address) -> bool {
        self.vault_of(account).can_repay()
    }

    /// The ledger after `account` has offered to repay `amount`: unchanged
    /// when there was no debt.
    pub open spec fn after_repay(self, account: Address, amount: int) -> LedgerView {
        if self.repay_accepted(account) {
            self.with_vault(account, self.vault_of(account).repaid(amount))
        } else {
            self
        }
    }

    /// Whether the vault of `borrower` can be liquidated at the current
    /// price.
    pub open spec fn liquidation_granted(self, borrower: Address) -> bool {
        self.vault_of(borrower).liquidatable(self.current_price())
    }

    /// The ledger after `liquidator` has asked to liquidate `borrower`. When
    /// granted, the liquidator's vault receives all of the borrower's
    /// collateral and then the borrower's vault is reset to zero, debt
    /// included; the borrower's entry is written last, so an account that
    /// liquidates itself ends with the zero vault.
    pub open spec fn after_liquidate(self, liquidator: Address, borrower: Address) -> LedgerView {
        if self.liquidation_granted(borrower) {
            self.with_vault(
                liquidator,
                self.vault_of(liquidator).enriched(self.vault_of(borrower).collateral),
            ).with_vault(borrower, VaultView::zero())
        } else {
            self
        }
    }

    /// Whether every sum that a granted liquidation computes fits in 128
    /// bits: the coverage test of the borrower's vault and, when the
    /// liquidation is granted, the liquidator's new collateral.
    pub open spec fn liquidate_fits(self, liquidator: Address, borrower: Address) -> bool {
        &&& self.vault_of(borrower).liquidation_fits(self.current_price())
        &&& self.liquidation_granted(borrower) ==> self.vault_of(liquidator).deposit_fits(
            self.vault_of(borrower).collateral,
        )
    }
}

/// A request to the ledger.
pub enum Operation {
    Init { account: Address },
    Deposit { account: Address, amount: int },
    Withdraw { account: Address, amount: int },
    Borrow { account: Address, amount: int },
    Repay { account: Address, amount: int },
    Liquidate { liquidator: Address, borrower: Address },
    SetPrice { price: int },
}

impl LedgerView {
    /// Whether `op` may be requested in this state: a vault is initialized
    /// only for an account without an entry, and a deposit is not negative.
    pub open spec fn admits(self, op: Operation) -> bool {
        match op {
            Operation::Init { account } => !self.has_entry(account),
            Operation::Deposit { account, amount } => amount >= 0,
            _ => true,
        }
    }

    /// The ledger after `op`.
    pub open spec fn apply(self, op: Operation) -> LedgerView {
        match op {
            Operation::Init { account } => self.after_init(account),
            Operation::Deposit { account, amount } => self.after_deposit(account, amount),
            Operation::Withdraw { account, amount } => self.after_withdraw(account, amount),
            Operation::Borrow { account, amount } => self.after_borrow(account, amount),
            Operation::Repay { account, amount } => self.after_repay(account, amount),
            Operation::Liquidate { liquidator, borrower } => self.after_liquidate(
                liquidator,
                borrower,
            ),
            Operation::SetPrice { price } => self.with_price(price),
        }
    }

    /// The ledger after the operations of `ops`, in order.
    pub open spec fn apply_all(self, ops: Seq<Operation>) -> LedgerView
        decreases ops.len(),
    {
        if ops.len() == 0 {
            self
        } else {
            self.apply(ops.first()).apply_all(ops.drop_first())
        }
    }
}

} // verus!
