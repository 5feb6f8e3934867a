//! The vault ledger: the vault of every account and the current price, with
//! the operations that change them.
//!
//! Every operation comes in two forms. The one named `try_..` accepts any
//! input and reports as an error what would otherwise abort the operation: an
//! entry that does not hold a vault record, a sum or product that leaves the
//! 128-bit range, an account that is initialized twice. The other takes only
//! inputs on which none of that happens and returns the plain outcome. In
//! either form an operation that is declined or fails leaves the ledger as it
//! was.
//!
//! The caller is responsible for authorization: an operation on an account
//! must be requested by whoever controls that account, a liquidation by
//! whoever controls the liquidator's account.

use crate::host::{has_record, read_record, stored_records, write_record, VaultMap};
use crate::model::LedgerView;
use crate::policy::covers;
use crate::vault::{Vault, VaultView};
use soroban_sdk::Address;
use vstd::pervasive::unreached;
use vstd::prelude::*;

verus! {

/// Why an operation was not carried out.
#[derive(Clone, Copy, Debug, PartialEq, Eq)]
pub enum LedgerError {
    /// The account already has a vault.
    AlreadyExists,
    /// A negative amount was offered as a deposit.
    NegativeAmount,
    /// A sum, difference or product does not fit in 128 bits.
    Overflow,
    /// The entry of an account involved does not hold a vault record.
    Unreadable,
}

/// The vault that a stored record stands for: a record is a vector of exactly
/// two integers, the collateral and then the debt.
pub open spec fn record_vault(record: Option<Seq<i128>>) -> Option<VaultView> {
    match record {
        Some(items) => if items.len() == 2 {
            Some(VaultView { collateral: items[0] as int, debt: items[1] as int })
        } else {
            None
        },
        None => None,
    }
}

/// The ledger that a map of stored records and a stored price stand for.
pub open spec fn ledger_view(
    records: Map<Address, Option<Seq<i128>>>,
    price: Option<i128>,
) -> LedgerView {
    LedgerView {
        vaults: Map::new(
            |account: Address|
                records.contains_key(account) && record_vault(records[account]) is Some,
            |account: Address| record_vault(records[account]).unwrap(),
        ),
        unreadable: Set::new(
            |account: Address|
                records.contains_key(account) && record_vault(records[account]) is None,
        ),
        price: match price {
            Some(p) => Some(p as int),
            None => None,
        },
    }
}

/// Writing the record of `vault` under `account` gives the ledger with that
/// vault as the account's entry.
proof fn lemma_view_after_write(
    records: Map<Address, Option<Seq<i128>>>,
    price: Option<i128>,
    account: Address,
    vault: Vault,
)
    ensures
        ledger_view(records.insert(account, Some(seq![vault.collateral, vault.debt])), price)
            == ledger_view(records, price).with_vault(account, vault@),
{
    let written = ledger_view(
        records.insert(account, Some(seq![vault.collateral, vault.debt])),
        price,
    );
    let expected = ledger_view(records, price).with_vault(account, vault@);
    assert(record_vault(Some(seq![vault.collateral, vault.debt])) == Some(vault@));
    assert(written.vaults =~= expected.vaults);
    assert(written.unreadable =~= expected.unreadable);
}

/// Decodes a stored record.
fn decode(items: &Vec<i128>) -> (r: Option<Vault>)
    ensures
        match r {
            Some(vault) => record_vault(Some(items@)) == Some(vault@),
            None => record_vault(Some(items@)) is None,
        },
{
    if items.len() == 2 {
        Some(Vault { collateral: items[0], debt: items[1] })
    } else {
        None
    }
}

/// The ledger: a vault for every account that has one, and the price of
/// collateral.
pub struct VaultManager {
    vaults: VaultMap,
    price: Option<i128>,
}

impl View for VaultManager {
    type V = LedgerView;

    closed spec fn view(&self) -> LedgerView {
        ledger_view(stored_records(self.vaults), self.price)
    }
}

impl VaultManager {
    /// A ledger over the stored records `vaults` and the stored price, `None`
    /// standing for a price that was never set.
    pub fn new(vaults: VaultMap, price: Option<i128>) -> (manager: VaultManager)
        ensures
            manager@ == ledger_view(stored_records(vaults), price),
    {
        VaultManager { vaults, price }
    }

    /// Gives back the records and the price, as they are to be stored.
    pub fn into_parts(self) -> (parts: (VaultMap, Option<i128>))
        ensures
            ledger_view(stored_records(parts.0), parts.1) == self@,
    {
        (self.vaults, self.price)
    }

    /// The price of one unit of collateral in units of debt: the price that
    /// was set last, and 1 if none was ever set.
    pub fn get_price(&self) -> (price: i128)
        ensures
            price == self@.current_price(),
    {
        match self.price {
            Some(p) => p,
            None => 1,
        }
    }

    /// Sets the price. No vault is touched: one that the new price leaves
    /// under-collateralized stays as it is until it is liquidated.
    pub fn set_price(&mut self, price: i128)
        ensures
            final(self)@ == old(self)@.with_price(price as int),
    {
        self.price = Some(price);
    }

    /// The entry of `account`, if there is one.
    fn load(&self, account: &Address) -> (r: Result<Option<Vault>, LedgerError>)
        ensures
            match r {
                Ok(Some(vault)) => self@.vaults.contains_key(*account) && self@.vaults[*account]
                    == vault@,
                Ok(None) => !self@.has_entry(*account),
                Err(e) => e == LedgerError::Unreadable && !self@.readable(*account),
            },
    {
        match read_record(&self.vaults, account) {
            Ok(Some(items)) => match decode(&items) {
                Some(vault) => Ok(Some(vault)),
                None => Err(LedgerError::Unreadable),
            },
            Ok(None) => Ok(None),
            Err(_) => Err(LedgerError::Unreadable),
        }
    }

    /// The vault of `account`, which is the zero vault for an account without
    /// an entry.
    fn load_or_zero(&self, account: &Address) -> (r: Result<Vault, LedgerError>)
        ensures
            match r {
                Ok(vault) => self@.readable(*account) && vault@ == self@.vault_of(*account),
                Err(e) => e == LedgerError::Unreadable && !self@.readable(*account),
            },
    {
        match self.load(account) {
            Ok(Some(vault)) => Ok(vault),
            Ok(None) => Ok(Vault::zero()),
            Err(e) => Err(e),
        }
    }

    /// Makes `vault` the entry of `account`.
    fn store(&mut self, account: &Address, vault: Vault)
        ensures
            final(self)@ == old(self)@.with_vault(*account, vault@),
    {
        proof {
            lemma_view_after_write(stored_records(self.vaults), self.price, *account, vault);
        }
        write_record(&mut self.vaults, account, vault.collateral, vault.debt);
    }

    /// The vault of `user`, or `None` if the account has no entry. Fails with
    /// `Unreadable` exactly when the entry does not hold a vault record.
    pub fn try_get_vault(&self, user: Address) -> (r: Result<Option<Vault>, LedgerError>)
        ensures
            match r {
                Ok(Some(vault)) => self@.vaults.contains_key(user) && self@.vaults[user] == vault@,
                Ok(None) => !self@.has_entry(user),
                Err(e) => e == LedgerError::Unreadable && !self@.readable(user),
            },
    {
        self.load(&user)
    }

    /// The vault of `user`, or `None` if the account has no entry.
    pub fn get_vault(&self, user: Address) -> (r: Option<Vault>)
        requires
            self@.readable(user),
        ensures
            match r {
                Some(vault) => self@.vaults.contains_key(user) && self@.vaults[user] == vault@,
                None => !self@.has_entry(user),
            },
    {
        match self.load(&user) {
            Ok(entry) => entry,
            Err(_) => unreached(),
        }
    }

    /// Gives `user` an empty vault. Fails with `AlreadyExists` exactly when
    /// the account has an entry already.
    pub fn try_init_vault(&mut self, user: Address) -> (r: Result<(), LedgerError>)
        ensures
            match r {
                Ok(_) => !old(self)@.has_entry(user) && final(self)@ == old(self)@.after_init(
                    user,
                ),
                Err(e) => e == LedgerError::AlreadyExists && old(self)@.has_entry(user) && final(self)@ == old(self)@,
            },
    {
        if has_record(&self.vaults, &user) {
            return Err(LedgerError::AlreadyExists);
        }
        self.store(&user, Vault::zero());
        Ok(())
    }

    /// Gives `user`, who has no entry yet, an empty vault.
    pub fn init_vault(&mut self, user: Address)
        requires
            !old(self)@.has_entry(user),
        ensures
            final(self)@ == old(self)@.after_init(user),
    {
        match self.try_init_vault(user) {
            Ok(_) => {},
            Err(_) => unreached(),
        }
    }

    /// Adds `amount` to the collateral of `user`, creating the vault if need
    /// be. Fails with `NegativeAmount` when `amount` is negative, else with
    /// `Unreadable` when the entry does not hold a vault record, else with
    /// `Overflow` when the sum does not fit.
    pub fn try_deposit_collateral(&mut self, user: Address, amount: i128) -> (r: Result<
        (),
        LedgerError,
    >)
        ensures
            match r {
                Ok(_) => {
                    &&& amount >= 0
                    &&& old(self)@.readable(user)
                    &&& old(self)@.vault_of(user).deposit_fits(amount as int)
                    &&& final(self)@ == old(self)@.after_deposit(user, amount as int)
                },
                Err(e) => {
                    &&& final(self)@ == old(self)@
                    &&& e == LedgerError::NegativeAmount <==> amount < 0
                    &&& e == LedgerError::Unreadable <==> amount >= 0 && !old(self)@.readable(user)
                    &&& e == LedgerError::Overflow <==> amount >= 0 && old(self)@.readable(user)
                        && !old(self)@.vault_of(user).deposit_fits(amount as int)
                    &&& e != LedgerError::AlreadyExists
                },
            },
    {
        if amount < 0 {
            return Err(LedgerError::NegativeAmount);
        }
        let vault = match self.load_or_zero(&user) {
            Ok(vault) => vault,
            Err(e) => return Err(e),
        };
        let collateral = match vault.collateral.checked_add(amount) {
            Some(sum) => sum,
            None => return Err(LedgerError::Overflow),
        };
        self.store(&user, Vault { collateral, debt: vault.debt });
        Ok(())
    }

    /// Adds `amount` to the collateral of `user`, creating the vault if need
    /// be.
    pub fn deposit_collateral(&mut self, user: Address, amount: i128)
        requires
            amount >= 0,
            old(self)@.readable(user),
            old(self)@.vault_of(user).deposit_fits(amount as int),
        ensures
            final(self)@ == old(self)@.after_deposit(user, amount as int),
    {
        match self.try_deposit_collateral(user, amount) {
            Ok(_) => {},
            Err(_) => unreached(),
        }
    }

    /// Takes `amount` out of the collateral of `user`. Returns `Ok(false)`,
    /// with nothing changed, when `amount` exceeds the collateral. The debt is
    /// not looked at. Fails with `Unreadable` when the entry does not hold a
    /// vault record, else with `Overflow` when the difference does not fit.
    pub fn try_withdraw_collateral(&mut self, user: Address, amount: i128) -> (r: Result<
        bool,
        LedgerError,
    >)
        ensures
            match r {
                Ok(granted) => {
                    &&& old(self)@.readable(user)
                    &&& old(self)@.vault_of(user).withdraw_fits(amount as int)
                    &&& granted == old(self)@.withdraw_granted(user, amount as int)
                    &&& final(self)@ == old(self)@.after_withdraw(user, amount as int)
                },
                Err(e) => {
                    &&& final(self)@ == old(self)@
                    &&& e == LedgerError::Unreadable <==> !old(self)@.readable(user)
                    &&& e == LedgerError::Overflow <==> old(self)@.readable(user) && !old(self)@.vault_of(user).withdraw_fits(amount as int)
                    &&& e != LedgerError::AlreadyExists
                    &&& e != LedgerError::NegativeAmount
                },
            },
    {
        let vault = match self.load_or_zero(&user) {
            Ok(vault) => vault,
            Err(e) => return Err(e),
        };
        if amount > vault.collateral {
            return Ok(false);
        }
        let collateral = match vault.collateral.checked_sub(amount) {
            Some(difference) => difference,
            None => return Err(LedgerError::Overflow),
        };
        self.store(&user, Vault { collateral, debt: vault.debt });
        Ok(true)
    }

    /// Takes `amount` out of the collateral of `user`. Returns `false`, with
    /// nothing changed, when `amount` exceeds the collateral. The debt is not
    /// looked at.
    pub fn withdraw_collateral(&mut self, user: Address, amount: i128) -> (granted: bool)
        requires
            old(self)@.readable(user),
            old(self)@.vault_of(user).withdraw_fits(amount as int),
        ensures
            granted == old(self)@.withdraw_granted(user, amount as int),
            final(self)@ == old(self)@.after_withdraw(user, amount as int),
    {
        match self.try_withdraw_collateral(user, amount) {
            Ok(granted) => granted,
            Err(_) => unreached(),
        }
    }

    /// Adds `amount` to the debt of `user` if the collateral, at the current
    /// price, is worth at least 150% of the debt as it would then stand.
    /// Returns `Ok(false)`, with nothing changed, if it is worth less. Fails
    /// with `Unreadable` when the entry does not hold a vault record, else
    /// with `Overflow` when the new debt or a product of the coverage test
    /// does not fit.
    pub fn try_borrow(&mut self, user: Address, amount: i128) -> (r: Result<bool, LedgerError>)
        ensures
            match r {
                Ok(granted) => {
                    &&& old(self)@.readable(user)
                    &&& old(self)@.vault_of(user).borrow_fits(
                        old(self)@.current_price(),
                        amount as int,
                    )
                    &&& granted == old(self)@.borrow_granted(user, amount as int)
                    &&& final(self)@ == old(self)@.after_borrow(user, amount as int)
                },
                Err(e) => {
                    &&& final(self)@ == old(self)@
                    &&& e == LedgerError::Unreadable <==> !old(self)@.readable(user)
                    &&& e == LedgerError::Overflow <==> old(self)@.readable(user) && !old(self)@.vault_of(user).borrow_fits(old(self)@.current_price(), amount as int)
                    &&& e != LedgerError::AlreadyExists
                    &&& e != LedgerError::NegativeAmount
                },
            },
    {
        let vault = match self.load_or_zero(&user) {
            Ok(vault) => vault,
            Err(e) => return Err(e),
        };
        let price = self.get_price();
        let debt = match vault.debt.checked_add(amount) {
            Some(sum) => sum,
            None => return Err(LedgerError::Overflow),
        };
        let covered = match covers(vault.collateral, price, debt) {
            Some(covered) => covered,
            None => return Err(LedgerError::Overflow),
        };
        if !covered {
            return Ok(false);
        }
        self.store(&user, Vault { collateral: vault.collateral, debt });
        Ok(true)
    }

    /// Adds `amount` to the debt of `user` if the collateral, at the current
    /// price, is worth at least 150% of the debt as it would then stand.
    /// Returns `false`, with nothing changed, if it is worth less.
    pub fn borrow(&mut self, user: Address, amount: i128) -> (granted: bool)
        requires
            old(self)@.readable(user),
            old(self)@.vault_of(user).borrow_fits(old(self)@.current_price(), amount as int),
        ensures
            granted == old(self)@.borrow_granted(user, amount as int),
            granted <==> old(self)@.vault_of(user).collateral * old(self)@.current_price() * 100
                >= (old(self)@.vault_of(user).debt + amount) * 150,
            final(self)@ == old(self)@.after_borrow(user, amount as int),
    {
        match self.try_borrow(user, amount) {
            Ok(granted) => granted,
            Err(_) => unreached(),
        }
    }

    /// Takes `amount`, or the whole debt if `amount` exceeds it, off the debt
    /// of `user`. Returns `Ok(false)`, with nothing changed, when there is no
    /// debt, and `Ok(true)` otherwise, whatever `amount` is. Fails with
    /// `Unreadable` when the entry does not hold a vault record, else with
    /// `Overflow` when the difference does not fit.
    pub fn try_repay(&mut self, user: Address, amount: i128) -> (r: Result<bool, LedgerError>)
        ensures
            match r {
                Ok(accepted) => {
                    &&& old(self)@.readable(user)
                    &&& old(self)@.vault_of(user).repay_fits(amount as int)
                    &&& accepted == old(self)@.repay_accepted(user)
                    &&& final(self)@ == old(self)@.after_repay(user, amount as int)
                },
                Err(e) => {
                    &&& final(self)@ == old(self)@
                    &&& e == LedgerError::Unreadable <==> !old(self)@.readable(user)
                    &&& e == LedgerError::Overflow <==> old(self)@.readable(user) && !old(self)@.vault_of(user).repay_fits(amount as int)
                    &&& e != LedgerError::AlreadyExists
                    &&& e != LedgerError::NegativeAmount
                },
            },
    {
        let vault = match self.load_or_zero(&user) {
            Ok(vault) => vault,
            Err(e) => return Err(e),
        };
        if vault.debt == 0 {
            return Ok(false);
        }
        let payment = if amount > vault.debt {
            vault.debt
        } else {
            amount
        };
        let debt = match vault.debt.checked_sub(payment) {
            Some(difference) => difference,
            None => return Err(LedgerError::Overflow),
        };
        self.store(&user, Vault { collateral: vault.collateral, debt });
        Ok(true)
    }

    /// Takes `amount`, or the whole debt if `amount` exceeds it, off the debt
    /// of `user`. Returns `false`, with nothing changed, when there is no
    /// debt, and `true` otherwise, whatever `amount` is.
    pub fn repay(&mut self, user: Address, amount: i128) -> (accepted: bool)
        requires
            old(self)@.readable(user),
            old(self)@.vault_of(user).repay_fits(amount as int),
        ensures
            accepted == old(self)@.repay_accepted(user),
            final(self)@ == old(self)@.after_repay(user, amount as int),
    {
        match self.try_repay(user, amount) {
            Ok(accepted) => accepted,
            Err(_) => unreached(),
        }
    }

    /// Liquidates the vault of `borrower` if it has debt and its collateral,
    /// at the current price, is worth less than 150% of that debt: all of the
    /// collateral goes to the vault of `liquidator`, and the borrower's vault
    /// is reset to zero, its debt extinguished. Returns `Ok(false)`, with
    /// nothing changed, when the vault has no debt or is covered. Fails with
    /// `Unreadable` when the entry of either account does not hold a vault
    /// record, else with `Overflow` when a product of the coverage test or the
    /// liquidator's new collateral does not fit.
    pub fn try_liquidate(&mut self, liquidator: Address, borrower: Address) -> (r: Result<
        bool,
        LedgerError,
    >)
        ensures
            match r {
                Ok(granted) => {
                    &&& old(self)@.readable(borrower)
                    &&& old(self)@.readable(liquidator)
                    &&& old(self)@.liquidate_fits(liquidator, borrower)
                    &&& granted == old(self)@.liquidation_granted(borrower)
                    &&& final(self)@ == old(self)@.after_liquidate(liquidator, borrower)
                },
                Err(e) => {
                    &&& final(self)@ == old(self)@
                    &&& e == LedgerError::Unreadable <==> !(old(self)@.readable(borrower) && old(self)@.readable(liquidator))
                    &&& e == LedgerError::Overflow <==> old(self)@.readable(borrower) && old(self)@.readable(liquidator) && !old(self)@.liquidate_fits(liquidator, borrower)
                    &&& e != LedgerError::AlreadyExists
                    &&& e != LedgerError::NegativeAmount
                },
            },
    {
        let seized = match self.load_or_zero(&borrower) {
            Ok(vault) => vault,
            Err(e) => return Err(e),
        };
        let receiving = match self.load_or_zero(&liquidator) {
            Ok(vault) => vault,
            Err(e) => return Err(e),
        };
        if seized.debt == 0 {
            return Ok(false);
        }
        let price = self.get_price();
        let covered = match covers(seized.collateral, price, seized.debt) {
            Some(covered) => covered,
            None => return Err(LedgerError::Overflow),
        };
        if covered {
            return Ok(false);
        }
        let collateral = match receiving.collateral.checked_add(seized.collateral) {
            Some(sum) => sum,
            None => return Err(LedgerError::Overflow),
        };
        self.store(&liquidator, Vault { collateral, debt: receiving.debt });
        self.store(&borrower, Vault::zero());
        Ok(true)
    }

    /// Liquidates the vault of `borrower` if it has debt and its collateral,
    /// at the current price, is worth less than 150% of that debt: all of the
    /// collateral goes to the vault of `liquidator`, and the borrower's vault
    /// is reset to zero, its debt extinguished. Returns `false`, with nothing
    /// changed, when the vault has no debt or is covered.
    pub fn liquidate(&mut self, liquidator: Address, borrower: Address) -> (granted: bool)
        requires
            old(self)@.readable(borrower),
            old(self)@.readable(liquidator),
            old(self)@.liquidate_fits(liquidator, borrower),
        ensures
            granted == old(self)@.liquidation_granted(borrower),
            granted <==> old(self)@.vault_of(borrower).debt != 0 && old(self)@.vault_of(
                borrower,
            ).collateral * old(self)@.current_price() * 100 < old(self)@.vault_of(borrower).debt
                * 150,
            final(self)@ == old(self)@.after_liquidate(liquidator, borrower),
    {
        match self.try_liquidate(liquidator, borrower) {
            Ok(granted) => granted,
            Err(_) => unreached(),
        }
    }
}

} // verus!
