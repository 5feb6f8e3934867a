//! What holds of the ledger whatever is asked of it.

use crate::model::{LedgerView, Operation};
use crate::vault::VaultView;
use soroban_sdk::Address;
use vstd::prelude::*;

verus! {

/// Whether `op`, requested in state `s`, is a loan of a negative amount that
/// is granted and drives the debt below zero. Nothing else an operation can do
/// makes a vault negative.
pub open spec fn overdraws(s: LedgerView, op: Operation) -> bool {
    op matches Operation::Borrow { account, amount } && s.borrow_granted(account, amount)
        && s.vault_of(account).debt + amount < 0
}

/// Whether the operations of `ops` can be requested one after the other from
/// state `s`, none of them overdrawing.
pub open spec fn admits_all(s: LedgerView, ops: Seq<Operation>) -> bool
    decreases ops.len(),
{
    ops.len() == 0 || {
        &&& s.admits(ops.first())
        &&& !overdraws(s, ops.first())
        &&& admits_all(s.apply(ops.first()), ops.drop_first())
    }
}

/// An operation leaves every vault with nonnegative collateral and
/// nonnegative debt if every vault was so before.
pub proof fn lemma_operation_keeps_vaults_nonnegative(s: LedgerView, op: Operation)
    requires
        s.nonnegative(),
        s.admits(op),
        !overdraws(s, op),
    ensures
        s.apply(op).nonnegative(),
{
    let next = s.apply(op);
    assert forall|account: Address| next.vaults.contains_key(account) implies (
    #[trigger] next.vaults[account]).nonnegative() by {
        if s.vaults.contains_key(account) {
            assert(s.vaults[account].nonnegative());
        }
        match op {
            Operation::Liquidate { liquidator, borrower } => {
                if s.vaults.contains_key(liquidator) {
                    assert(s.vaults[liquidator].nonnegative());
                }
                if s.vaults.contains_key(borrower) {
                    assert(s.vaults[borrower].nonnegative());
                }
            },
            Operation::Init { account: touched } => {},
            Operation::SetPrice { price } => {},
            Operation::Deposit { account: touched, amount } => {
                if s.vaults.contains_key(touched) {
                    assert(s.vaults[touched].nonnegative());
                }
            },
            Operation::Withdraw { account: touched, amount } => {
                if s.vaults.contains_key(touched) {
                    assert(s.vaults[touched].nonnegative());
                }
            },
            Operation::Borrow { account: touched, amount } => {
                if s.vaults.contains_key(touched) {
                    assert(s.vaults[touched].nonnegative());
                }
            },
            Operation::Repay { account: touched, amount } => {
                if s.vaults.contains_key(touched) {
                    assert(s.vaults[touched].nonnegative());
                }
            },
        }
    }
}

/// After any sequence of operations, every vault has nonnegative collateral
/// and nonnegative debt, provided that this held at the start. It holds of the
/// empty ledger.
pub proof fn lemma_vaults_stay_nonnegative(s: LedgerView, ops: Seq<Operation>)
    requires
        s.nonnegative(),
        admits_all(s, ops),
    ensures
        s.apply_all(ops).nonnegative(),
        LedgerView::empty().nonnegative(),
    decreases ops.len(),
{
    if ops.len() > 0 {
        lemma_operation_keeps_vaults_nonnegative(s, ops.first());
        lemma_vaults_stay_nonnegative(s.apply(ops.first()), ops.drop_first());
    }
}

/// No operation removes an entry from the ledger: an account that has one
/// keeps it, a vault reset by a liquidation included.
pub proof fn lemma_entries_are_kept(s: LedgerView, op: Operation, account: Address)
    requires
        s.has_entry(account),
    ensures
        s.apply(op).has_entry(account),
{
}

/// A loan is granted exactly when the collateral's value times 100 is at
/// least the new debt times 150; equality is enough.
pub proof fn lemma_borrow_gate(vault: VaultView, price: int, amount: int)
    ensures
        vault.can_borrow(price, amount) <==> vault.collateral * price * 100 >= (vault.debt
            + amount) * 150,
        vault.collateral * price * 100 == (vault.debt + amount) * 150 ==> vault.can_borrow(
            price,
            amount,
        ),
{
}

/// A vault without negative entries can be liquidated exactly when it has debt
/// and the collateral's value times 100 is less than the debt times 150; at
/// equality it cannot.
pub proof fn lemma_liquidation_gate(vault: VaultView, price: int)
    requires
        vault.nonnegative(),
    ensures
        vault.liquidatable(price) <==> vault.debt > 0 && vault.collateral * price * 100
            < vault.debt * 150,
        vault.collateral * price * 100 == vault.debt * 150 ==> !vault.liquidatable(price),
{
}

/// A repayment of at least the whole debt leaves no debt, and a repayment
/// never leaves negative debt on a vault that had none.
pub proof fn lemma_repay_is_clamped(vault: VaultView, amount: int)
    ensures
        amount >= vault.debt ==> vault.repaid(amount).debt == 0,
        vault.debt >= 0 ==> vault.repaid(amount).debt >= 0,
        vault.repaid(amount).collateral == vault.collateral,
{
}

/// When a repayment that clears the whole debt is offered a second time, the
/// second one is not accepted and changes nothing.
pub proof fn lemma_repay_after_clearing_is_refused(s: LedgerView, account: Address, amount: int)
    requires
        s.repay_accepted(account),
        amount >= s.vault_of(account).debt,
    ensures
        s.after_repay(account, amount).vault_of(account).debt == 0,
        !s.after_repay(account, amount).repay_accepted(account),
        s.after_repay(account, amount).after_repay(account, amount) == s.after_repay(
            account,
            amount,
        ),
{
}

/// A granted liquidation resets the borrower's vault to zero and adds exactly
/// the borrower's collateral to the liquidator's. The liquidator's debt is as
/// it was: the borrower's debt is extinguished, not moved. Every other vault
/// is untouched. An account that liquidates itself is left out where it holds
/// collateral, which it loses.
pub proof fn lemma_liquidation_transfers_all_collateral(
    s: LedgerView,
    liquidator: Address,
    borrower: Address,
)
    requires
        s.liquidation_granted(borrower),
        liquidator != borrower || s.vault_of(borrower).collateral == 0,
    ensures
        s.after_liquidate(liquidator, borrower).vault_of(borrower) == VaultView::zero(),
        s.after_liquidate(liquidator, borrower).vault_of(liquidator).collateral == s.vault_of(
            liquidator,
        ).collateral + s.vault_of(borrower).collateral,
        liquidator != borrower ==> s.after_liquidate(liquidator, borrower).vault_of(
            liquidator,
        ).debt == s.vault_of(liquidator).debt,
        forall|other: Address|
            other != liquidator && other != borrower ==> #[trigger] s.after_liquidate(
                liquidator,
                borrower,
            ).vault_of(other) == s.vault_of(other),
{
}

} // verus!
