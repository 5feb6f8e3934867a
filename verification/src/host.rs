//! The host types the ledger is built on, and what is taken for granted of
//! them.
//!
//! Accounts are named by [`soroban_sdk::Address`] and vault records are kept
//! in a [`soroban_sdk::Map`] that lives in the host environment. Nothing in
//! this module is proved: each function below hands one call to the host and
//! states what that call is relied upon to do. Every statement presumes that
//! the map and the addresses passed together belong to one host environment,
//! and that the environment has budget left for the call; a host that runs out
//! of budget aborts the whole invocation.
//!
//! In specifications two addresses are equal exactly when they name the same
//! account or contract, which is how the host compares map keys.

use soroban_sdk::Address;
use vstd::prelude::*;

verus! {

#[verifier::external_type_specification]
#[verifier::external_body]
pub struct ExAddress(soroban_sdk::Address);

#[verifier::external_type_specification]
#[verifier::external_body]
#[verifier::reject_recursive_types(K)]
#[verifier::reject_recursive_types(V)]
pub struct ExMap<K, V>(soroban_sdk::Map<K, V>);

#[verifier::external_type_specification]
#[verifier::external_body]
#[verifier::reject_recursive_types(T)]
pub struct ExVec<T>(soroban_sdk::Vec<T>);

/// The host map that holds the vault records: one vector of integers per
/// account.
pub type VaultMap = soroban_sdk::Map<Address, soroban_sdk::Vec<i128>>;

/// What a vault map holds. Its domain is the set of addresses that have a
/// value in the host map. An address is mapped to `Some(s)` when its value is
/// a vector whose items are all 128-bit signed integers, `s` being those
/// integers in order, and to `None` when its value is anything else.
pub uninterp spec fn stored_records(vaults: soroban_sdk::Map<Address, soroban_sdk::Vec<i128>>) -> Map<Address, Option<Seq<i128>>>;

/// Calls `soroban_sdk::Map::contains_key`: whether the host map has a value
/// under `account`, whatever that value is.
#[verifier::external_body]
pub(crate) fn has_record(vaults: &VaultMap, account: &Address) -> (found: bool)
    ensures
        found == stored_records(*vaults).contains_key(*account),
{
    vaults.contains_key(account.clone())
}

/// Calls `soroban_sdk::Map::try_get`, then reads the items of the vector it
/// found through `soroban_sdk::Vec::try_iter`. The result is `Ok(None)` when
/// the host map has no value under `account`, `Ok(Some(items))` when the value
/// is a vector of 128-bit integers, and `Err` when the value is not a vector
/// or one of its items is not such an integer. Neither call changes the map.
#[verifier::external_body]
pub(crate) fn read_record(vaults: &VaultMap, account: &Address) -> (r: Result<Option<Vec<i128>>, ()>)
    ensures
        match r {
            Ok(Some(items)) => stored_records(*vaults).contains_key(*account)
                && stored_records(*vaults)[*account] == Some(items@),
            Ok(None) => !stored_records(*vaults).contains_key(*account),
            Err(_) => stored_records(*vaults).contains_key(*account)
                && stored_records(*vaults)[*account] is None,
        },
{
    match vaults.try_get(account.clone()) {
        Ok(Some(record)) => match record.try_iter().collect::<Result<Vec<i128>, _>>() {
            Ok(items) => Ok(Some(items)),
            Err(_) => Err(()),
        },
        Ok(None) => Ok(None),
        Err(_) => Err(()),
    }
}

/// Calls `soroban_sdk::Map::set` with the vector `[collateral, debt]`, built
/// by `soroban_sdk::Vec::from_array`. Afterwards the map holds that vector
/// under `account`, in place of any earlier value, and every other entry is as
/// it was.
#[verifier::external_body]
pub(crate) fn write_record(vaults: &mut VaultMap, account: &Address, collateral: i128, debt: i128)
    ensures
        stored_records(*final(vaults)) == stored_records(*old(vaults)).insert(
            *account,
            Some(seq![collateral, debt]),
        ),
{
    let record = soroban_sdk::Vec::from_array(vaults.env(), [collateral, debt]);
    vaults.set(account.clone(), record);
}

} // verus!
