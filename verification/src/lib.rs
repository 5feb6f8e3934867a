//! A collateralized-lending ledger.
//!
//! Each account owns a vault that records deposited collateral and borrowed
//! debt. Debt may only grow while the collateral, valued at the current price,
//! is worth at least 150% of it; a vault that falls below that ratio can be
//! liquidated.

pub mod host;
pub mod laws;
pub mod manager;
pub mod model;
pub mod policy;
pub mod vault;

pub use manager::{LedgerError, VaultManager};
pub use vault::Vault;
