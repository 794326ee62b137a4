//! Share-based custodial vault accounting.
//!
//! Depositors pool one fungible asset and receive shares that stand for a
//! proportional claim on whatever the pool holds; shares are later burned for
//! a proportional slice of the pool. The pool's asset total is observed from
//! outside on every operation and handed to the engine as a plain value.

mod error;
pub mod governance;
pub mod laws;
pub mod ledger;
pub mod lockup;
pub mod payment;
pub mod rate;
pub mod vault;

pub use error::VaultError;
pub use ledger::{HolderAccount, HolderLedger, SupplyLedger};
pub use payment::Payment;
pub use vault::{Payout, VaultState};
