//! The operations of the escrow, each on the accounts that it is handed.
//!
//! An operation checks the state of the escrow record, then its own
//! arguments, then every derived account, and only then shapes the transfer
//! request. A failed check leaves the accounts as they were.

use vstd::prelude::*;
use crate::address::Address;
use crate::transfer::ExpectedAccounts;

pub mod close;
pub mod make;
pub mod take;

pub use close::Close;
pub use make::Make;
pub use take::Take;

verus! {

/// The addresses that the derivation gives for the accounts of an operation.
#[derive(Clone, Copy, Debug, PartialEq, Eq)]
pub struct ExpectedLocations {
    /// The location of the escrow record, with the bump seed of the escrow.
    pub escrow: Option<(Address, u8)>,
    /// The holding of asset A that the escrow owns; `None` for an operation
    /// that does not touch the vault.
    pub vault: Option<Address>,
    /// The accounts of the transfer.
    pub accounts: ExpectedAccounts,
}

} // verus!
