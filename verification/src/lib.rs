//! An escrow for atomic swaps of two assets, fungible or non-fungible.
//!
//! A maker deposits asset A into a vault that the escrow owns and names the
//! amount of asset B it wants in return. A taker may take asset A out of the
//! vault, provided that the payment of asset B to the maker is the very next
//! operation of the same execution unit. Until then the maker can close the
//! escrow and have asset A back.
//!
//! The library decides; it moves nothing itself. Each operation checks the
//! accounts it was handed against their derived addresses and hands back the
//! transfer request that the caller passes on to the asset transfer service.

use vstd::prelude::*;

pub mod address;
pub mod bytes;
pub mod context;
pub mod errors;
pub mod introspection;
pub mod laws;
pub mod model;
pub mod state;
pub mod transfer;

pub use context::{Close, Make, Take};
pub use errors::{EscrowError, Failure, IntrospectionError};
pub use state::Escrow;

use transfer::TransferRequest;

verus! {

/// The outcome of an operation as its caller sees it: a failed check as the
/// failure of the operation.
pub open spec fn outcome_of(checked: Result<TransferRequest, EscrowError>) -> Result<
    TransferRequest,
    Failure,
> {
    match checked {
        Ok(request) => Ok(request),
        Err(error) => Err(Failure::Escrow(error)),
    }
}

/// The operation `make`: opens the escrow on the accounts and returns the
/// request for the deposit of asset A, as `Make::make` does.
pub fn make(accounts: &mut Make, maker_amount: u64, taker_amount: u64) -> (r: Result<
    TransferRequest,
    Failure,
>)
    ensures
        r == outcome_of(old(accounts).spec_make(maker_amount)),
        r is Ok ==> *final(accounts) == old(accounts).made(taker_amount),
        r is Err ==> *final(accounts) == *old(accounts),
{
    match accounts.make(maker_amount, taker_amount) {
        Ok(request) => Ok(request),
        Err(error) => Err(Failure::Escrow(error)),
    }
}

/// The operation `take_from_escrow`: returns the request for the release of
/// asset A to the taker, as `Take::take_from_escrow` does.
pub fn take_from_escrow(accounts: &Take) -> (r: Result<TransferRequest, Failure>)
    ensures
        r == outcome_of(accounts.spec_take_from_escrow()),
{
    match accounts.take_from_escrow() {
        Ok(request) => Ok(request),
        Err(error) => Err(Failure::Escrow(error)),
    }
}

/// The operation `taker_to_maker`: returns the request for the payment of
/// asset B to the maker and completes the escrow, as `Take::taker_to_maker`
/// does.
pub fn taker_to_maker(accounts: &mut Take, amount: u64) -> (r: Result<TransferRequest, Failure>)
    ensures
        r == outcome_of(old(accounts).spec_taker_to_maker(amount)),
        r is Ok ==> *final(accounts) == old(accounts).completed(),
        r is Err ==> *final(accounts) == *old(accounts),
{
    match accounts.taker_to_maker(amount) {
        Ok(request) => Ok(request),
        Err(error) => Err(Failure::Escrow(error)),
    }
}

/// The operation `close`: returns the request for the refund of asset A to
/// the maker and reclaims the record, as `Close::close` does.
pub fn close(accounts: &mut Close) -> (r: Result<TransferRequest, Failure>)
    ensures
        r == outcome_of(old(accounts).spec_close()),
        r is Ok ==> *final(accounts) == old(accounts).closed(),
        r is Err ==> *final(accounts) == *old(accounts),
{
    match accounts.close() {
        Ok(request) => Ok(request),
        Err(error) => Err(Failure::Escrow(error)),
    }
}

} // verus!
