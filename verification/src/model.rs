//! The world around the escrow, as far as its laws speak of it: the units in
//! each holding and the records that are live.
//!
//! The asset transfer service is not part of the library. Here it is an
//! answer: either it applied a request in full, or it refused it and changed
//! nothing. An operation that fails in any way leaves the world as it was.

use vstd::prelude::*;
use crate::address::Address;
use crate::context::{Close, Make, Take};
use crate::errors::{Failure, TransferFailure};
use crate::introspection::ExecutionUnit;
use crate::state::{Escrow, Holding};
use crate::transfer::TransferRequest;

verus! {

/// The holdings and the live escrow records.
pub struct World {
    /// The units in each holding; a holding that is not in the map is empty.
    pub balances: Map<Address, nat>,
    /// The record at each location where one lives.
    pub records: Map<Address, Escrow>,
}

impl World {
    /// The units in a holding.
    pub open spec fn balance(self, holding: Address) -> nat {
        if self.balances.dom().contains(holding) {
            self.balances[holding]
        } else {
            0
        }
    }

    /// The record at a location, if one lives there.
    pub open spec fn record_at(self, location: Address) -> Option<Escrow> {
        if self.records.dom().contains(location) {
            Some(self.records[location])
        } else {
            None
        }
    }

    /// Whether the source of a request holds what the request moves.
    pub open spec fn funds(self, request: TransferRequest) -> bool {
        self.balance(request.source) >= request.amount
    }

    /// Whether the service can have given the answer: it applies no request
    /// that the source cannot fund.
    pub open spec fn admits(self, request: TransferRequest, answer: Result<(), TransferFailure>) -> bool {
        answer is Ok ==> self.funds(request)
    }

    /// The world with the units in one holding changed.
    pub open spec fn with_balance(self, holding: Address, units: nat) -> World {
        World { balances: self.balances.insert(holding, units), records: self.records }
    }

    /// The world after the service applied a request: the amount left the
    /// source and arrived at the destination.
    pub open spec fn transferred(self, request: TransferRequest) -> World {
        let debited = self.with_balance(
            request.source,
            (self.balance(request.source) - request.amount) as nat,
        );
        debited.with_balance(
            request.destination,
            (debited.balance(request.destination) + request.amount) as nat,
        )
    }

    /// The world with a record written at a location.
    pub open spec fn with_record(self, location: Address, record: Escrow) -> World {
        World { balances: self.balances, records: self.records.insert(location, record) }
    }

    /// The world with the record at a location reclaimed.
    pub open spec fn without_record(self, location: Address) -> World {
        World { balances: self.balances, records: self.records.remove(location) }
    }

    /// Whether a holding was read from this world.
    pub open spec fn shows(self, holding: Holding) -> bool {
        self.balance(holding.address) == holding.amount
    }

    /// The world after the service answered a request.
    pub open spec fn served(self, request: TransferRequest, answer: Result<(), TransferFailure>) -> Result<
        World,
        Failure,
    > {
        match answer {
            Err(failure) => Err(Failure::Transfer(failure)),
            Ok(()) => Ok(self.transferred(request)),
        }
    }

    /// The world after a make.
    pub open spec fn after_make(
        self,
        accounts: Make,
        maker_amount: u64,
        taker_amount: u64,
        answer: Result<(), TransferFailure>,
    ) -> Result<World, Failure> {
        match accounts.spec_make(maker_amount) {
            Err(error) => Err(Failure::Escrow(error)),
            Ok(request) => match self.served(request, answer) {
                Err(failure) => Err(failure),
                Ok(world) => Ok(
                    world.with_record(accounts.escrow.address, accounts.record_made(taker_amount)),
                ),
            },
        }
    }

    /// The world after a close.
    pub open spec fn after_close(self, accounts: Close, answer: Result<(), TransferFailure>) -> Result<
        World,
        Failure,
    > {
        match accounts.spec_close() {
            Err(error) => Err(Failure::Escrow(error)),
            Ok(request) => match self.served(request, answer) {
                Err(failure) => Err(failure),
                Ok(world) => Ok(world.without_record(accounts.escrow.address)),
            },
        }
    }

    /// The world after a release: the request is served first, then the
    /// operation that follows in the unit is looked at.
    pub open spec fn after_take_from_escrow(
        self,
        accounts: Take,
        answer: Result<(), TransferFailure>,
        unit: ExecutionUnit,
    ) -> Result<World, Failure> {
        match accounts.spec_take_from_escrow() {
            Err(error) => Err(Failure::Escrow(error)),
            Ok(request) => match accounts.spec_conclude_release(answer, unit) {
                Err(failure) => Err(failure),
                Ok(()) => Ok(self.transferred(request)),
            },
        }
    }

    /// The world after a payment.
    pub open spec fn after_taker_to_maker(
        self,
        accounts: Take,
        amount: u64,
        answer: Result<(), TransferFailure>,
    ) -> Result<World, Failure> {
        match accounts.spec_taker_to_maker(amount) {
            Err(error) => Err(Failure::Escrow(error)),
            Ok(request) => match self.served(request, answer) {
                Err(failure) => Err(failure),
                Ok(world) => Ok(world.without_record(accounts.escrow.address)),
            },
        }
    }

    /// What is left of an operation: its effects if it succeeded, and the
    /// world as it was before if it failed.
    pub open spec fn committed(self, outcome: Result<World, Failure>) -> World {
        match outcome {
            Ok(world) => world,
            Err(_) => self,
        }
    }
}

impl Make {
    /// Whether the accounts were read from the world.
    pub open spec fn reads(self, world: World) -> bool {
        self.escrow.record == world.record_at(self.escrow.address)
    }
}

impl Close {
    /// Whether the accounts were read from the world.
    pub open spec fn reads(self, world: World) -> bool {
        &&& self.escrow.record == world.record_at(self.escrow.address)
        &&& world.shows(self.vault)
    }
}

impl Take {
    /// Whether the accounts were read from the world.
    pub open spec fn reads(self, world: World) -> bool {
        &&& self.escrow.record == world.record_at(self.escrow.address)
        &&& world.shows(self.origin_ata)
    }
}

} // verus!
