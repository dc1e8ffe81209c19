//! Take: release asset A to the taker, and pay asset B to the maker.
//!
//! The two halves are two operations of one execution unit. The release
//! comes first and is followed by a look at the next operation of the unit,
//! which must be the payment.

use vstd::prelude::*;
use crate::address::{
    associated_token_address, bump_of, check_address, check_derived, escrow_address,
    find_associated_token_address, find_escrow_address, is_derived, program_id, spec_program_id,
    Address,
};
use crate::context::ExpectedLocations;
use crate::errors::{EscrowError, Failure, TransferFailure};
use crate::introspection::{
    following_operation_fault, verify_following_operation, ExecutionUnit,
    TAKER_TO_MAKER_DISCRIMINATOR,
};
use crate::state::{EscrowAccount, Holding, MintType};
use crate::transfer::{
    assemble_transfer, assembled_transfer, expected_accounts, find_expected_accounts,
    moved_amount, propagate, AuxiliaryAccounts, EscrowSigner, Participants, TransferRequest,
};

verus! {

/// The accounts of a release and of a payment.
///
/// For the release, the origin is the vault, the destination is the taker's
/// holding of asset A, and metadata, edition and token records are those of
/// asset A. For the payment, the origin is the taker's holding of asset B,
/// the destination is the maker's, and the records are those of asset B.
#[derive(Clone, Copy, Debug, PartialEq, Eq)]
pub struct Take {
    /// The party that opened the escrow.
    pub maker: Address,
    /// The party that takes asset A and pays asset B.
    pub taker: Address,
    /// The mint of asset A.
    pub mint_a: Address,
    /// The mint of asset B.
    pub mint_b: Address,
    /// The metadata record of the asset that moves.
    pub metadata: Address,
    /// The token standard that the metadata record states.
    pub token_standard: MintType,
    /// The edition record of the asset that moves, if supplied.
    pub master_edition: Option<Address>,
    /// The token record of the asset in the origin, if supplied.
    pub origin_token_record: Option<Address>,
    /// The token record of the asset in the destination, if supplied.
    pub destination_token_record: Option<Address>,
    /// The holding that gives.
    pub origin_ata: Holding,
    /// The holding that receives.
    pub destination_ata: Address,
    /// The location of the escrow record and what lives there.
    pub escrow: EscrowAccount,
    /// The program that keeps metadata, edition and token records.
    pub token_metadata_program: Address,
}

impl Take {
    /// The auxiliary accounts of either transfer, as supplied.
    pub open spec fn supplied_accounts(self) -> AuxiliaryAccounts {
        AuxiliaryAccounts {
            edition: self.master_edition,
            source_token_record: self.origin_token_record,
            destination_token_record: self.destination_token_record,
        }
    }

    /// From the vault to the taker's holding, on the escrow's authority.
    pub open spec fn release_participants(self) -> Participants {
        Participants {
            source: self.origin_ata.address,
            source_owner: self.escrow.address,
            destination: self.destination_ata,
            destination_owner: self.taker,
            mint: self.mint_a,
            metadata: self.metadata,
            authority: self.escrow.address,
            payer: self.taker,
        }
    }

    /// From the taker's holding to the maker's, on the taker's authority.
    pub open spec fn payment_participants(self) -> Participants {
        Participants {
            source: self.origin_ata.address,
            source_owner: self.taker,
            destination: self.destination_ata,
            destination_owner: self.maker,
            mint: self.mint_b,
            metadata: self.metadata,
            authority: self.taker,
            payer: self.taker,
        }
    }

    /// The seeds with which the escrow signs, the bump seed given.
    pub open spec fn escrow_signer(self, bump: u8) -> EscrowSigner {
        EscrowSigner { maker: self.maker, mint_a: self.mint_a, mint_b: self.mint_b, bump }
    }

    /// The addresses that the derivation gives for the accounts of the
    /// release. The token standard is the one in the record.
    pub open spec fn release_locations(self) -> ExpectedLocations {
        ExpectedLocations {
            escrow: escrow_address(self.maker, self.mint_a, self.mint_b),
            vault: associated_token_address(self.escrow.address, self.mint_a),
            accounts: expected_accounts(
                self.token_metadata_program,
                match self.escrow.record {
                    Some(record) => record.mint_a_type,
                    None => MintType::Fungible,
                },
                self.release_participants(),
            ),
        }
    }

    /// The addresses that the derivation gives for the accounts of the
    /// payment. The token standard is the one that the metadata states.
    pub open spec fn payment_locations(self) -> ExpectedLocations {
        ExpectedLocations {
            escrow: escrow_address(self.maker, self.mint_a, self.mint_b),
            vault: None,
            accounts: expected_accounts(
                self.token_metadata_program,
                self.token_standard,
                self.payment_participants(),
            ),
        }
    }

    /// The outcome of a release, the expected addresses given.
    pub open spec fn spec_take_from_escrow_with(self, expected: ExpectedLocations) -> Result<
        TransferRequest,
        EscrowError,
    > {
        match (self.escrow.record, expected.escrow) {
            (None, _) => Err(EscrowError::EscrowNotInitialized),
            (Some(record), found) => if !is_derived(self.escrow.address, found) {
                Err(EscrowError::EscrowAccountDoesNotMatch)
            } else if expected.vault != Some(self.origin_ata.address) {
                Err(EscrowError::VaultAccountDoesNotMatch)
            } else {
                assembled_transfer(
                    record.mint_a_type,
                    self.origin_ata.amount,
                    self.release_participants(),
                    self.supplied_accounts(),
                    Some(self.escrow_signer(bump_of(found))),
                    expected.accounts,
                )
            },
        }
    }

    /// The outcome of a release.
    pub open spec fn spec_take_from_escrow(self) -> Result<TransferRequest, EscrowError> {
        self.spec_take_from_escrow_with(self.release_locations())
    }

    /// The outcome of a payment, the expected addresses given.
    pub open spec fn spec_taker_to_maker_with(self, amount: u64, expected: ExpectedLocations) -> Result<
        TransferRequest,
        EscrowError,
    > {
        match self.escrow.record {
            None => Err(EscrowError::EscrowNotInitialized),
            Some(record) => if amount != record.mint_b_amount {
                Err(EscrowError::InvalidAmount)
            } else if !is_derived(self.escrow.address, expected.escrow) {
                Err(EscrowError::EscrowAccountDoesNotMatch)
            } else {
                assembled_transfer(
                    self.token_standard,
                    amount,
                    self.payment_participants(),
                    self.supplied_accounts(),
                    None,
                    expected.accounts,
                )
            },
        }
    }

    /// The outcome of a payment.
    pub open spec fn spec_taker_to_maker(self, amount: u64) -> Result<TransferRequest, EscrowError> {
        self.spec_taker_to_maker_with(amount, self.payment_locations())
    }

    /// The accounts after a payment that succeeded: the record is gone.
    pub open spec fn completed(self) -> Take {
        Take { escrow: EscrowAccount { address: self.escrow.address, record: None }, ..self }
    }

    /// The maker's holding of asset B, into which the payment must go.
    pub open spec fn payment_destination(self) -> Option<Address> {
        associated_token_address(self.maker, self.mint_b)
    }

    /// The outcome of the look at the operation that follows a release, the
    /// address of the maker's holding of asset B given.
    pub open spec fn spec_verify_payment_follows_with(
        self,
        unit: ExecutionUnit,
        destination: Option<Address>,
    ) -> Result<(), Failure> {
        match self.escrow.record {
            None => Err(Failure::Escrow(EscrowError::EscrowNotInitialized)),
            Some(record) => match following_operation_fault(
                unit,
                spec_program_id(),
                TAKER_TO_MAKER_DISCRIMINATOR@,
                destination,
                record.mint_b_amount,
            ) {
                Some(error) => Err(Failure::Introspection(error)),
                None => Ok(()),
            },
        }
    }

    /// The outcome of the look at the operation that follows a release.
    pub open spec fn spec_verify_payment_follows(self, unit: ExecutionUnit) -> Result<(), Failure> {
        self.spec_verify_payment_follows_with(unit, self.payment_destination())
    }

    /// The outcome of a release once the service has answered its request:
    /// a failure of the service first, then the look at what follows.
    pub open spec fn spec_conclude_release(
        self,
        answer: Result<(), TransferFailure>,
        unit: ExecutionUnit,
    ) -> Result<(), Failure> {
        match answer {
            Err(failure) => Err(Failure::Transfer(failure)),
            Ok(()) => self.spec_verify_payment_follows(unit),
        }
    }

    /// Who gives and who receives in the release.
    fn parties_of_release(&self) -> (participants: Participants)
        ensures
            participants == self.release_participants(),
    {
        Participants {
            source: self.origin_ata.address,
            source_owner: self.escrow.address,
            destination: self.destination_ata,
            destination_owner: self.taker,
            mint: self.mint_a,
            metadata: self.metadata,
            authority: self.escrow.address,
            payer: self.taker,
        }
    }

    /// Who gives and who receives in the payment.
    fn parties_of_payment(&self) -> (participants: Participants)
        ensures
            participants == self.payment_participants(),
    {
        Participants {
            source: self.origin_ata.address,
            source_owner: self.taker,
            destination: self.destination_ata,
            destination_owner: self.maker,
            mint: self.mint_b,
            metadata: self.metadata,
            authority: self.taker,
            payer: self.taker,
        }
    }

    /// The auxiliary accounts that were supplied.
    fn accounts_as_supplied(&self) -> (auxiliary: AuxiliaryAccounts)
        ensures
            auxiliary == self.supplied_accounts(),
    {
        AuxiliaryAccounts {
            edition: self.master_edition,
            source_token_record: self.origin_token_record,
            destination_token_record: self.destination_token_record,
        }
    }

    /// Derives the addresses at which the accounts of the release must live.
    pub fn find_release_locations(&self) -> (expected: ExpectedLocations)
        ensures
            expected == self.release_locations(),
    {
        let participants = self.parties_of_release();
        let standard = match self.escrow.record {
            Some(record) => record.mint_a_type,
            None => MintType::Fungible,
        };
        ExpectedLocations {
            escrow: find_escrow_address(&self.maker, &self.mint_a, &self.mint_b),
            vault: find_associated_token_address(&self.escrow.address, &self.mint_a),
            accounts: find_expected_accounts(&self.token_metadata_program, standard, &participants),
        }
    }

    /// Derives the addresses at which the accounts of the payment must live.
    pub fn find_payment_locations(&self) -> (expected: ExpectedLocations)
        ensures
            expected == self.payment_locations(),
    {
        let participants = self.parties_of_payment();
        ExpectedLocations {
            escrow: find_escrow_address(&self.maker, &self.mint_a, &self.mint_b),
            vault: None,
            accounts: find_expected_accounts(
                &self.token_metadata_program,
                self.token_standard,
                &participants,
            ),
        }
    }

    /// Releases asset A against addresses that were derived beforehand.
    ///
    /// The checks, in order: a record lives at the location; it is the
    /// location derived from the maker and the two mints; the origin is the
    /// vault, the escrow's associated holding of asset A; the accounts of the
    /// transfer are the ones that the token standard in the record needs.
    ///
    /// The request moves the whole balance of the vault for a fungible asset
    /// and one unit otherwise, from the vault to the taker's holding, and is
    /// signed by the escrow's derived identity.
    pub fn take_from_escrow_with(&self, expected: &ExpectedLocations) -> (r: Result<
        TransferRequest,
        EscrowError,
    >)
        ensures
            r == self.spec_take_from_escrow_with(*expected),
            r matches Ok(request) ==> {
                &&& self.escrow.record matches Some(record)
                &&& request.amount == moved_amount(record.mint_a_type, self.origin_ata.amount)
                &&& request.source == self.origin_ata.address
                &&& request.destination == self.destination_ata
                &&& request.authority == self.escrow.address
                &&& request.signer is Some
            },
    {
        let record = match self.escrow.record {
            Some(record) => record,
            None => {
                return Err(EscrowError::EscrowNotInitialized);
            },
        };
        let bump = match expected.escrow {
            Some((address, bump)) => {
                if address != self.escrow.address {
                    return Err(EscrowError::EscrowAccountDoesNotMatch);
                }
                bump
            },
            None => {
                return Err(EscrowError::EscrowAccountDoesNotMatch);
            },
        };
        if !check_address(&self.origin_ata.address, &expected.vault) {
            return Err(EscrowError::VaultAccountDoesNotMatch);
        }
        let participants = self.parties_of_release();
        let auxiliary = self.accounts_as_supplied();
        let signer = EscrowSigner { maker: self.maker, mint_a: self.mint_a, mint_b: self.mint_b, bump };
        assemble_transfer(
            record.mint_a_type,
            self.origin_ata.amount,
            &participants,
            &auxiliary,
            Some(signer),
            &expected.accounts,
        )
    }

    /// Releases asset A to the taker: derives the address of every account
    /// that the release depends on, checks the supplied accounts against
    /// them, and returns the request for the transfer out of the vault.
    ///
    /// The release may become final only if `verify_payment_follows`
    /// succeeds once the request was carried out.
    pub fn take_from_escrow(&self) -> (r: Result<TransferRequest, EscrowError>)
        ensures
            r == self.spec_take_from_escrow(),
            r matches Ok(request) ==> {
                &&& self.escrow.record matches Some(record)
                &&& request.amount == moved_amount(record.mint_a_type, self.origin_ata.amount)
                &&& request.source == self.origin_ata.address
                &&& request.destination == self.destination_ata
                &&& request.authority == self.escrow.address
                &&& request.signer is Some
            },
    {
        let expected = self.find_release_locations();
        self.take_from_escrow_with(&expected)
    }

    /// Looks at the operation that follows the release, the address of the
    /// maker's holding of asset B given: it must be a payment of the amount
    /// in the record into that holding, addressed to this program.
    pub fn verify_payment_follows_with(&self, unit: &ExecutionUnit, destination: &Option<Address>) -> (r:
        Result<(), Failure>)
        ensures
            r == self.spec_verify_payment_follows_with(*unit, *destination),
    {
        let record = match self.escrow.record {
            Some(record) => record,
            None => {
                return Err(Failure::Escrow(EscrowError::EscrowNotInitialized));
            },
        };
        let checked = verify_following_operation(
            unit,
            &program_id(),
            &TAKER_TO_MAKER_DISCRIMINATOR,
            destination,
            record.mint_b_amount,
        );
        match checked {
            Ok(()) => Ok(()),
            Err(error) => Err(Failure::Introspection(error)),
        }
    }

    /// Looks at the operation that follows the release: it must pay the
    /// amount in the record into the maker's associated holding of asset B.
    pub fn verify_payment_follows(&self, unit: &ExecutionUnit) -> (r: Result<(), Failure>)
        ensures
            r == self.spec_verify_payment_follows(*unit),
    {
        let destination = find_associated_token_address(&self.maker, &self.mint_b);
        self.verify_payment_follows_with(unit, &destination)
    }

    /// Concludes a release once the asset transfer service has answered its
    /// request. A failure of the service is handed on as it came. After a
    /// transfer that was applied, the operation that follows in the unit must
    /// be the payment to the maker, or the release is aborted.
    pub fn conclude_release(&self, answer: Result<(), TransferFailure>, unit: &ExecutionUnit) -> (r:
        Result<(), Failure>)
        ensures
            r == self.spec_conclude_release(answer, *unit),
            answer matches Err(failure) ==> r == Err::<(), Failure>(Failure::Transfer(failure)),
    {
        propagate(answer)?;
        self.verify_payment_follows(unit)
    }

    /// Pays asset B against addresses that were derived beforehand.
    ///
    /// The checks, in order: a record lives at the location; `amount` is the
    /// amount in the record; the location is the one derived from the maker
    /// and the two mints; the accounts of the transfer are the ones that the
    /// token standard of asset B needs.
    ///
    /// On success the record is gone and the request for the payment is
    /// returned: `amount` units for a fungible asset, one unit otherwise. On
    /// failure nothing changes.
    pub fn taker_to_maker_with(&mut self, amount: u64, expected: &ExpectedLocations) -> (r: Result<
        TransferRequest,
        EscrowError,
    >)
        ensures
            r == old(self).spec_taker_to_maker_with(amount, *expected),
            r is Ok ==> *final(self) == old(self).completed(),
            r is Err ==> *final(self) == *old(self),
            old(self).escrow.record matches Some(record) && amount != record.mint_b_amount ==> r
                == Err::<TransferRequest, EscrowError>(EscrowError::InvalidAmount),
            r matches Ok(request) ==> {
                &&& old(self).escrow.record matches Some(record)
                &&& amount == record.mint_b_amount
                &&& request.amount == moved_amount(old(self).token_standard, amount)
                &&& request.source == old(self).origin_ata.address
                &&& request.destination == old(self).destination_ata
                &&& request.signer is None
            },
    {
        let record = match self.escrow.record {
            Some(record) => record,
            None => {
                return Err(EscrowError::EscrowNotInitialized);
            },
        };
        if amount != record.mint_b_amount {
            return Err(EscrowError::InvalidAmount);
        }
        if !check_derived(&self.escrow.address, &expected.escrow) {
            return Err(EscrowError::EscrowAccountDoesNotMatch);
        }
        let participants = self.parties_of_payment();
        let auxiliary = self.accounts_as_supplied();
        let request = assemble_transfer(
            self.token_standard,
            amount,
            &participants,
            &auxiliary,
            None,
            &expected.accounts,
        )?;
        self.escrow.record = None;
        Ok(request)
    }

    /// Pays asset B to the maker: checks the amount against the record,
    /// derives the address of every account that the payment depends on,
    /// checks the supplied accounts against them, and returns the request
    /// for the transfer from the taker to the maker.
    pub fn taker_to_maker(&mut self, amount: u64) -> (r: Result<TransferRequest, EscrowError>)
        ensures
            r == old(self).spec_taker_to_maker(amount),
            r is Ok ==> *final(self) == old(self).completed(),
            r is Err ==> *final(self) == *old(self),
            old(self).escrow.record matches Some(record) && amount != record.mint_b_amount ==> r
                == Err::<TransferRequest, EscrowError>(EscrowError::InvalidAmount),
            r matches Ok(request) ==> {
                &&& old(self).escrow.record matches Some(record)
                &&& amount == record.mint_b_amount
                &&& request.amount == moved_amount(old(self).token_standard, amount)
                &&& request.source == old(self).origin_ata.address
                &&& request.destination == old(self).destination_ata
                &&& request.signer is None
            },
    {
        let expected = self.find_payment_locations();
        self.taker_to_maker_with(amount, &expected)
    }
}

} // verus!
