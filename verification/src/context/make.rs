//! Make: open an escrow and deposit asset A into its vault.

use vstd::prelude::*;
use crate::address::{
    associated_token_address, check_address, check_derived, escrow_address,
    find_associated_token_address, find_escrow_address, is_derived, Address,
};
use crate::context::ExpectedLocations;
use crate::errors::EscrowError;
use crate::state::{Escrow, EscrowAccount, MintType};
use crate::transfer::{
    assemble_transfer, assembled_transfer, expected_accounts, find_expected_accounts,
    moved_amount, AuxiliaryAccounts, Participants, TransferRequest,
};

verus! {

/// The accounts of a make.
#[derive(Clone, Copy, Debug, PartialEq, Eq)]
pub struct Make {
    /// The party that opens the escrow.
    pub maker: Address,
    /// The maker's holding of asset A.
    pub maker_ata: Address,
    /// The mint of asset A.
    pub mint_a: Address,
    /// The mint of asset B.
    pub mint_b: Address,
    /// The metadata record of asset A.
    pub metadata_a: Address,
    /// The token standard that the metadata record of asset A states.
    pub token_standard: MintType,
    /// The edition record of asset A, if supplied.
    pub master_edition_a: Option<Address>,
    /// The token record of asset A in the maker's holding, if supplied.
    pub maker_token_record_a: Option<Address>,
    /// The token record of asset A in the vault, if supplied.
    pub vault_token_record_a: Option<Address>,
    /// The holding of asset A that the escrow owns.
    pub vault: Address,
    /// The location of the escrow record and what lives there.
    pub escrow: EscrowAccount,
    /// The program that keeps metadata, edition and token records.
    pub token_metadata_program: Address,
}

impl Make {
    /// From the maker's holding into the vault, on the maker's authority.
    pub open spec fn deposit_participants(self) -> Participants {
        Participants {
            source: self.maker_ata,
            source_owner: self.maker,
            destination: self.vault,
            destination_owner: self.escrow.address,
            mint: self.mint_a,
            metadata: self.metadata_a,
            authority: self.maker,
            payer: self.maker,
        }
    }

    /// The auxiliary accounts of the deposit, as supplied.
    pub open spec fn deposit_accounts(self) -> AuxiliaryAccounts {
        AuxiliaryAccounts {
            edition: self.master_edition_a,
            source_token_record: self.maker_token_record_a,
            destination_token_record: self.vault_token_record_a,
        }
    }

    /// The record that a make writes.
    pub open spec fn record_made(self, taker_amount: u64) -> Escrow {
        Escrow {
            maker: self.maker,
            mint_a: self.mint_a,
            mint_a_type: self.token_standard,
            mint_b: self.mint_b,
            mint_b_amount: taker_amount,
        }
    }

    /// The accounts after a make that succeeded.
    pub open spec fn made(self, taker_amount: u64) -> Make {
        Make {
            escrow: EscrowAccount {
                address: self.escrow.address,
                record: Some(self.record_made(taker_amount)),
            },
            ..self
        }
    }

    /// The addresses that the derivation gives for the accounts of the make.
    pub open spec fn expected_locations(self) -> ExpectedLocations {
        ExpectedLocations {
            escrow: escrow_address(self.maker, self.mint_a, self.mint_b),
            vault: associated_token_address(self.escrow.address, self.mint_a),
            accounts: expected_accounts(
                self.token_metadata_program,
                self.token_standard,
                self.deposit_participants(),
            ),
        }
    }

    /// The outcome of a make, the expected addresses given.
    pub open spec fn spec_make_with(self, maker_amount: u64, expected: ExpectedLocations) -> Result<
        TransferRequest,
        EscrowError,
    > {
        if self.escrow.record is Some {
            Err(EscrowError::EscrowAlreadyInUse)
        } else if !is_derived(self.escrow.address, expected.escrow) {
            Err(EscrowError::EscrowAccountDoesNotMatch)
        } else if expected.vault != Some(self.vault) {
            Err(EscrowError::VaultAccountDoesNotMatch)
        } else {
            assembled_transfer(
                self.token_standard,
                maker_amount,
                self.deposit_participants(),
                self.deposit_accounts(),
                None,
                expected.accounts,
            )
        }
    }

    /// The outcome of a make.
    pub open spec fn spec_make(self, maker_amount: u64) -> Result<TransferRequest, EscrowError> {
        self.spec_make_with(maker_amount, self.expected_locations())
    }

    /// Who gives and who receives in the deposit.
    fn parties_of_deposit(&self) -> (participants: Participants)
        ensures
            participants == self.deposit_participants(),
    {
        Participants {
            source: self.maker_ata,
            source_owner: self.maker,
            destination: self.vault,
            destination_owner: self.escrow.address,
            mint: self.mint_a,
            metadata: self.metadata_a,
            authority: self.maker,
            payer: self.maker,
        }
    }

    /// The auxiliary accounts that were supplied for the deposit.
    fn accounts_of_deposit(&self) -> (auxiliary: AuxiliaryAccounts)
        ensures
            auxiliary == self.deposit_accounts(),
    {
        AuxiliaryAccounts {
            edition: self.master_edition_a,
            source_token_record: self.maker_token_record_a,
            destination_token_record: self.vault_token_record_a,
        }
    }

    /// Derives the addresses at which the accounts of the make must live.
    pub fn find_expected_locations(&self) -> (expected: ExpectedLocations)
        ensures
            expected == self.expected_locations(),
    {
        let participants = self.parties_of_deposit();
        ExpectedLocations {
            escrow: find_escrow_address(&self.maker, &self.mint_a, &self.mint_b),
            vault: find_associated_token_address(&self.escrow.address, &self.mint_a),
            accounts: find_expected_accounts(
                &self.token_metadata_program,
                self.token_standard,
                &participants,
            ),
        }
    }

    /// Opens the escrow against addresses that were derived beforehand.
    ///
    /// The checks, in order: the location of the record is vacant; it is the
    /// location derived from the maker and the two mints; the vault is the
    /// escrow's associated holding of asset A; the accounts of the deposit
    /// are the ones that the token standard of asset A needs.
    ///
    /// On success the record is written, with the token standard as the
    /// metadata states it and `taker_amount` as the amount of asset B that
    /// is owed, and the request for the deposit is returned: `maker_amount`
    /// units for a fungible asset, one unit otherwise. On failure nothing
    /// changes.
    pub fn make_with(&mut self, maker_amount: u64, taker_amount: u64, expected: &ExpectedLocations) -> (r:
        Result<TransferRequest, EscrowError>)
        ensures
            r == old(self).spec_make_with(maker_amount, *expected),
            r is Ok ==> *final(self) == old(self).made(taker_amount),
            r is Err ==> *final(self) == *old(self),
            old(self).escrow.record is Some ==> r == Err::<TransferRequest, EscrowError>(
                EscrowError::EscrowAlreadyInUse,
            ),
            r matches Ok(request) ==> {
                &&& request.amount == moved_amount(old(self).token_standard, maker_amount)
                &&& request.source == old(self).maker_ata
                &&& request.destination == old(self).vault
                &&& request.signer is None
            },
    {
        if self.escrow.record.is_some() {
            return Err(EscrowError::EscrowAlreadyInUse);
        }
        if !check_derived(&self.escrow.address, &expected.escrow) {
            return Err(EscrowError::EscrowAccountDoesNotMatch);
        }
        if !check_address(&self.vault, &expected.vault) {
            return Err(EscrowError::VaultAccountDoesNotMatch);
        }
        let participants = self.parties_of_deposit();
        let auxiliary = self.accounts_of_deposit();
        let request = assemble_transfer(
            self.token_standard,
            maker_amount,
            &participants,
            &auxiliary,
            None,
            &expected.accounts,
        )?;
        self.escrow.record = Some(
            Escrow {
                maker: self.maker,
                mint_a: self.mint_a,
                mint_a_type: self.token_standard,
                mint_b: self.mint_b,
                mint_b_amount: taker_amount,
            },
        );
        Ok(request)
    }

    /// Opens the escrow: derives the address of every account that the make
    /// depends on, checks the supplied accounts against them, writes the
    /// record and returns the request for the deposit.
    pub fn make(&mut self, maker_amount: u64, taker_amount: u64) -> (r: Result<TransferRequest, EscrowError>)
        ensures
            r == old(self).spec_make(maker_amount),
            r is Ok ==> *final(self) == old(self).made(taker_amount),
            r is Err ==> *final(self) == *old(self),
            old(self).escrow.record is Some ==> r == Err::<TransferRequest, EscrowError>(
                EscrowError::EscrowAlreadyInUse,
            ),
            r matches Ok(request) ==> {
                &&& request.amount == moved_amount(old(self).token_standard, maker_amount)
                &&& request.source == old(self).maker_ata
                &&& request.destination == old(self).vault
                &&& request.signer is None
            },
    {
        let expected = self.find_expected_locations();
        self.make_with(maker_amount, taker_amount, &expected)
    }
}

} // verus!
