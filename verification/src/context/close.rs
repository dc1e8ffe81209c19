//! Close: give asset A back to the maker and reclaim the record.

use vstd::prelude::*;
use crate::address::{
    associated_token_address, bump_of, check_address, escrow_address, find_associated_token_address,
    find_escrow_address, is_derived, Address,
};
use crate::context::ExpectedLocations;
use crate::errors::EscrowError;
use crate::state::{EscrowAccount, Holding, MintType};
use crate::transfer::{
    assemble_transfer, assembled_transfer, expected_accounts, find_expected_accounts,
    moved_amount, AuxiliaryAccounts, EscrowSigner, Participants, TransferRequest,
};

verus! {

/// The accounts of a close.
#[derive(Clone, Copy, Debug, PartialEq, Eq)]
pub struct Close {
    /// The party that opened the escrow.
    pub maker: Address,
    /// Whether the maker signed the operation. Only the maker may close.
    pub maker_signed: bool,
    /// The maker's holding of asset A.
    pub maker_ata: Address,
    /// The mint of asset A.
    pub mint_a: Address,
    /// The mint of asset B.
    pub mint_b: Address,
    /// The metadata record of asset A.
    pub metadata_a: Address,
    /// The edition record of asset A, if supplied.
    pub master_edition_a: Option<Address>,
    /// The token record of asset A in the maker's holding, if supplied.
    pub maker_token_record_a: Option<Address>,
    /// The token record of asset A in the vault, if supplied.
    pub vault_token_record_a: Option<Address>,
    /// The holding of asset A that the escrow owns.
    pub vault: Holding,
    /// The location of the escrow record and what lives there.
    pub escrow: EscrowAccount,
    /// The program that keeps metadata, edition and token records.
    pub token_metadata_program: Address,
}

impl Close {
    /// From the vault back to the maker's holding, on the escrow's authority.
    pub open spec fn refund_participants(self) -> Participants {
        Participants {
            source: self.vault.address,
            source_owner: self.escrow.address,
            destination: self.maker_ata,
            destination_owner: self.maker,
            mint: self.mint_a,
            metadata: self.metadata_a,
            authority: self.escrow.address,
            payer: self.maker,
        }
    }

    /// The auxiliary accounts of the refund, as supplied.
    pub open spec fn refund_accounts(self) -> AuxiliaryAccounts {
        AuxiliaryAccounts {
            edition: self.master_edition_a,
            source_token_record: self.vault_token_record_a,
            destination_token_record: self.maker_token_record_a,
        }
    }

    /// The seeds with which the escrow signs, the bump seed given.
    pub open spec fn escrow_signer(self, bump: u8) -> EscrowSigner {
        EscrowSigner { maker: self.maker, mint_a: self.mint_a, mint_b: self.mint_b, bump }
    }

    /// The addresses that the derivation gives for the accounts of the close.
    /// The token standard is the one in the record.
    pub open spec fn expected_locations(self) -> ExpectedLocations {
        ExpectedLocations {
            escrow: escrow_address(self.maker, self.mint_a, self.mint_b),
            vault: associated_token_address(self.escrow.address, self.mint_a),
            accounts: expected_accounts(
                self.token_metadata_program,
                match self.escrow.record {
                    Some(record) => record.mint_a_type,
                    None => MintType::Fungible,
                },
                self.refund_participants(),
            ),
        }
    }

    /// The outcome of a close, the expected addresses given.
    pub open spec fn spec_close_with(self, expected: ExpectedLocations) -> Result<
        TransferRequest,
        EscrowError,
    > {
        match (self.escrow.record, expected.escrow) {
            (None, _) => Err(EscrowError::EscrowNotInitialized),
            (Some(record), found) => if !self.maker_signed {
                Err(EscrowError::MakerSignatureMissing)
            } else if !is_derived(self.escrow.address, found) {
                Err(EscrowError::EscrowAccountDoesNotMatch)
            } else if expected.vault != Some(self.vault.address) {
                Err(EscrowError::VaultAccountDoesNotMatch)
            } else {
                assembled_transfer(
                    record.mint_a_type,
                    self.vault.amount,
                    self.refund_participants(),
                    self.refund_accounts(),
                    Some(self.escrow_signer(bump_of(found))),
                    expected.accounts,
                )
            },
        }
    }

    /// The outcome of a close.
    pub open spec fn spec_close(self) -> Result<TransferRequest, EscrowError> {
        self.spec_close_with(self.expected_locations())
    }

    /// The accounts after a close that succeeded: the record is gone.
    pub open spec fn closed(self) -> Close {
        Close { escrow: EscrowAccount { address: self.escrow.address, record: None }, ..self }
    }

    /// Who gives and who receives in the refund.
    fn parties_of_refund(&self) -> (participants: Participants)
        ensures
            participants == self.refund_participants(),
    {
        Participants {
            source: self.vault.address,
            source_owner: self.escrow.address,
            destination: self.maker_ata,
            destination_owner: self.maker,
            mint: self.mint_a,
            metadata: self.metadata_a,
            authority: self.escrow.address,
            payer: self.maker,
        }
    }

    /// The auxiliary accounts that were supplied for the refund.
    fn accounts_of_refund(&self) -> (auxiliary: AuxiliaryAccounts)
        ensures
            auxiliary == self.refund_accounts(),
    {
        AuxiliaryAccounts {
            edition: self.master_edition_a,
            source_token_record: self.vault_token_record_a,
            destination_token_record: self.maker_token_record_a,
        }
    }

    /// Derives the addresses at which the accounts of the close must live.
    pub fn find_expected_locations(&self) -> (expected: ExpectedLocations)
        ensures
            expected == self.expected_locations(),
    {
        let participants = self.parties_of_refund();
        let standard = match self.escrow.record {
            Some(record) => record.mint_a_type,
            None => MintType::Fungible,
        };
        ExpectedLocations {
            escrow: find_escrow_address(&self.maker, &self.mint_a, &self.mint_b),
            vault: find_associated_token_address(&self.escrow.address, &self.mint_a),
            accounts: find_expected_accounts(&self.token_metadata_program, standard, &participants),
        }
    }

    /// Closes the escrow against addresses that were derived beforehand.
    ///
    /// The checks, in order: a record lives at the location; the maker
    /// signed; the location is the one derived from the maker and the two
    /// mints; the vault is the escrow's associated holding of asset A; the
    /// accounts of the transfer are the ones that the token standard in the
    /// record needs.
    ///
    /// On success the record is gone and the request for the refund is
    /// returned: the whole balance of the vault for a fungible asset, one
    /// unit otherwise, from the vault to the maker's holding, signed by the
    /// escrow's derived identity. On failure nothing changes.
    pub fn close_with(&mut self, expected: &ExpectedLocations) -> (r: Result<TransferRequest, EscrowError>)
        ensures
            r == old(self).spec_close_with(*expected),
            r is Ok ==> *final(self) == old(self).closed(),
            r is Err ==> *final(self) == *old(self),
            old(self).escrow.record is Some && !old(self).maker_signed ==> r == Err::<
                TransferRequest,
                EscrowError,
            >(EscrowError::MakerSignatureMissing),
            r matches Ok(request) ==> {
                &&& old(self).maker_signed
                &&& old(self).escrow.record matches Some(record)
                &&& request.amount == moved_amount(record.mint_a_type, old(self).vault.amount)
                &&& request.source == old(self).vault.address
                &&& request.destination == old(self).maker_ata
                &&& request.authority == old(self).escrow.address
                &&& request.signer is Some
            },
    {
        let record = match self.escrow.record {
            Some(record) => record,
            None => {
                return Err(EscrowError::EscrowNotInitialized);
            },
        };
        if !self.maker_signed {
            return Err(EscrowError::MakerSignatureMissing);
        }
        let bump = match expected.escrow {
            Some((address, bump)) => {
                if address != self.escrow.address {
                    return Err(EscrowError::EscrowAccountDoesNotMatch);
                }
                bump
            },
            None => {
                return Err(EscrowError::EscrowAccountDoesNotMatch);
            },
        };
        if !check_address(&self.vault.address, &expected.vault) {
            return Err(EscrowError::VaultAccountDoesNotMatch);
        }
        let participants = self.parties_of_refund();
        let auxiliary = self.accounts_of_refund();
        let signer = EscrowSigner { maker: self.maker, mint_a: self.mint_a, mint_b: self.mint_b, bump };
        let request = assemble_transfer(
            record.mint_a_type,
            self.vault.amount,
            &participants,
            &auxiliary,
            Some(signer),
            &expected.accounts,
        )?;
        self.escrow.record = None;
        Ok(request)
    }

    /// Closes the escrow: derives the address of every account that the
    /// close depends on, checks the supplied accounts against them, removes
    /// the record and returns the request for the refund.
    pub fn close(&mut self) -> (r: Result<TransferRequest, EscrowError>)
        ensures
            r == old(self).spec_close(),
            r is Ok ==> *final(self) == old(self).closed(),
            r is Err ==> *final(self) == *old(self),
            old(self).escrow.record is Some && !old(self).maker_signed ==> r == Err::<
                TransferRequest,
                EscrowError,
            >(EscrowError::MakerSignatureMissing),
            r matches Ok(request) ==> {
                &&& old(self).maker_signed
                &&& old(self).escrow.record matches Some(record)
                &&& request.amount == moved_amount(record.mint_a_type, old(self).vault.amount)
                &&& request.source == old(self).vault.address
                &&& request.destination == old(self).maker_ata
                &&& request.authority == old(self).escrow.address
                &&& request.signer is Some
            },
    {
        let expected = self.find_expected_locations();
        self.close_with(&expected)
    }
}

} // verus!
