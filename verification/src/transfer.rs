//! The transfer delegate: from a token standard and an intent to the request
//! that the asset transfer service carries out.
//!
//! | standard                  | amount moved | accounts attached                      |
//! |---------------------------|--------------|----------------------------------------|
//! | fungible                  | as requested | none                                   |
//! | non-fungible              | 1            | edition                                |
//! | programmable non-fungible | 1            | edition, both token records            |
//!
//! An account is attached only after it was found at its derived address.

use vstd::prelude::*;
use vstd::slice::slice_to_vec;
use crate::address::{
    check_address, edition_address, escrow_seeds, find_edition_address, find_metadata_address,
    find_token_record_address, metadata_address, seeds_view, token_record_address, Address,
    ESCROW_TAG,
};
use crate::errors::{EscrowError, Failure, TransferFailure};
use crate::state::MintType;

verus! {

/// Who gives, who receives, and what.
#[derive(Clone, Copy, Debug, PartialEq, Eq)]
pub struct Participants {
    /// The holding that is debited.
    pub source: Address,
    /// The owner of the source holding.
    pub source_owner: Address,
    /// The holding that is credited.
    pub destination: Address,
    /// The owner of the destination holding.
    pub destination_owner: Address,
    /// The mint of the asset.
    pub mint: Address,
    /// The metadata record of the asset.
    pub metadata: Address,
    /// Who authorizes the transfer.
    pub authority: Address,
    /// Who pays for accounts that the transfer creates.
    pub payer: Address,
}

/// The accounts that only some token standards need, as they were supplied.
#[derive(Clone, Copy, Debug, PartialEq, Eq)]
pub struct AuxiliaryAccounts {
    /// The edition record of the asset.
    pub edition: Option<Address>,
    /// The token record of the asset in the source holding.
    pub source_token_record: Option<Address>,
    /// The token record of the asset in the destination holding.
    pub destination_token_record: Option<Address>,
}

/// The seeds with which the escrow signs for what its vault gives out.
#[derive(Clone, Copy, Debug, PartialEq, Eq)]
pub struct EscrowSigner {
    pub maker: Address,
    pub mint_a: Address,
    pub mint_b: Address,
    pub bump: u8,
}

/// A request to the asset transfer service.
#[derive(Clone, Copy, Debug, PartialEq, Eq)]
pub struct TransferRequest {
    pub source: Address,
    pub source_owner: Address,
    pub destination: Address,
    pub destination_owner: Address,
    pub mint: Address,
    pub metadata: Address,
    pub edition: Option<Address>,
    pub source_token_record: Option<Address>,
    pub destination_token_record: Option<Address>,
    pub authority: Address,
    pub payer: Address,
    /// How many units move.
    pub amount: u64,
    /// `None` where the authority signs for itself; the escrow's seeds where
    /// the escrow's derived identity signs.
    pub signer: Option<EscrowSigner>,
}

/// The addresses at which the accounts of a transfer must live. An entry that
/// the token standard does not need is `None`.
#[derive(Clone, Copy, Debug, PartialEq, Eq)]
pub struct ExpectedAccounts {
    pub metadata: Option<Address>,
    pub edition: Option<Address>,
    pub source_token_record: Option<Address>,
    pub destination_token_record: Option<Address>,
}

impl EscrowSigner {
    /// The seeds of the escrow's derived identity: those of its record, then
    /// the bump seed.
    pub open spec fn spec_seeds(self) -> Seq<Seq<u8>> {
        escrow_seeds(self.maker, self.mint_a, self.mint_b).push(seq![self.bump])
    }

    /// The seeds with which the escrow signs a request.
    pub fn seeds(&self) -> (seeds: Vec<Vec<u8>>)
        ensures
            seeds_view(seeds@) == self.spec_seeds(),
    {
        let mut seeds: Vec<Vec<u8>> = Vec::new();
        seeds.push(slice_to_vec(ESCROW_TAG.as_slice()));
        seeds.push(self.maker.to_seed());
        seeds.push(self.mint_a.to_seed());
        seeds.push(self.mint_b.to_seed());
        let mut bump: Vec<u8> = Vec::new();
        bump.push(self.bump);
        seeds.push(bump);
        seeds
    }
}

/// How many units a transfer of the standard moves when `requested` are asked for.
pub open spec fn moved_amount(standard: MintType, requested: u64) -> u64 {
    match standard {
        MintType::Fungible => requested,
        MintType::NonFungible => 1,
        MintType::ProgrammableNonFungible => 1,
    }
}

/// The request between the participants with the given accounts attached.
pub open spec fn request_of(
    participants: Participants,
    edition: Option<Address>,
    source_token_record: Option<Address>,
    destination_token_record: Option<Address>,
    amount: u64,
    signer: Option<EscrowSigner>,
) -> TransferRequest {
    TransferRequest {
        source: participants.source,
        source_owner: participants.source_owner,
        destination: participants.destination,
        destination_owner: participants.destination_owner,
        mint: participants.mint,
        metadata: participants.metadata,
        edition,
        source_token_record,
        destination_token_record,
        authority: participants.authority,
        payer: participants.payer,
        amount,
        signer,
    }
}

/// The first check that the supplied accounts fail against the expected
/// addresses, in the order metadata, edition, source token record,
/// destination token record; `None` where they pass them all.
pub open spec fn account_fault(
    standard: MintType,
    participants: Participants,
    auxiliary: AuxiliaryAccounts,
    expected: ExpectedAccounts,
) -> Option<EscrowError> {
    if expected.metadata != Some(participants.metadata) {
        Some(EscrowError::MetadataAccountDoesNotMatch)
    } else if standard == MintType::Fungible {
        None
    } else if auxiliary.edition is None {
        Some(EscrowError::MasterEditionAccountMissing)
    } else if expected.edition != auxiliary.edition {
        Some(EscrowError::MasterEditionAccountDoesNotMatch)
    } else if standard == MintType::NonFungible {
        None
    } else if auxiliary.source_token_record is None {
        Some(EscrowError::TokenRecordAccountMissing)
    } else if expected.source_token_record != auxiliary.source_token_record {
        Some(EscrowError::TokenRecordAccountDoesNotMatch)
    } else if auxiliary.destination_token_record is None {
        Some(EscrowError::TokenRecordAccountMissing)
    } else if expected.destination_token_record != auxiliary.destination_token_record {
        Some(EscrowError::TokenRecordAccountDoesNotMatch)
    } else {
        None
    }
}

/// The request that the standard calls for, with the accounts it needs and no
/// others.
pub open spec fn shaped_request(
    standard: MintType,
    requested_amount: u64,
    participants: Participants,
    auxiliary: AuxiliaryAccounts,
    signer: Option<EscrowSigner>,
) -> TransferRequest {
    match standard {
        MintType::Fungible => request_of(participants, None, None, None, requested_amount, signer),
        MintType::NonFungible => request_of(participants, auxiliary.edition, None, None, 1, signer),
        MintType::ProgrammableNonFungible => request_of(
            participants,
            auxiliary.edition,
            auxiliary.source_token_record,
            auxiliary.destination_token_record,
            1,
            signer,
        ),
    }
}

/// The outcome of the delegate once the expected addresses are known: the
/// first failed check, or the request in the shape of the standard.
pub open spec fn assembled_transfer(
    standard: MintType,
    requested_amount: u64,
    participants: Participants,
    auxiliary: AuxiliaryAccounts,
    signer: Option<EscrowSigner>,
    expected: ExpectedAccounts,
) -> Result<TransferRequest, EscrowError> {
    match account_fault(standard, participants, auxiliary, expected) {
        Some(error) => Err(error),
        None => Ok(shaped_request(standard, requested_amount, participants, auxiliary, signer)),
    }
}

/// The addresses that the derivation gives for the accounts of a transfer.
pub open spec fn expected_accounts(
    metadata_program: Address,
    standard: MintType,
    participants: Participants,
) -> ExpectedAccounts {
    ExpectedAccounts {
        metadata: metadata_address(metadata_program, participants.mint),
        edition: if standard == MintType::Fungible {
            None
        } else {
            edition_address(metadata_program, participants.mint)
        },
        source_token_record: if standard == MintType::ProgrammableNonFungible {
            token_record_address(metadata_program, participants.mint, participants.source)
        } else {
            None
        },
        destination_token_record: if standard == MintType::ProgrammableNonFungible {
            token_record_address(metadata_program, participants.mint, participants.destination)
        } else {
            None
        },
    }
}

/// The outcome of the delegate.
pub open spec fn built_transfer(
    metadata_program: Address,
    standard: MintType,
    requested_amount: u64,
    participants: Participants,
    auxiliary: AuxiliaryAccounts,
    signer: Option<EscrowSigner>,
) -> Result<TransferRequest, EscrowError> {
    assembled_transfer(
        standard,
        requested_amount,
        participants,
        auxiliary,
        signer,
        expected_accounts(metadata_program, standard, participants),
    )
}

/// Derives the addresses at which the accounts of a transfer must live:
/// those that the standard needs, and no others.
pub fn find_expected_accounts(
    metadata_program: &Address,
    standard: MintType,
    participants: &Participants,
) -> (expected: ExpectedAccounts)
    ensures
        expected == expected_accounts(*metadata_program, standard, *participants),
{
    let metadata = find_metadata_address(metadata_program, &participants.mint);
    let edition = match standard {
        MintType::Fungible => None,
        _ => find_edition_address(metadata_program, &participants.mint),
    };
    let (source_token_record, destination_token_record) = match standard {
        MintType::ProgrammableNonFungible => (
            find_token_record_address(metadata_program, &participants.mint, &participants.source),
            find_token_record_address(metadata_program, &participants.mint, &participants.destination),
        ),
        _ => (None, None),
    };
    ExpectedAccounts { metadata, edition, source_token_record, destination_token_record }
}

/// Checks a supplied account that the standard needs against its address.
fn required_account(
    supplied: &Option<Address>,
    expected: &Option<Address>,
    missing: EscrowError,
    mismatch: EscrowError,
) -> (r: Result<Address, EscrowError>)
    ensures
        r == (match *supplied {
            None => Err::<Address, EscrowError>(missing),
            Some(account) => if *expected == Some(account) {
                Ok(account)
            } else {
                Err(mismatch)
            },
        }),
{
    match supplied {
        None => Err(missing),
        Some(account) => {
            if check_address(account, expected) {
                Ok(*account)
            } else {
                Err(mismatch)
            }
        },
    }
}

/// Checks the supplied accounts against the expected addresses and shapes the
/// request as the token standard demands.
///
/// The metadata record is checked for every standard. The edition record is
/// needed and checked for the two non-fungible standards, the two token
/// records for the programmable one. A non-fungible transfer moves one unit
/// whatever amount was requested.
pub fn assemble_transfer(
    standard: MintType,
    requested_amount: u64,
    participants: &Participants,
    auxiliary: &AuxiliaryAccounts,
    signer: Option<EscrowSigner>,
    expected: &ExpectedAccounts,
) -> (r: Result<TransferRequest, EscrowError>)
    ensures
        r == assembled_transfer(standard, requested_amount, *participants, *auxiliary, signer, *expected),
        r matches Ok(request) ==> request.amount == moved_amount(standard, requested_amount),
{
    if !check_address(&participants.metadata, &expected.metadata) {
        return Err(EscrowError::MetadataAccountDoesNotMatch);
    }
    let mut request = TransferRequest {
        source: participants.source,
        source_owner: participants.source_owner,
        destination: participants.destination,
        destination_owner: participants.destination_owner,
        mint: participants.mint,
        metadata: participants.metadata,
        edition: None,
        source_token_record: None,
        destination_token_record: None,
        authority: participants.authority,
        payer: participants.payer,
        amount: requested_amount,
        signer,
    };
    if standard == MintType::Fungible {
        return Ok(request);
    }
    let edition = required_account(
        &auxiliary.edition,
        &expected.edition,
        EscrowError::MasterEditionAccountMissing,
        EscrowError::MasterEditionAccountDoesNotMatch,
    )?;
    request.edition = Some(edition);
    request.amount = 1;
    if standard == MintType::NonFungible {
        return Ok(request);
    }
    let source_token_record = required_account(
        &auxiliary.source_token_record,
        &expected.source_token_record,
        EscrowError::TokenRecordAccountMissing,
        EscrowError::TokenRecordAccountDoesNotMatch,
    )?;
    let destination_token_record = required_account(
        &auxiliary.destination_token_record,
        &expected.destination_token_record,
        EscrowError::TokenRecordAccountMissing,
        EscrowError::TokenRecordAccountDoesNotMatch,
    )?;
    request.source_token_record = Some(source_token_record);
    request.destination_token_record = Some(destination_token_record);
    Ok(request)
}

/// Builds the request for a transfer between the participants: derives the
/// address of every account that the standard needs, checks the supplied
/// accounts against them, and shapes the request.
pub fn build_transfer(
    metadata_program: &Address,
    standard: MintType,
    requested_amount: u64,
    participants: &Participants,
    auxiliary: &AuxiliaryAccounts,
    signer: Option<EscrowSigner>,
) -> (r: Result<TransferRequest, EscrowError>)
    ensures
        r == built_transfer(*metadata_program, standard, requested_amount, *participants, *auxiliary, signer),
        r matches Ok(request) ==> request.amount == moved_amount(standard, requested_amount),
{
    let expected = find_expected_accounts(metadata_program, standard, participants);
    assemble_transfer(standard, requested_amount, participants, auxiliary, signer, &expected)
}

/// What an operation makes of the answer of the asset transfer service: a
/// failure is handed on as it came.
pub open spec fn spec_propagate(answer: Result<(), TransferFailure>) -> Result<(), Failure> {
    match answer {
        Ok(()) => Ok(()),
        Err(failure) => Err(Failure::Transfer(failure)),
    }
}

/// Hands the answer of the asset transfer service on: a failure aborts the
/// operation and is kept as it came.
#[verifier::when_used_as_spec(spec_propagate)]
pub fn propagate(answer: Result<(), TransferFailure>) -> (r: Result<(), Failure>)
    ensures
        r == spec_propagate(answer),
{
    match answer {
        Ok(()) => Ok(()),
        Err(failure) => Err(Failure::Transfer(failure)),
    }
}

} // verus!
