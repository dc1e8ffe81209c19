use anchor_nft_escrow::address::Address;
use anchor_nft_escrow::errors::{ErrorKind, TransferFailure};
use anchor_nft_escrow::state::{MintType, TokenStandard, ESCROW_DISCRIMINATOR};
use anchor_nft_escrow::{Escrow, EscrowError, Failure, IntrospectionError};
use solana_program::hash::hash;

fn address(n: u8) -> Address {
    Address::new([n; 32])
}

fn record() -> Escrow {
    Escrow {
        maker: address(1),
        mint_a: address(2),
        mint_a_type: MintType::NonFungible,
        mint_b: address(3),
        mint_b_amount: 0x0102030405060708,
    }
}

#[test]
fn escrow_error_kinds() {
    assert_eq!(EscrowError::MetadataAccountDoesNotMatch.kind(), ErrorKind::AddressMismatch);
    assert_eq!(EscrowError::MasterEditionAccountDoesNotMatch.kind(), ErrorKind::AddressMismatch);
    assert_eq!(EscrowError::TokenRecordAccountDoesNotMatch.kind(), ErrorKind::AddressMismatch);
    assert_eq!(EscrowError::VaultAccountDoesNotMatch.kind(), ErrorKind::AddressMismatch);
    assert_eq!(EscrowError::EscrowAccountDoesNotMatch.kind(), ErrorKind::AddressMismatch);
    assert_eq!(EscrowError::MasterEditionAccountMissing.kind(), ErrorKind::MissingStandardAccount);
    assert_eq!(EscrowError::TokenRecordAccountMissing.kind(), ErrorKind::MissingStandardAccount);
    assert_eq!(EscrowError::InvalidAmount.kind(), ErrorKind::AmountMismatch);
    assert_eq!(EscrowError::EscrowAlreadyInUse.kind(), ErrorKind::LocationOccupied);
    assert_eq!(EscrowError::EscrowNotInitialized.kind(), ErrorKind::NotActive);
    assert_eq!(EscrowError::MakerSignatureMissing.kind(), ErrorKind::Unauthorized);
}

#[test]
fn introspection_errors_are_atomicity_violations() {
    for error in [
        IntrospectionError::InvalidDiscriminator,
        IntrospectionError::InvalidAmount,
        IntrospectionError::InvalidProgram,
        IntrospectionError::InvalidMakerATA,
        IntrospectionError::MissingInstruction,
    ] {
        assert_eq!(error.kind(), ErrorKind::AtomicityViolation);
    }
}

#[test]
fn failure_kinds() {
    assert_eq!(Failure::Escrow(EscrowError::InvalidAmount).kind(), ErrorKind::AmountMismatch);
    assert_eq!(
        Failure::Introspection(IntrospectionError::InvalidProgram).kind(),
        ErrorKind::AtomicityViolation
    );
    assert_eq!(
        Failure::Transfer(TransferFailure { code: 42 }).kind(),
        ErrorKind::TransferServiceFailure
    );
}

#[test]
fn escrow_error_messages() {
    assert_eq!(EscrowError::MetadataAccountDoesNotMatch.message(), "The Metadata Account doesn't match.");
    assert_eq!(
        EscrowError::MasterEditionAccountDoesNotMatch.message(),
        "The Master Edition Account doesn't match."
    );
    assert_eq!(
        EscrowError::TokenRecordAccountDoesNotMatch.message(),
        "The Token Record Account doesn't match."
    );
    assert_eq!(
        EscrowError::InvalidAmount.message(),
        "The Amount of Token sent to the Maker doesn't match."
    );
    assert_eq!(EscrowError::VaultAccountDoesNotMatch.message(), "The Vault Account doesn't match.");
    assert_eq!(EscrowError::EscrowAccountDoesNotMatch.message(), "The Escrow Account doesn't match.");
    assert_eq!(
        EscrowError::MasterEditionAccountMissing.message(),
        "The Master Edition Account is missing."
    );
    assert_eq!(EscrowError::TokenRecordAccountMissing.message(), "The Token Record Account is missing.");
    assert_eq!(EscrowError::EscrowAlreadyInUse.message(), "The Escrow Account is already in use.");
    assert_eq!(EscrowError::EscrowNotInitialized.message(), "The Escrow Account is not initialized.");
    assert_eq!(EscrowError::MakerSignatureMissing.message(), "The Maker did not sign.");
}

#[test]
fn introspection_error_messages() {
    assert_eq!(IntrospectionError::InvalidDiscriminator.message(), "Invalid discriminator");
    assert_eq!(IntrospectionError::InvalidAmount.message(), "Invalid amount");
    assert_eq!(IntrospectionError::InvalidProgram.message(), "Invalid program");
    assert_eq!(IntrospectionError::InvalidMakerATA.message(), "Invalid Maker ATA");
    assert_eq!(IntrospectionError::MissingInstruction.message(), "Missing instruction");
}

#[test]
fn mint_type_tags() {
    assert_eq!(MintType::Fungible.tag(), 0);
    assert_eq!(MintType::NonFungible.tag(), 1);
    assert_eq!(MintType::ProgrammableNonFungible.tag(), 2);
    assert_eq!(MintType::from_tag(0), Some(MintType::Fungible));
    assert_eq!(MintType::from_tag(1), Some(MintType::NonFungible));
    assert_eq!(MintType::from_tag(2), Some(MintType::ProgrammableNonFungible));
    assert_eq!(MintType::from_tag(3), None);
    assert_eq!(MintType::from_tag(255), None);
}

#[test]
fn token_standards_move_in_one_of_three_ways() {
    assert_eq!(MintType::of(TokenStandard::Fungible), MintType::Fungible);
    assert_eq!(MintType::of(TokenStandard::NonFungible), MintType::NonFungible);
    assert_eq!(MintType::of(TokenStandard::ProgrammableNonFungible), MintType::ProgrammableNonFungible);
    assert_eq!(MintType::of(TokenStandard::FungibleAsset), MintType::Fungible);
    assert_eq!(MintType::of(TokenStandard::NonFungibleEdition), MintType::Fungible);
    assert_eq!(MintType::of(TokenStandard::ProgrammableNonFungibleEdition), MintType::Fungible);
}

#[test]
fn escrow_space_is_the_size_of_a_stored_record() {
    assert_eq!(Escrow::space(), 113);
    assert_eq!(Escrow::space(), 8 + 32 + 32 + 1 + 32 + 8);
    assert_eq!(record().to_bytes().len(), Escrow::space());
}

#[test]
fn escrow_discriminator_is_the_hash_of_the_record_name() {
    let digest = hash(b"account:Escrow").to_bytes();
    assert_eq!(&ESCROW_DISCRIMINATOR[..], &digest[..8]);
}

#[test]
fn stored_record_layout() {
    let bytes = record().to_bytes();
    assert_eq!(&bytes[0..8], &ESCROW_DISCRIMINATOR[..]);
    assert_eq!(&bytes[8..40], &[1u8; 32][..]);
    assert_eq!(&bytes[40..72], &[2u8; 32][..]);
    assert_eq!(bytes[72], 1);
    assert_eq!(&bytes[73..105], &[3u8; 32][..]);
    assert_eq!(&bytes[105..113], &[8u8, 7, 6, 5, 4, 3, 2, 1][..]);
}

#[test]
fn stored_record_is_read_back() {
    let written = record();
    assert_eq!(Escrow::from_bytes(&written.to_bytes()), Some(written));
    let fungible = Escrow { mint_a_type: MintType::Fungible, mint_b_amount: u64::MAX, ..written };
    assert_eq!(Escrow::from_bytes(&fungible.to_bytes()), Some(fungible));
    let programmable =
        Escrow { mint_a_type: MintType::ProgrammableNonFungible, mint_b_amount: 0, ..written };
    assert_eq!(Escrow::from_bytes(&programmable.to_bytes()), Some(programmable));
}

#[test]
fn malformed_stored_records_are_not_read() {
    let bytes = record().to_bytes();
    assert_eq!(Escrow::from_bytes(&[]), None);
    assert_eq!(Escrow::from_bytes(&bytes[..112]), None);
    let mut longer = bytes.clone();
    longer.push(0);
    assert_eq!(Escrow::from_bytes(&longer), None);
    let mut wrong_tag = bytes.clone();
    wrong_tag[0] ^= 1;
    assert_eq!(Escrow::from_bytes(&wrong_tag), None);
    let mut wrong_standard = bytes.clone();
    wrong_standard[72] = 3;
    assert_eq!(Escrow::from_bytes(&wrong_standard), None);
}
