use anchor_nft_escrow::address::Address;
use anchor_nft_escrow::errors::TransferFailure;
use anchor_nft_escrow::state::MintType;
use anchor_nft_escrow::transfer::{
    assemble_transfer, build_transfer, find_expected_accounts, propagate, AuxiliaryAccounts,
    EscrowSigner, ExpectedAccounts, Participants, TransferRequest,
};
use anchor_nft_escrow::{EscrowError, Failure};
use mpl_token_metadata::accounts::{MasterEdition, Metadata, TokenRecord};
use solana_program::pubkey::Pubkey;

fn address(n: u8) -> Address {
    Address::new([n; 32])
}

fn key(a: &Address) -> Pubkey {
    Pubkey::new_from_array(a.bytes)
}

fn from_key(k: &Pubkey) -> Address {
    Address::new(k.to_bytes())
}

fn metadata_program() -> Address {
    from_key(&mpl_token_metadata::ID)
}

fn participants() -> Participants {
    Participants {
        source: address(1),
        source_owner: address(2),
        destination: address(3),
        destination_owner: address(4),
        mint: address(5),
        metadata: address(6),
        authority: address(7),
        payer: address(8),
    }
}

fn supplied() -> AuxiliaryAccounts {
    AuxiliaryAccounts {
        edition: Some(address(10)),
        source_token_record: Some(address(11)),
        destination_token_record: Some(address(12)),
    }
}

fn expected() -> ExpectedAccounts {
    ExpectedAccounts {
        metadata: Some(address(6)),
        edition: Some(address(10)),
        source_token_record: Some(address(11)),
        destination_token_record: Some(address(12)),
    }
}

fn signer() -> EscrowSigner {
    EscrowSigner { maker: address(20), mint_a: address(21), mint_b: address(22), bump: 254 }
}

fn plain_request(amount: u64) -> TransferRequest {
    TransferRequest {
        source: address(1),
        source_owner: address(2),
        destination: address(3),
        destination_owner: address(4),
        mint: address(5),
        metadata: address(6),
        edition: None,
        source_token_record: None,
        destination_token_record: None,
        authority: address(7),
        payer: address(8),
        amount,
        signer: None,
    }
}

/// Participants whose metadata record is where the derivation puts it.
fn derived_participants() -> Participants {
    let mint = address(5);
    let (metadata, _) = Metadata::find_pda(&key(&mint));
    Participants { metadata: from_key(&metadata), ..participants() }
}

fn derived_accounts() -> AuxiliaryAccounts {
    let p = derived_participants();
    let (edition, _) = MasterEdition::find_pda(&key(&p.mint));
    let (source_record, _) = TokenRecord::find_pda(&key(&p.mint), &key(&p.source));
    let (destination_record, _) = TokenRecord::find_pda(&key(&p.mint), &key(&p.destination));
    AuxiliaryAccounts {
        edition: Some(from_key(&edition)),
        source_token_record: Some(from_key(&source_record)),
        destination_token_record: Some(from_key(&destination_record)),
    }
}

#[test]
fn fungible_transfer_moves_the_requested_amount_and_attaches_nothing() {
    let r = assemble_transfer(MintType::Fungible, 5, &participants(), &supplied(), None, &expected());
    assert_eq!(r, Ok(plain_request(5)));
    let none = AuxiliaryAccounts { edition: None, source_token_record: None, destination_token_record: None };
    let r = assemble_transfer(MintType::Fungible, 0, &participants(), &none, None, &expected());
    assert_eq!(r, Ok(plain_request(0)));
    let r = assemble_transfer(MintType::Fungible, u64::MAX, &participants(), &none, None, &expected());
    assert_eq!(r, Ok(plain_request(u64::MAX)));
}

#[test]
fn non_fungible_transfer_moves_one_unit_and_attaches_the_edition() {
    for requested in [0u64, 1, 5, u64::MAX] {
        let r = assemble_transfer(
            MintType::NonFungible,
            requested,
            &participants(),
            &supplied(),
            None,
            &expected(),
        );
        assert_eq!(r, Ok(TransferRequest { edition: Some(address(10)), ..plain_request(1) }));
    }
}

#[test]
fn programmable_transfer_moves_one_unit_and_attaches_edition_and_token_records() {
    for requested in [0u64, 1, 5, u64::MAX] {
        let r = assemble_transfer(
            MintType::ProgrammableNonFungible,
            requested,
            &participants(),
            &supplied(),
            Some(signer()),
            &expected(),
        );
        assert_eq!(
            r,
            Ok(TransferRequest {
                edition: Some(address(10)),
                source_token_record: Some(address(11)),
                destination_token_record: Some(address(12)),
                signer: Some(signer()),
                ..plain_request(1)
            })
        );
    }
}

#[test]
fn signer_is_handed_through() {
    let r = assemble_transfer(MintType::Fungible, 9, &participants(), &supplied(), Some(signer()), &expected());
    assert_eq!(r, Ok(TransferRequest { signer: Some(signer()), ..plain_request(9) }));
}

#[test]
fn metadata_is_checked_for_every_standard() {
    let wrong = ExpectedAccounts { metadata: Some(address(99)), ..expected() };
    let underived = ExpectedAccounts { metadata: None, ..expected() };
    for standard in [MintType::Fungible, MintType::NonFungible, MintType::ProgrammableNonFungible] {
        for e in [wrong, underived] {
            let r = assemble_transfer(standard, 1, &participants(), &supplied(), None, &e);
            assert_eq!(r, Err(EscrowError::MetadataAccountDoesNotMatch));
        }
    }
}

#[test]
fn missing_edition_is_reported() {
    let aux = AuxiliaryAccounts { edition: None, ..supplied() };
    for standard in [MintType::NonFungible, MintType::ProgrammableNonFungible] {
        let r = assemble_transfer(standard, 1, &participants(), &aux, None, &expected());
        assert_eq!(r, Err(EscrowError::MasterEditionAccountMissing));
    }
}

#[test]
fn wrong_edition_is_reported() {
    let aux = AuxiliaryAccounts { edition: Some(address(99)), ..supplied() };
    let underived = ExpectedAccounts { edition: None, ..expected() };
    for standard in [MintType::NonFungible, MintType::ProgrammableNonFungible] {
        let r = assemble_transfer(standard, 1, &participants(), &aux, None, &expected());
        assert_eq!(r, Err(EscrowError::MasterEditionAccountDoesNotMatch));
        let r = assemble_transfer(standard, 1, &participants(), &supplied(), None, &underived);
        assert_eq!(r, Err(EscrowError::MasterEditionAccountDoesNotMatch));
    }
}

#[test]
fn missing_token_record_is_reported() {
    let no_source = AuxiliaryAccounts { source_token_record: None, ..supplied() };
    let no_destination = AuxiliaryAccounts { destination_token_record: None, ..supplied() };
    for aux in [no_source, no_destination] {
        let r = assemble_transfer(
            MintType::ProgrammableNonFungible,
            1,
            &participants(),
            &aux,
            None,
            &expected(),
        );
        assert_eq!(r, Err(EscrowError::TokenRecordAccountMissing));
    }
    // a non-fungible transfer needs no token record
    let r = assemble_transfer(MintType::NonFungible, 1, &participants(), &no_source, None, &expected());
    assert!(r.is_ok());
}

#[test]
fn wrong_token_record_is_reported_before_any_request() {
    let wrong_source = AuxiliaryAccounts { source_token_record: Some(address(99)), ..supplied() };
    let wrong_destination = AuxiliaryAccounts { destination_token_record: Some(address(99)), ..supplied() };
    // the two records swapped
    let swapped = AuxiliaryAccounts {
        source_token_record: Some(address(12)),
        destination_token_record: Some(address(11)),
        ..supplied()
    };
    for aux in [wrong_source, wrong_destination, swapped] {
        let r = assemble_transfer(
            MintType::ProgrammableNonFungible,
            1,
            &participants(),
            &aux,
            None,
            &expected(),
        );
        assert_eq!(r, Err(EscrowError::TokenRecordAccountDoesNotMatch));
    }
}

#[test]
fn checks_come_in_order() {
    let all_wrong = ExpectedAccounts {
        metadata: Some(address(90)),
        edition: Some(address(91)),
        source_token_record: Some(address(92)),
        destination_token_record: Some(address(93)),
    };
    let r = assemble_transfer(
        MintType::ProgrammableNonFungible,
        1,
        &participants(),
        &supplied(),
        None,
        &all_wrong,
    );
    assert_eq!(r, Err(EscrowError::MetadataAccountDoesNotMatch));
    let e = ExpectedAccounts { metadata: Some(address(6)), ..all_wrong };
    let r = assemble_transfer(MintType::ProgrammableNonFungible, 1, &participants(), &supplied(), None, &e);
    assert_eq!(r, Err(EscrowError::MasterEditionAccountDoesNotMatch));
    let e = ExpectedAccounts { edition: Some(address(10)), ..e };
    let r = assemble_transfer(MintType::ProgrammableNonFungible, 1, &participants(), &supplied(), None, &e);
    assert_eq!(r, Err(EscrowError::TokenRecordAccountDoesNotMatch));
    // a missing source record is seen before a wrong destination record
    let aux = AuxiliaryAccounts { source_token_record: None, ..supplied() };
    let r = assemble_transfer(MintType::ProgrammableNonFungible, 1, &participants(), &aux, None, &e);
    assert_eq!(r, Err(EscrowError::TokenRecordAccountMissing));
}

#[test]
fn expected_accounts_are_derived_as_the_standard_needs() {
    let p = derived_participants();
    let aux = derived_accounts();
    let fungible = find_expected_accounts(&metadata_program(), MintType::Fungible, &p);
    assert_eq!(
        fungible,
        ExpectedAccounts {
            metadata: Some(p.metadata),
            edition: None,
            source_token_record: None,
            destination_token_record: None,
        }
    );
    let non_fungible = find_expected_accounts(&metadata_program(), MintType::NonFungible, &p);
    assert_eq!(
        non_fungible,
        ExpectedAccounts {
            metadata: Some(p.metadata),
            edition: aux.edition,
            source_token_record: None,
            destination_token_record: None,
        }
    );
    let programmable = find_expected_accounts(&metadata_program(), MintType::ProgrammableNonFungible, &p);
    assert_eq!(
        programmable,
        ExpectedAccounts {
            metadata: Some(p.metadata),
            edition: aux.edition,
            source_token_record: aux.source_token_record,
            destination_token_record: aux.destination_token_record,
        }
    );
}

#[test]
fn build_transfer_accepts_the_derived_accounts() {
    let p = derived_participants();
    let aux = derived_accounts();
    let r = build_transfer(&metadata_program(), MintType::ProgrammableNonFungible, 3, &p, &aux, Some(signer()));
    assert_eq!(
        r,
        Ok(TransferRequest {
            metadata: p.metadata,
            edition: aux.edition,
            source_token_record: aux.source_token_record,
            destination_token_record: aux.destination_token_record,
            signer: Some(signer()),
            ..plain_request(1)
        })
    );
    let r = build_transfer(&metadata_program(), MintType::Fungible, 3, &p, &aux, None);
    assert_eq!(r, Ok(TransferRequest { metadata: p.metadata, ..plain_request(3) }));
}

#[test]
fn build_transfer_rejects_a_metadata_record_of_another_mint() {
    let (other, _) = Metadata::find_pda(&key(&address(77)));
    let p = Participants { metadata: from_key(&other), ..derived_participants() };
    let r = build_transfer(&metadata_program(), MintType::Fungible, 3, &p, &derived_accounts(), None);
    assert_eq!(r, Err(EscrowError::MetadataAccountDoesNotMatch));
    // and the accounts of another metadata program
    let r = build_transfer(&address(78), MintType::Fungible, 3, &derived_participants(), &derived_accounts(), None);
    assert_eq!(r, Err(EscrowError::MetadataAccountDoesNotMatch));
}

#[test]
fn build_transfer_rejects_a_token_record_of_another_holder() {
    let p = derived_participants();
    let (of_other_holder, _) = TokenRecord::find_pda(&key(&p.mint), &key(&address(55)));
    let aux = AuxiliaryAccounts { source_token_record: Some(from_key(&of_other_holder)), ..derived_accounts() };
    let r = build_transfer(&metadata_program(), MintType::ProgrammableNonFungible, 1, &p, &aux, None);
    assert_eq!(r, Err(EscrowError::TokenRecordAccountDoesNotMatch));
    let aux = AuxiliaryAccounts { destination_token_record: Some(from_key(&of_other_holder)), ..derived_accounts() };
    let r = build_transfer(&metadata_program(), MintType::ProgrammableNonFungible, 1, &p, &aux, None);
    assert_eq!(r, Err(EscrowError::TokenRecordAccountDoesNotMatch));
    // the destination's record does not pass for the source's
    let aux = AuxiliaryAccounts {
        source_token_record: derived_accounts().destination_token_record,
        ..derived_accounts()
    };
    let r = build_transfer(&metadata_program(), MintType::ProgrammableNonFungible, 1, &p, &aux, None);
    assert_eq!(r, Err(EscrowError::TokenRecordAccountDoesNotMatch));
}

#[test]
fn build_transfer_rejects_an_edition_of_another_mint() {
    let (other, _) = MasterEdition::find_pda(&key(&address(77)));
    let aux = AuxiliaryAccounts { edition: Some(from_key(&other)), ..derived_accounts() };
    let r = build_transfer(&metadata_program(), MintType::NonFungible, 1, &derived_participants(), &aux, None);
    assert_eq!(r, Err(EscrowError::MasterEditionAccountDoesNotMatch));
}

#[test]
fn escrow_signer_seeds() {
    let seeds = signer().seeds();
    assert_eq!(
        seeds,
        vec![b"escrow".to_vec(), vec![20u8; 32], vec![21u8; 32], vec![22u8; 32], vec![254u8]]
    );
}

#[test]
fn escrow_signer_seeds_sign_for_the_escrow_address() {
    let maker = address(20);
    let mint_a = address(21);
    let mint_b = address(22);
    let (escrow, bump) =
        anchor_nft_escrow::address::find_escrow_address(&maker, &mint_a, &mint_b).unwrap();
    let seeds = EscrowSigner { maker, mint_a, mint_b, bump }.seeds();
    let parts: Vec<&[u8]> = seeds.iter().map(|s| s.as_slice()).collect();
    let created =
        Pubkey::create_program_address(&parts, &Pubkey::new_from_array(anchor_nft_escrow::address::ID));
    assert_eq!(created, Ok(key(&escrow)));
}

#[test]
fn service_failure_is_propagated_unchanged() {
    assert_eq!(propagate(Ok(())), Ok(()));
    assert_eq!(
        propagate(Err(TransferFailure { code: 0x1234 })),
        Err(Failure::Transfer(TransferFailure { code: 0x1234 }))
    );
    assert_eq!(
        propagate(Err(TransferFailure { code: u64::MAX })),
        Err(Failure::Transfer(TransferFailure { code: u64::MAX }))
    );
}
