//! What holds of the escrow whatever accounts and amounts it is handed.

use vstd::prelude::*;
use crate::address::{
    associated_token_address, edition_address, escrow_address, metadata_address, spec_program_id,
    token_record_address, Address,
};
use crate::context::{Close, Make, Take};
use crate::errors::{ErrorKind, EscrowError, Failure, TransferFailure};
use crate::introspection::{
    is_expected_operation, ExecutionUnit, DESTINATION_POSITION, TAKER_TO_MAKER_DISCRIMINATOR,
};
use crate::model::World;
use crate::state::MintType;
use crate::transfer::{
    built_transfer, expected_accounts, moved_amount, AuxiliaryAccounts, EscrowSigner,
    Participants, TransferRequest,
};

verus! {

/// One escrow for each maker and pair of mints: while a record lives at the
/// location derived from them, every make for them fails. A make at that
/// location fails because the location is taken; a make anywhere else fails
/// because it is taken or because it is not the derived location.
pub proof fn law_live_escrow_refuses_make(
    world: World,
    location: Address,
    accounts: Make,
    maker_amount: u64,
    taker_amount: u64,
    answer: Result<(), TransferFailure>,
)
    requires
        accounts.reads(world),
        escrow_address(accounts.maker, accounts.mint_a, accounts.mint_b) matches Some((derived, _))
            && derived == location,
        world.record_at(location) is Some,
    ensures
        world.after_make(accounts, maker_amount, taker_amount, answer) matches Err(failure) && (failure
            == Failure::Escrow(EscrowError::EscrowAlreadyInUse) || failure == Failure::Escrow(
            EscrowError::EscrowAccountDoesNotMatch,
        )),
        accounts.escrow.address == location ==> world.after_make(
            accounts,
            maker_amount,
            taker_amount,
            answer,
        ) == Err::<World, Failure>(Failure::Escrow(EscrowError::EscrowAlreadyInUse)),
        world.committed(world.after_make(accounts, maker_amount, taker_amount, answer)) == world,
{
}

/// A second make for the same maker and mints, while the escrow that the
/// first one opened is live, fails as `law_live_escrow_refuses_make` says.
pub proof fn law_second_make_fails(
    world: World,
    first: Make,
    first_maker_amount: u64,
    first_taker_amount: u64,
    first_answer: Result<(), TransferFailure>,
    between: World,
    second: Make,
    second_maker_amount: u64,
    second_taker_amount: u64,
    second_answer: Result<(), TransferFailure>,
)
    requires
        world.after_make(first, first_maker_amount, first_taker_amount, first_answer) == Ok::<
            World,
            Failure,
        >(between),
        second.reads(between),
        second.maker == first.maker,
        second.mint_a == first.mint_a,
        second.mint_b == first.mint_b,
    ensures
        between.after_make(second, second_maker_amount, second_taker_amount, second_answer) matches Err(
            failure,
        ) && (failure == Failure::Escrow(EscrowError::EscrowAlreadyInUse) || failure
            == Failure::Escrow(EscrowError::EscrowAccountDoesNotMatch)),
        second.escrow.address == first.escrow.address ==> between.after_make(
            second,
            second_maker_amount,
            second_taker_amount,
            second_answer,
        ) == Err::<World, Failure>(Failure::Escrow(EscrowError::EscrowAlreadyInUse)),
{
    law_live_escrow_refuses_make(
        between,
        first.escrow.address,
        second,
        second_maker_amount,
        second_taker_amount,
        second_answer,
    );
}

/// While an escrow is live its vault holds what was deposited: after a make
/// into an empty vault, the vault holds the amount that the token standard
/// of asset A moves of the amount named, and the record at the location
/// says what is owed.
pub proof fn law_vault_holds_the_deposit(
    world: World,
    make: Make,
    maker_amount: u64,
    taker_amount: u64,
    deposited: Result<(), TransferFailure>,
    after: World,
)
    requires
        world.balance(make.vault) == 0,
        make.maker_ata != make.vault,
        make.spec_make(maker_amount) matches Ok(request) ==> world.admits(request, deposited),
        world.after_make(make, maker_amount, taker_amount, deposited) == Ok::<World, Failure>(after),
    ensures
        after.balance(make.vault) == moved_amount(make.token_standard, maker_amount),
        after.balance(make.maker_ata) == world.balance(make.maker_ata) - moved_amount(
            make.token_standard,
            maker_amount,
        ),
        after.record_at(make.escrow.address) == Some(make.record_made(taker_amount)),
        make.record_made(taker_amount).mint_a_type == make.token_standard,
        make.record_made(taker_amount).mint_b_amount == taker_amount,
{
}

/// Only the maker closes: a close that the maker did not sign fails, and
/// the escrow stays as it was.
pub proof fn law_only_the_maker_closes(
    world: World,
    accounts: Close,
    answer: Result<(), TransferFailure>,
)
    requires
        !accounts.maker_signed,
    ensures
        world.after_close(accounts, answer) is Err,
        accounts.escrow.record is Some ==> world.after_close(accounts, answer) == Err::<
            World,
            Failure,
        >(Failure::Escrow(EscrowError::MakerSignatureMissing)),
        world.committed(world.after_close(accounts, answer)) == world,
{
}

/// A make followed by a close, with no take in between, gives the balance
/// of the vault back to the maker and leaves no record. A fungible vault is
/// emptied into the maker's holding; a non-fungible one gives back the unit
/// that was deposited. No other holding changes. Where the vault was empty
/// before the make, every holding ends as it began.
pub proof fn law_make_then_close_restores(
    world: World,
    make: Make,
    maker_amount: u64,
    taker_amount: u64,
    deposited: Result<(), TransferFailure>,
    between: World,
    close: Close,
    refunded: Result<(), TransferFailure>,
    end: World,
)
    requires
        make.reads(world),
        make.spec_make(maker_amount) matches Ok(request) ==> world.admits(request, deposited),
        world.after_make(make, maker_amount, taker_amount, deposited) == Ok::<World, Failure>(between),
        close.reads(between),
        close.maker == make.maker,
        close.mint_a == make.mint_a,
        close.mint_b == make.mint_b,
        close.maker_ata == make.maker_ata,
        close.spec_close() matches Ok(request) ==> between.admits(request, refunded),
        between.after_close(close, refunded) == Ok::<World, Failure>(end),
    ensures
        close.escrow.address == make.escrow.address,
        close.vault.address == make.vault,
        end.record_at(make.escrow.address) is None,
        forall|holding: Address|
            holding != make.vault && holding != make.maker_ata ==> end.balance(holding)
                == world.balance(holding),
        make.maker_ata != make.vault ==> end.balance(make.maker_ata) + end.balance(make.vault)
            == world.balance(make.maker_ata) + world.balance(make.vault),
        make.maker_ata != make.vault && make.token_standard == MintType::Fungible ==> end.balance(
            make.vault,
        ) == 0,
        make.maker_ata != make.vault && make.token_standard != MintType::Fungible ==> end.balance(
            make.vault,
        ) == world.balance(make.vault),
        world.balance(make.vault) == 0 ==> forall|holding: Address|
            end.balance(holding) == world.balance(holding),
{
}

/// The vault gives only to a taker whose payment is next: a release
/// succeeds only if the operation right after it in the unit is addressed
/// to this program, is a payment, pays into the maker's associated holding
/// of asset B, and pays the amount in the record. Otherwise the release
/// fails, for want of that operation if for nothing before it, and the
/// world stays as it was: asset A is still in the vault.
pub proof fn law_release_needs_payment(
    world: World,
    accounts: Take,
    answer: Result<(), TransferFailure>,
    unit: ExecutionUnit,
)
    ensures
        world.after_take_from_escrow(accounts, answer, unit) is Ok <==> {
            &&& accounts.spec_take_from_escrow() is Ok
            &&& answer is Ok
            &&& payment_follows(accounts, unit)
        },
        !payment_follows(accounts, unit) ==> {
            &&& world.after_take_from_escrow(accounts, answer, unit) is Err
            &&& world.committed(world.after_take_from_escrow(accounts, answer, unit)) == world
            &&& world.committed(world.after_take_from_escrow(accounts, answer, unit)).balance(
                accounts.origin_ata.address,
            ) == world.balance(accounts.origin_ata.address)
        },
        !payment_follows(accounts, unit) && accounts.spec_take_from_escrow() is Ok && answer is Ok ==> {
            &&& world.after_take_from_escrow(accounts, answer, unit) matches Err(
                Failure::Introspection(error),
            )
            &&& error.spec_kind() == ErrorKind::AtomicityViolation
        },
{
}

/// Whether the operation that follows the current one in the unit is the
/// payment that the release of these accounts waits for.
pub open spec fn payment_follows(accounts: Take, unit: ExecutionUnit) -> bool {
    &&& accounts.escrow.record matches Some(record)
    &&& unit.following() matches Some(operation)
    &&& is_expected_operation(
        operation,
        spec_program_id(),
        TAKER_TO_MAKER_DISCRIMINATOR@,
        accounts.payment_destination(),
        record.mint_b_amount,
    )
}

/// A release followed at once by its payment completes the swap. The amount
/// paid is the amount in the record, and it goes into the maker's associated
/// holding of asset B. The vault gave what the token standard of asset A
/// moves of its balance, all of it for a fungible asset, and the taker's
/// holding received it. The record is gone.
///
/// The payment is the operation that follows the release in the unit: its
/// destination is the account at the destination's position there. The four
/// holdings are four accounts.
pub proof fn law_take_then_pay_completes(
    world: World,
    release: Take,
    released: Result<(), TransferFailure>,
    unit: ExecutionUnit,
    between: World,
    payment: Take,
    amount: u64,
    paid: Result<(), TransferFailure>,
    end: World,
)
    requires
        release.reads(world),
        release.spec_take_from_escrow() matches Ok(request) ==> world.admits(request, released),
        world.after_take_from_escrow(release, released, unit) == Ok::<World, Failure>(between),
        payment.reads(between),
        payment.maker == release.maker,
        payment.mint_a == release.mint_a,
        payment.mint_b == release.mint_b,
        unit.following() matches Some(operation) ==> DESTINATION_POSITION < operation.accounts.len()
            ==> operation.accounts[DESTINATION_POSITION as int] == payment.destination_ata,
        payment.spec_taker_to_maker(amount) matches Ok(request) ==> between.admits(request, paid),
        between.after_taker_to_maker(payment, amount, paid) == Ok::<World, Failure>(end),
        release.origin_ata.address != release.destination_ata,
        payment.origin_ata.address != payment.destination_ata,
        payment.origin_ata.address != release.origin_ata.address,
        payment.origin_ata.address != release.destination_ata,
        payment.destination_ata != release.origin_ata.address,
        payment.destination_ata != release.destination_ata,
    ensures
        release.escrow.record matches Some(record) && {
            let given = moved_amount(record.mint_a_type, release.origin_ata.amount);
            let owed = moved_amount(payment.token_standard, amount);
            &&& amount == record.mint_b_amount
            &&& Some(payment.destination_ata) == associated_token_address(release.maker, release.mint_b)
            &&& end.record_at(release.escrow.address) is None
            &&& end.balance(release.origin_ata.address) == world.balance(release.origin_ata.address)
                - given
            &&& end.balance(release.destination_ata) == world.balance(release.destination_ata) + given
            &&& end.balance(payment.origin_ata.address) == world.balance(payment.origin_ata.address)
                - owed
            &&& end.balance(payment.destination_ata) == world.balance(payment.destination_ata) + owed
            &&& record.mint_a_type == MintType::Fungible ==> end.balance(release.origin_ata.address)
                == 0
        },
{
}

/// What a request carries was found where it must live, and is what the
/// token standard calls for: the metadata record always; the edition record
/// for the two non-fungible standards; the token records of the asset in the
/// source and in the destination for the programmable one. A fungible
/// request moves the amount asked for, any other moves one unit.
pub proof fn law_requests_carry_derived_accounts(
    metadata_program: Address,
    standard: MintType,
    requested_amount: u64,
    participants: Participants,
    auxiliary: AuxiliaryAccounts,
    signer: Option<EscrowSigner>,
)
    ensures
        built_transfer(metadata_program, standard, requested_amount, participants, auxiliary, signer)
            matches Ok(request) ==> {
            &&& request.source == participants.source
            &&& request.destination == participants.destination
            &&& request.mint == participants.mint
            &&& request.signer == signer
            &&& metadata_address(metadata_program, request.mint) == Some(request.metadata)
            &&& request.amount == moved_amount(standard, requested_amount)
            &&& standard == MintType::Fungible ==> {
                &&& request.edition is None
                &&& request.source_token_record is None
                &&& request.destination_token_record is None
            }
            &&& standard != MintType::Fungible ==> {
                &&& request.edition is Some
                &&& request.edition == auxiliary.edition
                &&& request.edition == edition_address(metadata_program, request.mint)
            }
            &&& standard == MintType::NonFungible ==> {
                &&& request.source_token_record is None
                &&& request.destination_token_record is None
            }
            &&& standard == MintType::ProgrammableNonFungible ==> {
                &&& request.source_token_record is Some
                &&& request.source_token_record == auxiliary.source_token_record
                &&& request.source_token_record == token_record_address(
                    metadata_program,
                    request.mint,
                    request.source,
                )
                &&& request.destination_token_record is Some
                &&& request.destination_token_record == auxiliary.destination_token_record
                &&& request.destination_token_record == token_record_address(
                    metadata_program,
                    request.mint,
                    request.destination,
                )
            }
        },
{
}

/// The vault gives only on the escrow's own signature: a release and a
/// refund debit the escrow's associated holding of asset A, on the authority
/// of the escrow's derived address, signed with the seeds and the bump seed
/// that derive it. A deposit and a payment are signed by the party that
/// gives, never by the escrow.
pub proof fn law_escrow_signs_for_its_vault(
    make: Make,
    maker_amount: u64,
    release: Take,
    payment: Take,
    amount: u64,
    close: Close,
)
    ensures
        make.spec_make(maker_amount) matches Ok(request) ==> {
            &&& request.signer is None
            &&& request.authority == make.maker
            &&& request.source_owner == make.maker
            &&& escrow_address(make.maker, make.mint_a, make.mint_b) matches Some((escrow, _))
            &&& request.destination_owner == escrow
            &&& associated_token_address(escrow, make.mint_a) == Some(request.destination)
        },
        release.spec_take_from_escrow() matches Ok(request) ==> {
            &&& request.signer matches Some(signer)
            &&& signer.maker == release.maker
            &&& signer.mint_a == release.mint_a
            &&& signer.mint_b == release.mint_b
            &&& escrow_address(release.maker, release.mint_a, release.mint_b) == Some(
                (request.authority, signer.bump),
            )
            &&& request.source_owner == request.authority
            &&& associated_token_address(request.authority, release.mint_a) == Some(request.source)
        },
        payment.spec_taker_to_maker(amount) matches Ok(request) ==> {
            &&& request.signer is None
            &&& request.authority == payment.taker
            &&& request.source_owner == payment.taker
            &&& request.destination_owner == payment.maker
        },
        close.spec_close() matches Ok(request) ==> {
            &&& request.signer matches Some(signer)
            &&& signer.maker == close.maker
            &&& signer.mint_a == close.mint_a
            &&& signer.mint_b == close.mint_b
            &&& escrow_address(close.maker, close.mint_a, close.mint_b) == Some(
                (request.authority, signer.bump),
            )
            &&& request.source_owner == request.authority
            &&& associated_token_address(request.authority, close.mint_a) == Some(request.source)
            &&& request.destination_owner == close.maker
        },
{
}

/// A non-fungible deposit is one unit: for the two non-fungible standards a
/// make is accepted or refused whatever amount the maker names, and the
/// request of an accepted one moves exactly one unit.
pub proof fn law_non_fungible_deposit_is_one(accounts: Make, maker_amount: u64, other_amount: u64)
    requires
        accounts.token_standard != MintType::Fungible,
    ensures
        accounts.spec_make(maker_amount) == accounts.spec_make(other_amount),
        accounts.spec_make(maker_amount) matches Ok(request) ==> request.amount == 1,
{
}

/// A token record that is not the one derived for the asset and its holding
/// stops a programmable non-fungible transfer before there is a request. The
/// error is an address that does not match or an account that is missing;
/// it is the token record's mismatch where metadata and edition are in order
/// and both token records were supplied.
pub proof fn law_wrong_token_record_is_refused(
    metadata_program: Address,
    requested_amount: u64,
    participants: Participants,
    auxiliary: AuxiliaryAccounts,
    signer: Option<EscrowSigner>,
)
    requires
        ({
            let expected = expected_accounts(
                metadata_program,
                MintType::ProgrammableNonFungible,
                participants,
            );
            ||| auxiliary.source_token_record is Some && auxiliary.source_token_record
                != expected.source_token_record
            ||| auxiliary.destination_token_record is Some && auxiliary.destination_token_record
                != expected.destination_token_record
        }),
    ensures
        built_transfer(
            metadata_program,
            MintType::ProgrammableNonFungible,
            requested_amount,
            participants,
            auxiliary,
            signer,
        ) matches Err(error) && (error.spec_kind() == ErrorKind::AddressMismatch || error.spec_kind()
            == ErrorKind::MissingStandardAccount),
        ({
            let expected = expected_accounts(
                metadata_program,
                MintType::ProgrammableNonFungible,
                participants,
            );
            &&& expected.metadata == Some(participants.metadata)
            &&& auxiliary.edition is Some
            &&& auxiliary.edition == expected.edition
            &&& auxiliary.source_token_record is Some
            &&& auxiliary.destination_token_record is Some
        }) ==> built_transfer(
            metadata_program,
            MintType::ProgrammableNonFungible,
            requested_amount,
            participants,
            auxiliary,
            signer,
        ) == Err::<TransferRequest, EscrowError>(EscrowError::TokenRecordAccountDoesNotMatch),
{
}

/// A payment of another amount than the record asks for fails on the amount,
/// whatever else is wrong with it, and moves nothing.
pub proof fn law_wrong_amount_is_refused(
    world: World,
    accounts: Take,
    amount: u64,
    answer: Result<(), TransferFailure>,
)
    requires
        accounts.escrow.record matches Some(record) && amount != record.mint_b_amount,
    ensures
        accounts.spec_taker_to_maker(amount) == Err::<TransferRequest, EscrowError>(
            EscrowError::InvalidAmount,
        ),
        EscrowError::InvalidAmount.spec_kind() == ErrorKind::AmountMismatch,
        world.after_taker_to_maker(accounts, amount, answer) == Err::<World, Failure>(
            Failure::Escrow(EscrowError::InvalidAmount),
        ),
        world.committed(world.after_taker_to_maker(accounts, amount, answer)) == world,
{
}

} // verus!
