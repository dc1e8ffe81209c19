//! The atomicity verifier: a look at the operation that follows the current
//! one in the same execution unit.
//!
//! A release from the vault is safe only if the payment to the maker is the
//! very next operation of the unit, for then the two are applied together or
//! not at all.

use vstd::prelude::*;
use vstd::bytes::{spec_u16_from_le_bytes, spec_u64_to_le_bytes, u16_from_le_bytes, u64_to_le_bytes};
use vstd::slice::slice_subrange;
use crate::address::Address;
use crate::bytes::{has_bytes_at, holds_at};
use crate::errors::IntrospectionError;

verus! {

/// The tag with which the data of a payment to the maker begins.
pub const TAKER_TO_MAKER_DISCRIMINATOR: [u8; 8] = [201, 73, 141, 20, 21, 193, 228, 119];

/// Bytes of the tag that names the kind of an operation.
pub const DISCRIMINATOR_LEN: usize = 8;

/// The position, among the accounts of a payment, of the holding that is paid.
pub const DESTINATION_POSITION: usize = 9;

/// One operation of an execution unit.
#[derive(Clone, Debug, PartialEq, Eq)]
pub struct Instruction {
    /// The program that the operation is addressed to.
    pub program_id: Address,
    /// The accounts that the operation names, in order.
    pub accounts: Vec<Address>,
    /// The tag of the operation's kind, then its arguments.
    pub data: Vec<u8>,
}

/// An operation as specifications see it.
pub struct InstructionView {
    pub program_id: Address,
    pub accounts: Seq<Address>,
    pub data: Seq<u8>,
}

impl View for Instruction {
    type V = InstructionView;

    open spec fn view(&self) -> InstructionView {
        InstructionView { program_id: self.program_id, accounts: self.accounts@, data: self.data@ }
    }
}

/// The operations of one indivisible execution unit, in the order in which
/// they run, and the position of the one that is running.
#[derive(Clone, Debug, PartialEq, Eq)]
pub struct ExecutionUnit {
    pub instructions: Vec<Instruction>,
    pub current: u16,
}

impl ExecutionUnit {
    /// The operation that runs right after the current one, if there is one.
    pub open spec fn following(&self) -> Option<InstructionView> {
        if self.current + 1 < self.instructions@.len() {
            Some(self.instructions@[self.current + 1]@)
        } else {
            None
        }
    }

    /// The operation that runs right after the current one, if there is one.
    pub fn next_instruction(&self) -> (next: Option<&Instruction>)
        ensures
            match next {
                Some(instruction) => self.following() == Some(instruction@),
                None => self.following() is None,
            },
    {
        let position: usize = self.current as usize + 1;
        if position < self.instructions.len() {
            Some(&self.instructions[position])
        } else {
            None
        }
    }
}

/// An operation that was or was not found, as specifications see it.
pub open spec fn found_view(found: Option<Instruction>) -> Option<InstructionView> {
    match found {
        Some(instruction) => Some(instruction@),
        None => None,
    }
}

/// The operation at a position of the unit that the data of the instructions
/// account describes; `None` where the data holds no operation there.
pub uninterp spec fn stored_instruction(data: Seq<u8>, index: usize) -> Option<InstructionView>;

/// `load_instruction_at` of `solana_program::sysvar::instructions`: the
/// operation that the data of the instructions account holds at a position,
/// with the address of each of its accounts, or nothing where the position
/// is past the last operation or the data breaks off. The contract only
/// names what is read; it depends on the data and on the position alone.
#[allow(deprecated)]
#[verifier::external_body]
fn load_instruction_at(index: usize, data: &[u8]) -> (found: Option<Instruction>)
    ensures
        found_view(found) == stored_instruction(data@, index),
{
    solana_program::sysvar::instructions::load_instruction_at(index, data).ok().map(
        |loaded| Instruction {
            program_id: Address { bytes: loaded.program_id.to_bytes() },
            accounts: loaded.accounts.iter().map(
                |meta| Address { bytes: meta.pubkey.to_bytes() },
            ).collect(),
            data: loaded.data,
        },
    )
}

/// How many operations the data of the instructions account announces: its
/// first two bytes, lowest first.
pub open spec fn stored_count(data: Seq<u8>) -> u16
    recommends
        data.len() >= 2,
{
    spec_u16_from_le_bytes(data.subrange(0, 2))
}

/// The position of the running operation in the data of the instructions
/// account: its last two bytes, lowest first.
pub open spec fn stored_current(data: Seq<u8>) -> u16
    recommends
        data.len() >= 2,
{
    spec_u16_from_le_bytes(data.subrange(data.len() - 2, data.len() as int))
}

/// Whether the data of the instructions account holds every operation that
/// it announces.
pub open spec fn is_readable(data: Seq<u8>) -> bool {
    &&& data.len() >= 2
    &&& forall|i: int|
        0 <= i < stored_count(data) ==> (#[trigger] stored_instruction(data, i as usize)) is Some
}

/// Whether the unit is the one that the data of the instructions account
/// describes: the same operations in the same order, and the same position
/// of the running one.
pub open spec fn describes(data: Seq<u8>, unit: ExecutionUnit) -> bool {
    &&& data.len() >= 2
    &&& unit.current == stored_current(data)
    &&& unit.instructions@.len() == stored_count(data)
    &&& forall|i: int|
        0 <= i < unit.instructions@.len() ==> stored_instruction(data, i as usize) == Some(
            #[trigger] unit.instructions@[i]@,
        )
}

/// Reads the execution unit from the data of the instructions account.
///
/// It gives the unit that the data describes, and `None` where the data is
/// shorter than two bytes or does not hold every operation that it
/// announces.
pub fn read_execution_unit(data: &[u8]) -> (r: Option<ExecutionUnit>)
    ensures
        r is Some <==> is_readable(data@),
        r matches Some(unit) ==> describes(data@, unit),
{
    let length: usize = data.len();
    if length < 2 {
        return None;
    }
    let count: u16 = u16_from_le_bytes(slice_subrange(data, 0, 2));
    let current: u16 = u16_from_le_bytes(slice_subrange(data, length - 2, length));
    let mut instructions: Vec<Instruction> = Vec::new();
    let mut index: usize = 0;
    while index < count as usize
        invariant
            index <= count,
            data@.len() >= 2,
            count == stored_count(data@),
            instructions@.len() == index,
            forall|i: int|
                0 <= i < index ==> stored_instruction(data@, i as usize) == Some(
                    #[trigger] instructions@[i]@,
                ),
        decreases count - index,
    {
        match load_instruction_at(index, data) {
            Some(instruction) => {
                instructions.push(instruction);
            },
            None => {
                assert(stored_instruction(data@, index as int as usize) is None);
                return None;
            },
        }
        index = index + 1;
    }
    let unit = ExecutionUnit { instructions, current };
    proof {
        lemma_described_is_readable(data@, unit);
    }
    Some(unit)
}

/// Data that describes a unit holds every operation that it announces.
pub proof fn lemma_described_is_readable(data: Seq<u8>, unit: ExecutionUnit)
    requires
        describes(data, unit),
    ensures
        is_readable(data),
{
    assert forall|i: int| 0 <= i < stored_count(data) implies (#[trigger] stored_instruction(
        data,
        i as usize,
    )) is Some by {
        assert(stored_instruction(data, i as usize) == Some(unit.instructions@[i]@));
    }
}

/// Data describes one unit at most, as far as specifications see it: two
/// units that it describes have the same operations and the same position.
pub proof fn lemma_described_unit_is_unique(data: Seq<u8>, unit: ExecutionUnit, other: ExecutionUnit)
    requires
        describes(data, unit),
        describes(data, other),
    ensures
        unit.current == other.current,
        unit.instructions@.len() == other.instructions@.len(),
        forall|i: int|
            0 <= i < unit.instructions@.len() ==> (#[trigger] unit.instructions@[i])@
                == other.instructions@[i]@,
        unit.following() == other.following(),
{
}

/// Whether the operation is the payment that is waited for: addressed to the
/// program, of the kind that the tag names, paying the amount into the
/// destination.
pub open spec fn is_expected_operation(
    operation: InstructionView,
    program: Address,
    discriminator: Seq<u8>,
    destination: Option<Address>,
    amount: u64,
) -> bool {
    operation_fault(operation, program, discriminator, destination, amount) is None
}

/// The first of the four checks that the operation fails: its program, its
/// tag, the account at the destination's position, its amount.
pub open spec fn operation_fault(
    operation: InstructionView,
    program: Address,
    discriminator: Seq<u8>,
    destination: Option<Address>,
    amount: u64,
) -> Option<IntrospectionError> {
    if operation.program_id != program {
        Some(IntrospectionError::InvalidProgram)
    } else if !holds_at(operation.data, 0, discriminator) {
        Some(IntrospectionError::InvalidDiscriminator)
    } else if !(DESTINATION_POSITION < operation.accounts.len() && destination == Some(
        operation.accounts[DESTINATION_POSITION as int],
    )) {
        Some(IntrospectionError::InvalidMakerATA)
    } else if !holds_at(operation.data, discriminator.len() as int, spec_u64_to_le_bytes(amount)) {
        Some(IntrospectionError::InvalidAmount)
    } else {
        None
    }
}

/// What is wrong with the operation that follows the current one: that there
/// is none, or the first check that it fails.
pub open spec fn following_operation_fault(
    unit: ExecutionUnit,
    program: Address,
    discriminator: Seq<u8>,
    destination: Option<Address>,
    amount: u64,
) -> Option<IntrospectionError> {
    match unit.following() {
        None => Some(IntrospectionError::MissingInstruction),
        Some(operation) => operation_fault(operation, program, discriminator, destination, amount),
    }
}

/// Checks one operation against the payment that is waited for.
///
/// The destination is the address that the derivation gave for the maker's
/// holding; where it gave none, no account is the destination.
pub fn check_operation(
    operation: &Instruction,
    expected_program: &Address,
    expected_discriminator: &[u8; 8],
    expected_destination: &Option<Address>,
    expected_amount: u64,
) -> (r: Result<(), IntrospectionError>)
    ensures
        r == (match operation_fault(
            operation@,
            *expected_program,
            expected_discriminator@,
            *expected_destination,
            expected_amount,
        ) {
            Some(error) => Err::<(), IntrospectionError>(error),
            None => Ok(()),
        }),
{
    if operation.program_id != *expected_program {
        return Err(IntrospectionError::InvalidProgram);
    }
    if !has_bytes_at(operation.data.as_slice(), 0, expected_discriminator.as_slice()) {
        return Err(IntrospectionError::InvalidDiscriminator);
    }
    let at_destination = if DESTINATION_POSITION < operation.accounts.len() {
        match expected_destination {
            Some(destination) => operation.accounts[DESTINATION_POSITION] == *destination,
            None => false,
        }
    } else {
        false
    };
    if !at_destination {
        return Err(IntrospectionError::InvalidMakerATA);
    }
    let amount_bytes = u64_to_le_bytes(expected_amount);
    if !has_bytes_at(operation.data.as_slice(), DISCRIMINATOR_LEN, amount_bytes.as_slice()) {
        return Err(IntrospectionError::InvalidAmount);
    }
    Ok(())
}

/// Checks that the operation right after the current one is the payment that
/// is waited for.
///
/// It succeeds if and only if there is a next operation, it is addressed to
/// the expected program, its data begins with the expected tag, the account
/// at the destination's position is the expected destination, and the eight
/// bytes after the tag are the expected amount, lowest byte first.
pub fn verify_following_operation(
    unit: &ExecutionUnit,
    expected_program: &Address,
    expected_discriminator: &[u8; 8],
    expected_destination: &Option<Address>,
    expected_amount: u64,
) -> (r: Result<(), IntrospectionError>)
    ensures
        r == (match following_operation_fault(
            *unit,
            *expected_program,
            expected_discriminator@,
            *expected_destination,
            expected_amount,
        ) {
            Some(error) => Err::<(), IntrospectionError>(error),
            None => Ok(()),
        }),
{
    match unit.next_instruction() {
        None => Err(IntrospectionError::MissingInstruction),
        Some(operation) => check_operation(
            operation,
            expected_program,
            expected_discriminator,
            expected_destination,
            expected_amount,
        ),
    }
}

} // verus!
