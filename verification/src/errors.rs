//! What can go wrong in an escrow operation.

use vstd::prelude::*;

verus! {

/// The classes into which every failure of an operation falls.
#[derive(Clone, Copy, Debug, PartialEq, Eq, Structural)]
pub enum ErrorKind {
    /// An account is not at the address that its derivation gives.
    AddressMismatch,
    /// An account that the asset's token standard needs was not supplied.
    MissingStandardAccount,
    /// The amount paid is not the amount that the escrow record asks for.
    AmountMismatch,
    /// The operation that must follow is absent or is not the right one.
    AtomicityViolation,
    /// The asset transfer service turned the request down.
    TransferServiceFailure,
    /// An escrow record already lives at the derived location.
    LocationOccupied,
    /// No escrow record lives at the location.
    NotActive,
    /// The party that alone may start the operation did not sign it.
    Unauthorized,
}

/// A check of an escrow operation that failed.
#[derive(Clone, Copy, Debug, PartialEq, Eq, Structural)]
pub enum EscrowError {
    MetadataAccountDoesNotMatch,
    MasterEditionAccountDoesNotMatch,
    TokenRecordAccountDoesNotMatch,
    InvalidAmount,
    VaultAccountDoesNotMatch,
    EscrowAccountDoesNotMatch,
    MasterEditionAccountMissing,
    TokenRecordAccountMissing,
    EscrowAlreadyInUse,
    EscrowNotInitialized,
    MakerSignatureMissing,
}

/// A check of the operation that follows a release from the vault that failed.
#[derive(Clone, Copy, Debug, PartialEq, Eq, Structural)]
pub enum IntrospectionError {
    InvalidDiscriminator,
    InvalidAmount,
    InvalidProgram,
    InvalidMakerATA,
    MissingInstruction,
}

/// The failure that the asset transfer service reported, kept as it came.
#[derive(Clone, Copy, Debug, PartialEq, Eq, Structural)]
pub struct TransferFailure {
    pub code: u64,
}

/// Why an operation was aborted.
#[derive(Clone, Copy, Debug, PartialEq, Eq, Structural)]
pub enum Failure {
    Escrow(EscrowError),
    Introspection(IntrospectionError),
    Transfer(TransferFailure),
}

impl EscrowError {
    pub open spec fn spec_kind(self) -> ErrorKind {
        match self {
            EscrowError::MetadataAccountDoesNotMatch => ErrorKind::AddressMismatch,
            EscrowError::MasterEditionAccountDoesNotMatch => ErrorKind::AddressMismatch,
            EscrowError::TokenRecordAccountDoesNotMatch => ErrorKind::AddressMismatch,
            EscrowError::VaultAccountDoesNotMatch => ErrorKind::AddressMismatch,
            EscrowError::EscrowAccountDoesNotMatch => ErrorKind::AddressMismatch,
            EscrowError::MasterEditionAccountMissing => ErrorKind::MissingStandardAccount,
            EscrowError::TokenRecordAccountMissing => ErrorKind::MissingStandardAccount,
            EscrowError::InvalidAmount => ErrorKind::AmountMismatch,
            EscrowError::EscrowAlreadyInUse => ErrorKind::LocationOccupied,
            EscrowError::EscrowNotInitialized => ErrorKind::NotActive,
            EscrowError::MakerSignatureMissing => ErrorKind::Unauthorized,
        }
    }

    /// The class of this error.
    #[verifier::when_used_as_spec(spec_kind)]
    pub fn kind(self) -> (k: ErrorKind)
        ensures
            k == self.spec_kind(),
    {
        match self {
            EscrowError::MetadataAccountDoesNotMatch => ErrorKind::AddressMismatch,
            EscrowError::MasterEditionAccountDoesNotMatch => ErrorKind::AddressMismatch,
            EscrowError::TokenRecordAccountDoesNotMatch => ErrorKind::AddressMismatch,
            EscrowError::VaultAccountDoesNotMatch => ErrorKind::AddressMismatch,
            EscrowError::EscrowAccountDoesNotMatch => ErrorKind::AddressMismatch,
            EscrowError::MasterEditionAccountMissing => ErrorKind::MissingStandardAccount,
            EscrowError::TokenRecordAccountMissing => ErrorKind::MissingStandardAccount,
            EscrowError::InvalidAmount => ErrorKind::AmountMismatch,
            EscrowError::EscrowAlreadyInUse => ErrorKind::LocationOccupied,
            EscrowError::EscrowNotInitialized => ErrorKind::NotActive,
            EscrowError::MakerSignatureMissing => ErrorKind::Unauthorized,
        }
    }

    /// The message shown to the caller.
    pub fn message(self) -> (m: &'static str)
        ensures
            m@ == self.spec_message(),
    {
        match self {
            EscrowError::MetadataAccountDoesNotMatch => "The Metadata Account doesn't match.",
            EscrowError::MasterEditionAccountDoesNotMatch => "The Master Edition Account doesn't match.",
            EscrowError::TokenRecordAccountDoesNotMatch => "The Token Record Account doesn't match.",
            EscrowError::InvalidAmount => "The Amount of Token sent to the Maker doesn't match.",
            EscrowError::VaultAccountDoesNotMatch => "The Vault Account doesn't match.",
            EscrowError::EscrowAccountDoesNotMatch => "The Escrow Account doesn't match.",
            EscrowError::MasterEditionAccountMissing => "The Master Edition Account is missing.",
            EscrowError::TokenRecordAccountMissing => "The Token Record Account is missing.",
            EscrowError::EscrowAlreadyInUse => "The Escrow Account is already in use.",
            EscrowError::EscrowNotInitialized => "The Escrow Account is not initialized.",
            EscrowError::MakerSignatureMissing => "The Maker did not sign.",
        }
    }

    pub open spec fn spec_message(self) -> Seq<char> {
        match self {
            EscrowError::MetadataAccountDoesNotMatch => "The Metadata Account doesn't match."@,
            EscrowError::MasterEditionAccountDoesNotMatch => "The Master Edition Account doesn't match."@,
            EscrowError::TokenRecordAccountDoesNotMatch => "The Token Record Account doesn't match."@,
            EscrowError::InvalidAmount => "The Amount of Token sent to the Maker doesn't match."@,
            EscrowError::VaultAccountDoesNotMatch => "The Vault Account doesn't match."@,
            EscrowError::EscrowAccountDoesNotMatch => "The Escrow Account doesn't match."@,
            EscrowError::MasterEditionAccountMissing => "The Master Edition Account is missing."@,
            EscrowError::TokenRecordAccountMissing => "The Token Record Account is missing."@,
            EscrowError::EscrowAlreadyInUse => "The Escrow Account is already in use."@,
            EscrowError::EscrowNotInitialized => "The Escrow Account is not initialized."@,
            EscrowError::MakerSignatureMissing => "The Maker did not sign."@,
        }
    }
}

impl IntrospectionError {
    pub open spec fn spec_kind(self) -> ErrorKind {
        ErrorKind::AtomicityViolation
    }

    /// The class of this error: every one is a violation of atomicity.
    #[verifier::when_used_as_spec(spec_kind)]
    pub fn kind(self) -> (k: ErrorKind)
        ensures
            k == self.spec_kind(),
    {
        ErrorKind::AtomicityViolation
    }

    pub open spec fn spec_message(self) -> Seq<char> {
        match self {
            IntrospectionError::InvalidDiscriminator => "Invalid discriminator"@,
            IntrospectionError::InvalidAmount => "Invalid amount"@,
            IntrospectionError::InvalidProgram => "Invalid program"@,
            IntrospectionError::InvalidMakerATA => "Invalid Maker ATA"@,
            IntrospectionError::MissingInstruction => "Missing instruction"@,
        }
    }

    /// The message shown to the caller.
    pub fn message(self) -> (m: &'static str)
        ensures
            m@ == self.spec_message(),
    {
        match self {
            IntrospectionError::InvalidDiscriminator => "Invalid discriminator",
            IntrospectionError::InvalidAmount => "Invalid amount",
            IntrospectionError::InvalidProgram => "Invalid program",
            IntrospectionError::InvalidMakerATA => "Invalid Maker ATA",
            IntrospectionError::MissingInstruction => "Missing instruction",
        }
    }
}

impl Failure {
    pub open spec fn spec_kind(self) -> ErrorKind {
        match self {
            Failure::Escrow(e) => e.spec_kind(),
            Failure::Introspection(e) => e.spec_kind(),
            Failure::Transfer(_) => ErrorKind::TransferServiceFailure,
        }
    }

    /// The class of this failure.
    #[verifier::when_used_as_spec(spec_kind)]
    pub fn kind(self) -> (k: ErrorKind)
        ensures
            k == self.spec_kind(),
    {
        match self {
            Failure::Escrow(e) => e.kind(),
            Failure::Introspection(e) => e.kind(),
            Failure::Transfer(_) => ErrorKind::TransferServiceFailure,
        }
    }
}

} // verus!
