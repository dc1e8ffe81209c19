//! The escrow record: what an escrow remembers between its operations.

use vstd::prelude::*;
use vstd::bytes::{
    lemma_auto_spec_u64_to_from_le_bytes, spec_u64_from_le_bytes, spec_u64_to_le_bytes,
    u64_from_le_bytes, u64_to_le_bytes,
};
use vstd::slice::slice_subrange;
use crate::address::Address;
use crate::bytes::{address_at, append, has_bytes_at};

verus! {

/// The token standards that a metadata record can state.
#[derive(Clone, Copy, Debug, PartialEq, Eq, Structural)]
pub enum TokenStandard {
    NonFungible,
    FungibleAsset,
    Fungible,
    NonFungibleEdition,
    ProgrammableNonFungible,
    ProgrammableNonFungibleEdition,
}

/// The token standard of an asset, which decides the shape of its transfers.
#[derive(Clone, Copy, Debug, PartialEq, Eq, Structural)]
pub enum MintType {
    /// A divisible balance.
    Fungible,
    /// One whole unit with an edition record.
    NonFungible,
    /// One whole unit whose transfers a rule set gates through token records.
    ProgrammableNonFungible,
}

/// The record of one live escrow.
///
/// It lives at the address derived from `maker`, `mint_a` and `mint_b`, so
/// there is at most one live escrow for each such triple.
#[derive(Clone, Copy, Debug, PartialEq, Eq)]
pub struct Escrow {
    /// The party that deposited asset A.
    pub maker: Address,
    /// The mint of asset A.
    pub mint_a: Address,
    /// The token standard of asset A when the escrow was made.
    pub mint_a_type: MintType,
    /// The mint of asset B.
    pub mint_b: Address,
    /// How much of asset B the maker is owed.
    pub mint_b_amount: u64,
}

/// The account at the location of an escrow record.
#[derive(Clone, Copy, Debug, PartialEq, Eq)]
pub struct EscrowAccount {
    /// Where the account lives.
    pub address: Address,
    /// The record that lives there; `None` while the location is vacant.
    pub record: Option<Escrow>,
}

/// A holding of one asset.
#[derive(Clone, Copy, Debug, PartialEq, Eq)]
pub struct Holding {
    /// Where the holding lives.
    pub address: Address,
    /// How many units it holds.
    pub amount: u64,
}

/// The tag with which a stored record begins.
pub const ESCROW_DISCRIMINATOR: [u8; 8] = [31, 213, 123, 187, 186, 22, 218, 155];

impl MintType {
    pub open spec fn spec_of(standard: TokenStandard) -> MintType {
        match standard {
            TokenStandard::NonFungible => MintType::NonFungible,
            TokenStandard::ProgrammableNonFungible => MintType::ProgrammableNonFungible,
            TokenStandard::Fungible => MintType::Fungible,
            TokenStandard::FungibleAsset => MintType::Fungible,
            TokenStandard::NonFungibleEdition => MintType::Fungible,
            TokenStandard::ProgrammableNonFungibleEdition => MintType::Fungible,
        }
    }

    /// How an asset of a token standard moves. The escrow tells the
    /// non-fungible and the programmable non-fungible standard apart from the
    /// rest; an asset of any other standard moves like a fungible balance.
    #[verifier::when_used_as_spec(spec_of)]
    pub fn of(standard: TokenStandard) -> (shape: MintType)
        ensures
            shape == Self::spec_of(standard),
            shape == MintType::NonFungible <==> standard == TokenStandard::NonFungible,
            shape == MintType::ProgrammableNonFungible <==> standard
                == TokenStandard::ProgrammableNonFungible,
    {
        match standard {
            TokenStandard::NonFungible => MintType::NonFungible,
            TokenStandard::ProgrammableNonFungible => MintType::ProgrammableNonFungible,
            _ => MintType::Fungible,
        }
    }

    pub open spec fn spec_tag(self) -> u8 {
        match self {
            MintType::Fungible => 0,
            MintType::NonFungible => 1,
            MintType::ProgrammableNonFungible => 2,
        }
    }

    /// The byte that stands for the standard in a stored record.
    #[verifier::when_used_as_spec(spec_tag)]
    pub fn tag(self) -> (t: u8)
        ensures
            t == self.spec_tag(),
    {
        match self {
            MintType::Fungible => 0,
            MintType::NonFungible => 1,
            MintType::ProgrammableNonFungible => 2,
        }
    }

    pub open spec fn spec_from_tag(tag: u8) -> Option<MintType> {
        if tag == 0 {
            Some(MintType::Fungible)
        } else if tag == 1 {
            Some(MintType::NonFungible)
        } else if tag == 2 {
            Some(MintType::ProgrammableNonFungible)
        } else {
            None
        }
    }

    /// The standard that a byte of a stored record stands for, if any.
    #[verifier::when_used_as_spec(spec_from_tag)]
    pub fn from_tag(tag: u8) -> (standard: Option<MintType>)
        ensures
            standard == Self::spec_from_tag(tag),
    {
        if tag == 0 {
            Some(MintType::Fungible)
        } else if tag == 1 {
            Some(MintType::NonFungible)
        } else if tag == 2 {
            Some(MintType::ProgrammableNonFungible)
        } else {
            None
        }
    }
}

impl Escrow {
    pub open spec fn spec_space() -> usize {
        113
    }

    /// The stored form of the record: the tag of the record type, the maker,
    /// the mint of asset A, the byte of its token standard, the mint of
    /// asset B, and the amount owed in eight bytes, lowest first.
    pub open spec fn spec_to_bytes(self) -> Seq<u8> {
        ESCROW_DISCRIMINATOR@ + self.maker@ + self.mint_a@ + seq![self.mint_a_type.spec_tag()]
            + self.mint_b@ + spec_u64_to_le_bytes(self.mint_b_amount)
    }

    /// The record whose stored form the bytes are, if they are one.
    pub open spec fn spec_from_bytes(bytes: Seq<u8>) -> Option<Escrow> {
        if exists|record: Escrow| #[trigger] record.spec_to_bytes() == bytes {
            Some(choose|record: Escrow| #[trigger] record.spec_to_bytes() == bytes)
        } else {
            None
        }
    }

    /// Where each field lies in the stored form.
    pub proof fn lemma_layout(self)
        ensures
            self.spec_to_bytes().len() == Self::spec_space(),
            self.spec_to_bytes().subrange(0, 8) == ESCROW_DISCRIMINATOR@,
            self.spec_to_bytes().subrange(8, 40) == self.maker@,
            self.spec_to_bytes().subrange(40, 72) == self.mint_a@,
            self.spec_to_bytes()[72] == self.mint_a_type.spec_tag(),
            self.spec_to_bytes().subrange(73, 105) == self.mint_b@,
            self.spec_to_bytes().subrange(105, 113) == spec_u64_to_le_bytes(self.mint_b_amount),
    {
        lemma_auto_spec_u64_to_from_le_bytes();
    }

    /// Two records with the same stored form are the same record.
    pub proof fn lemma_stored_form_is_injective(self, other: Escrow)
        requires
            self.spec_to_bytes() == other.spec_to_bytes(),
        ensures
            self == other,
    {
        self.lemma_layout();
        other.lemma_layout();
        lemma_auto_spec_u64_to_from_le_bytes();
        assert(self.maker.bytes =~= other.maker.bytes);
        assert(self.mint_a.bytes =~= other.mint_a.bytes);
        assert(self.mint_b.bytes =~= other.mint_b.bytes);
        assert(spec_u64_from_le_bytes(spec_u64_to_le_bytes(self.mint_b_amount))
            == spec_u64_from_le_bytes(spec_u64_to_le_bytes(other.mint_b_amount)));
    }

    /// The bytes that a stored record takes: the tag of the record type, three
    /// addresses, the byte of the token standard and the amount.
    #[verifier::when_used_as_spec(spec_space)]
    pub fn space() -> (n: usize)
        ensures
            n == Self::spec_space(),
            n == 8 + 32 + 32 + 1 + 32 + 8,
    {
        8 + 32 + 32 + 1 + 32 + 8
    }

    /// A record is read back from its stored form as it was written.
    pub proof fn lemma_round_trip(self)
        ensures
            Self::spec_from_bytes(self.spec_to_bytes()) == Some(self),
    {
        let read = choose|record: Escrow| #[trigger] record.spec_to_bytes() == self.spec_to_bytes();
        read.lemma_stored_form_is_injective(self);
    }

    /// Writes the record in its stored form.
    pub fn to_bytes(&self) -> (bytes: Vec<u8>)
        ensures
            bytes@ == self.spec_to_bytes(),
            bytes@.len() == Self::spec_space(),
    {
        let mut bytes: Vec<u8> = Vec::new();
        append(&mut bytes, ESCROW_DISCRIMINATOR.as_slice());
        append(&mut bytes, self.maker.bytes.as_slice());
        append(&mut bytes, self.mint_a.bytes.as_slice());
        bytes.push(self.mint_a_type.tag());
        append(&mut bytes, self.mint_b.bytes.as_slice());
        let amount = u64_to_le_bytes(self.mint_b_amount);
        append(&mut bytes, amount.as_slice());
        proof {
            self.lemma_layout();
        }
        bytes
    }

    /// Reads a record from its stored form.
    ///
    /// It gives the record whose stored form the bytes are, and `None` where
    /// they are the stored form of no record: where their number is not that
    /// of a stored record, they do not begin with the tag of the record
    /// type, or the byte of the token standard stands for none.
    pub fn from_bytes(bytes: &[u8]) -> (r: Option<Escrow>)
        ensures
            r == Self::spec_from_bytes(bytes@),
            match r {
                Some(record) => record.spec_to_bytes() == bytes@,
                None => forall|record: Escrow| record.spec_to_bytes() != bytes@,
            },
    {
        if bytes.len() != 113 {
            assert forall|record: Escrow| record.spec_to_bytes() != bytes@ by {
                record.lemma_layout();
            }
            return None;
        }
        if !has_bytes_at(bytes, 0, ESCROW_DISCRIMINATOR.as_slice()) {
            assert forall|record: Escrow| record.spec_to_bytes() != bytes@ by {
                record.lemma_layout();
            }
            return None;
        }
        let mint_a_type = match MintType::from_tag(bytes[72]) {
            Some(standard) => standard,
            None => {
                assert forall|record: Escrow| record.spec_to_bytes() != bytes@ by {
                    record.lemma_layout();
                }
                return None;
            },
        };
        let record = Escrow {
            maker: address_at(bytes, 8),
            mint_a: address_at(bytes, 40),
            mint_a_type,
            mint_b: address_at(bytes, 73),
            mint_b_amount: u64_from_le_bytes(slice_subrange(bytes, 105, 113)),
        };
        proof {
            lemma_auto_spec_u64_to_from_le_bytes();
            record.lemma_layout();
            assert(record.spec_to_bytes() =~= bytes@);
            record.lemma_round_trip();
        }
        Some(record)
    }
}

} // verus!
