//! Reading and writing strings of bytes.

use vstd::prelude::*;
use crate::address::Address;

verus! {

/// Whether the data holds the expected bytes from the offset on.
pub open spec fn holds_at(data: Seq<u8>, offset: int, expected: Seq<u8>) -> bool {
    &&& offset + expected.len() <= data.len()
    &&& data.subrange(offset, offset + expected.len()) == expected
}

/// Whether the data holds the expected bytes from the offset on.
pub fn has_bytes_at(data: &[u8], offset: usize, expected: &[u8]) -> (found: bool)
    ensures
        found == holds_at(data@, offset as int, expected@),
{
    if expected.len() > data.len() || offset > data.len() - expected.len() {
        return false;
    }
    let mut i: usize = 0;
    while i < expected.len()
        invariant
            i <= expected@.len(),
            offset + expected@.len() <= data@.len() <= usize::MAX,
            forall|j: int| 0 <= j < i ==> data@[offset + j] == expected@[j],
        decreases expected@.len() - i,
    {
        if data[offset + i] != expected[i] {
            return false;
        }
        i = i + 1;
    }
    assert(data@.subrange(offset as int, offset + expected@.len()) =~= expected@);
    true
}

/// Writes the bytes at the end of the buffer.
pub(crate) fn append(buffer: &mut Vec<u8>, bytes: &[u8])
    ensures
        final(buffer)@ == old(buffer)@ + bytes@,
{
    let mut i: usize = 0;
    while i < bytes.len()
        invariant
            i <= bytes@.len(),
            buffer@ == old(buffer)@ + bytes@.subrange(0, i as int),
        decreases bytes@.len() - i,
    {
        buffer.push(bytes[i]);
        i = i + 1;
    }
}

/// The address whose bytes the data holds from the offset on.
pub(crate) fn address_at(data: &[u8], offset: usize) -> (address: Address)
    requires
        offset + 32 <= data@.len(),
    ensures
        address@ == data@.subrange(offset as int, offset + 32),
{
    let length: usize = data.len();
    let mut bytes: [u8; 32] = [0u8; 32];
    let mut i: usize = 0;
    while i < 32
        invariant
            i <= 32,
            offset + 32 <= length == data@.len(),
            forall|j: int| 0 <= j < i ==> bytes@[j] == data@[offset + j],
        decreases 32 - i,
    {
        bytes[i] = data[offset + i];
        i = i + 1;
    }
    Address { bytes }
}

} // verus!
