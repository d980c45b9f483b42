use vstd::prelude::*;

use crate::address::Address;

verus! {

/// The number that eight bytes stand for, least significant byte first.
pub open spec fn le_u64(bytes: Seq<u8>) -> int
    recommends
        bytes.len() == 8,
{
    bytes[0] as int + bytes[1] as int * 0x100 + bytes[2] as int * 0x1_0000 + bytes[3] as int
        * 0x100_0000 + bytes[4] as int * 0x1_0000_0000 + bytes[5] as int * 0x100_0000_0000
        + bytes[6] as int * 0x1_0000_0000_0000 + bytes[7] as int * 0x100_0000_0000_0000
}

/// The number held in the eight bytes of `data` that start at `offset`.
pub open spec fn u64_at(data: Seq<u8>, offset: int) -> int
    recommends
        0 <= offset,
        offset + 8 <= data.len(),
{
    le_u64(data.subrange(offset, offset + 8))
}

/// The address held in the thirty-two bytes of `data` that start at `offset`.
pub open spec fn address_at(data: Seq<u8>, offset: int) -> Address
    recommends
        0 <= offset,
        offset + 32 <= data.len(),
{
    Address::from_seq(data.subrange(offset, offset + 32))
}

/// Reads a little-endian `u64` out of `data`.
pub fn read_u64(data: &[u8], offset: usize) -> (value: u64)
    requires
        offset + 8 <= data@.len(),
    ensures
        value == u64_at(data@, offset as int),
{
    let b0: u64 = data[offset] as u64;
    let b1: u64 = data[offset + 1] as u64;
    let b2: u64 = data[offset + 2] as u64;
    let b3: u64 = data[offset + 3] as u64;
    let b4: u64 = data[offset + 4] as u64;
    let b5: u64 = data[offset + 5] as u64;
    let b6: u64 = data[offset + 6] as u64;
    let b7: u64 = data[offset + 7] as u64;
    b0 + b1 * 0x100 + b2 * 0x1_0000 + b3 * 0x100_0000 + b4 * 0x1_0000_0000 + b5 * 0x100_0000_0000
        + b6 * 0x1_0000_0000_0000 + b7 * 0x100_0000_0000_0000
}

/// Reads an address out of `data`.
pub fn read_address(data: &[u8], offset: usize) -> (address: Address)
    requires
        offset + 32 <= data@.len(),
    ensures
        address == address_at(data@, offset as int),
{
    let len: usize = data.len();
    let mut bytes: [u8; 32] = [0u8; 32];
    let mut i: usize = 0;
    while i < 32
        invariant
            i <= 32,
            offset + 32 <= len == data@.len(),
            forall|j: int| 0 <= j < i ==> bytes[j] == data@[offset + j],
        decreases 32 - i,
    {
        bytes[i] = data[offset + i];
        i += 1;
    }
    let address = Address { bytes };
    proof {
        assert(address@ =~= data@.subrange(offset as int, offset + 32));
        address.lemma_from_seq_of_view();
    }
    address
}

/// Whether `data` starts with the bytes of `prefix`.
pub fn starts_with(data: &[u8], prefix: &[u8]) -> (found: bool)
    ensures
        found == (prefix@.len() <= data@.len() && data@.subrange(0, prefix@.len() as int)
            == prefix@),
{
    if data.len() < prefix.len() {
        return false;
    }
    let mut i: usize = 0;
    while i < prefix.len()
        invariant
            i <= prefix@.len() <= data@.len(),
            forall|j: int| 0 <= j < i ==> data@[j] == prefix@[j],
        decreases prefix@.len() - i,
    {
        if data[i] != prefix[i] {
            assert(data@.subrange(0, prefix@.len() as int)[i as int] != prefix@[i as int]);
            return false;
        }
        i += 1;
    }
    assert(data@.subrange(0, prefix@.len() as int) =~= prefix@);
    true
}

} // verus!
