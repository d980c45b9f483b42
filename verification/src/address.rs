use vstd::prelude::*;

verus! {

/// Thirty-two zero bytes.
pub const ZERO_BYTES: [u8; 32] = [
    0, 0, 0, 0, 0, 0, 0, 0, 0, 0, 0, 0, 0, 0, 0, 0,
    0, 0, 0, 0, 0, 0, 0, 0, 0, 0, 0, 0, 0, 0, 0, 0,
];

/// The address of an account: 32 bytes, compared byte by byte.
#[derive(Clone, Copy, Debug, Eq, Hash)]
pub struct Address {
    pub bytes: [u8; 32],
}

impl View for Address {
    type V = Seq<u8>;

    open spec fn view(&self) -> Seq<u8> {
        self.bytes@
    }
}

impl PartialEq for Address {
    /// Whether the two addresses have the same bytes.
    fn eq(&self, other: &Address) -> (equal: bool) {
        let mut i: usize = 0;
        while i < 32
            invariant
                i <= 32,
                forall|j: int| 0 <= j < i ==> self.bytes[j] == other.bytes[j],
            decreases 32 - i,
        {
            if self.bytes[i] != other.bytes[i] {
                return false;
            }
            i += 1;
        }
        assert(self.bytes =~= other.bytes);
        true
    }
}

impl vstd::std_specs::cmp::PartialEqSpecImpl for Address {
    open spec fn obeys_eq_spec() -> bool {
        true
    }

    open spec fn eq_spec(&self, other: &Address) -> bool {
        *self == *other
    }
}

impl Default for Address {
    /// The address of thirty-two zero bytes, which stands for "not set".
    fn default() -> (address: Address)
        ensures
            address == Address::zero(),
    {
        Address { bytes: ZERO_BYTES }
    }
}

impl Address {
    /// The address of thirty-two zero bytes.
    pub open spec fn zero() -> Address {
        Address { bytes: ZERO_BYTES }
    }

    /// The address with the given bytes.
    pub fn new_from_array(bytes: [u8; 32]) -> (address: Address)
        ensures
            address.bytes == bytes,
    {
        Address { bytes }
    }

    /// The bytes of the address.
    pub fn to_bytes(&self) -> (bytes: [u8; 32])
        ensures
            bytes == self.bytes,
    {
        self.bytes
    }

    /// The address that is made of the thirty-two bytes of `bytes`.
    pub open spec fn from_seq(bytes: Seq<u8>) -> Address
        recommends
            bytes.len() == 32,
    {
        Address {
            bytes: [
                bytes[0], bytes[1], bytes[2], bytes[3], bytes[4], bytes[5], bytes[6], bytes[7],
                bytes[8], bytes[9], bytes[10], bytes[11], bytes[12], bytes[13], bytes[14], bytes[15],
                bytes[16], bytes[17], bytes[18], bytes[19], bytes[20], bytes[21], bytes[22], bytes[23],
                bytes[24], bytes[25], bytes[26], bytes[27], bytes[28], bytes[29], bytes[30], bytes[31],
            ],
        }
    }

    /// An address is made of its own bytes.
    pub proof fn lemma_from_seq_of_view(self)
        ensures
            Address::from_seq(self@) == self,
    {
        assert(Address::from_seq(self@).bytes =~= self.bytes);
    }

    /// The bytes of the address made of `bytes` are `bytes`.
    pub proof fn lemma_view_of_from_seq(bytes: Seq<u8>)
        requires
            bytes.len() == 32,
        ensures
            Address::from_seq(bytes)@ == bytes,
    {
        assert(Address::from_seq(bytes)@ =~= bytes);
    }
}

} // verus!
