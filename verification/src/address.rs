//! Ledger addresses.

use vstd::prelude::*;
use vstd::std_specs::cmp::PartialEqSpecImpl;

verus! {

/// Number of bytes in a ledger address.
pub const ADDRESS_BYTES: usize = 32;

/// The address of an account on the ledger: thirty-two opaque bytes.
///
/// Its view is the sequence of those bytes, and two addresses are equal
/// exactly when their views are.
#[derive(Clone, Copy, Debug)]
pub struct Address {
    pub bytes: [u8; 32],
}

impl View for Address {
    type V = Seq<u8>;

    open spec fn view(&self) -> Seq<u8> {
        self.bytes@
    }
}

impl Address {
    /// The address made of `bytes`.
    pub fn new(bytes: [u8; 32]) -> (address: Address)
        ensures
            address@ == bytes@,
            address.bytes == bytes,
    {
        Address { bytes }
    }

    /// The address made of `bytes`, where there are thirty-two of them.
    pub fn from_slice(bytes: &[u8]) -> (address: Option<Address>)
        ensures
            match address {
                Some(found) => found@ == bytes@,
                None => bytes@.len() != ADDRESS_BYTES,
            },
    {
        if bytes.len() != ADDRESS_BYTES {
            return None;
        }
        let mut copy = [0u8; 32];
        let mut i: usize = 0;
        while i < ADDRESS_BYTES
            invariant
                i <= ADDRESS_BYTES,
                bytes@.len() == ADDRESS_BYTES,
                forall|j: int| 0 <= j < i ==> copy@[j] == bytes@[j],
            decreases ADDRESS_BYTES - i,
        {
            copy[i] = bytes[i];
            i += 1;
        }
        assert(copy@ =~= bytes@);
        Some(Address { bytes: copy })
    }

    /// The bytes of the address.
    pub fn to_bytes(&self) -> (bytes: [u8; 32])
        ensures
            bytes@ == self@,
    {
        self.bytes
    }

    /// The bytes of the address, as a vector.
    pub fn to_vec(&self) -> (bytes: Vec<u8>)
        ensures
            bytes@ == self@,
            bytes@.len() == ADDRESS_BYTES,
    {
        let mut bytes: Vec<u8> = Vec::new();
        let mut i: usize = 0;
        while i < ADDRESS_BYTES
            invariant
                i <= ADDRESS_BYTES,
                bytes@ == self@.subrange(0, i as int),
            decreases ADDRESS_BYTES - i,
        {
            bytes.push(self.bytes[i]);
            i += 1;
        }
        bytes
    }
}

impl PartialEq for Address {
    fn eq(&self, other: &Address) -> (equal: bool) {
        let mut i: usize = 0;
        while i < ADDRESS_BYTES
            invariant
                i <= ADDRESS_BYTES,
                self@.subrange(0, i as int) == other@.subrange(0, i as int),
            decreases ADDRESS_BYTES - i,
        {
            if self.bytes[i] != other.bytes[i] {
                return false;
            }
            assert(self@.subrange(0, i + 1) == self@.subrange(0, i as int).push(self@[i as int]));
            assert(other@.subrange(0, i + 1) == other@.subrange(0, i as int).push(other@[i as int]));
            i += 1;
        }
        assert(self@ == self@.subrange(0, 32));
        assert(other@ == other@.subrange(0, 32));
        true
    }
}

impl Eq for Address {
}

impl PartialEqSpecImpl for Address {
    open spec fn obeys_eq_spec() -> bool {
        true
    }

    open spec fn eq_spec(&self, other: &Address) -> bool {
        self@ == other@
    }
}

} // verus!
