//! The identity of an account or contract, as the byte string of its strkey.

use vstd::prelude::*;

verus! {

/// An account or contract identity, held as the bytes of its textual
/// encoding (a strkey such as `G...` or `C...`). Two identities are the same
/// exactly when their bytes are.
#[derive(Debug, PartialEq, Eq)]
pub struct ContractAddress {
    bytes: Vec<u8>,
}

impl View for ContractAddress {
    type V = Seq<u8>;

    open spec fn view(&self) -> Seq<u8> {
        self.spec_bytes()
    }
}

impl ContractAddress {
    /// The bytes that make up the identity.
    pub closed spec fn spec_bytes(&self) -> Seq<u8> {
        self.bytes@
    }

    /// Wraps the given bytes as an identity.
    pub fn from_bytes(bytes: Vec<u8>) -> (res: ContractAddress)
        ensures
            res@ == bytes@,
    {
        ContractAddress { bytes }
    }

    /// The bytes of the identity.
    pub fn as_bytes(&self) -> (res: &Vec<u8>)
        ensures
            res@ == self@,
    {
        &self.bytes
    }

    /// Whether `self` and `other` denote the same identity.
    pub fn same_as(&self, other: &ContractAddress) -> (res: bool)
        ensures
            res == (self@ == other@),
    {
        let n = self.bytes.len();
        if n != other.bytes.len() {
            return false;
        }
        let mut i: usize = 0;
        while i < n
            invariant
                n == self.bytes@.len(),
                n == other.bytes@.len(),
                0 <= i <= n,
                forall|j: int| 0 <= j < i ==> self.bytes@[j] == other.bytes@[j],
            decreases n - i,
        {
            if self.bytes[i] != other.bytes[i] {
                return false;
            }
            i = i + 1;
        }
        assert(self.bytes@ =~= other.bytes@);
        true
    }
}

impl Clone for ContractAddress {
    fn clone(&self) -> (res: ContractAddress)
        ensures
            res@ == self@,
    {
        ContractAddress { bytes: self.bytes.clone() }
    }
}

} // verus!
