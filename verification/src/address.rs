//! Account identities: 32-byte addresses, compared by value.

use vstd::prelude::*;

verus! {

/// A 32-byte identity of an account on the ledger (a collection, an asset,
/// a principal, a program, or a derived delegate).
#[derive(Clone, Copy, Debug)]
pub struct Address {
    pub bytes: [u8; 32],
}

impl View for Address {
    type V = Seq<u8>;

    open spec fn view(&self) -> Seq<u8> {
        self.bytes@
    }
}

impl Address {
    pub fn new(bytes: [u8; 32]) -> (r: Address)
        ensures
            r@ == bytes@,
    {
        Address { bytes }
    }

    /// Read an address out of a byte slice, starting at `start`.
    pub fn read_from(data: &[u8], start: usize) -> (r: Address)
        requires
            start + 32 <= data@.len(),
        ensures
            r@ == data@.subrange(start as int, start as int + 32),
    {
        let n = data.len();
        let mut bytes = [0u8; 32];
        let mut i: usize = 0;
        while i < 32
            invariant
                i <= 32,
                n == data@.len(),
                start + 32 <= n,
                forall|j: int| 0 <= j < i ==> bytes@[j] == data@[start + j],
            decreases 32 - i,
        {
            bytes[i] = data[start + i];
            i += 1;
        }
        assert(bytes@ =~= data@.subrange(start as int, start as int + 32));
        Address { bytes }
    }

    /// Byte-for-byte equality of two addresses.
    pub fn matches(&self, other: &Address) -> (r: bool)
        ensures
            r == (self@ == other@),
    {
        let mut i: usize = 0;
        while i < 32
            invariant
                i <= 32,
                forall|j: int| 0 <= j < i ==> self.bytes@[j] == other.bytes@[j],
            decreases 32 - i,
        {
            if self.bytes[i] != other.bytes[i] {
                assert(self@[i as int] != other@[i as int]);
                return false;
            }
            i += 1;
        }
        assert(self@ =~= other@);
        true
    }
}

} // verus!
