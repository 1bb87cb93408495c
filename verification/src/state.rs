//! Persisted state this core reads, and the errors it can decide on.

use vstd::prelude::*;
use crate::address::Address;

verus! {

/// The persisted authority record binding a collection to its registered
/// creator and to the bump used when the collection's delegate address was
/// derived. Created and owned by an out-of-scope initialization path; this
/// core only reads it.
#[derive(Clone, Copy, Debug)]
pub struct CollectionAuthority {
    /// the collection this record governs
    pub collection: Address,
    /// the principal authorized to request updates for that collection
    pub creator: Address,
    /// the disambiguation byte of the record's delegate-address derivation
    pub bump: u8,
}

/// The eight-byte tag that opens every persisted authority record: the
/// registry framework marks each `CollectionAuthority` account with the first
/// eight bytes of the hash of its type's name.
pub open spec fn record_tag() -> Seq<u8> {
    seq![209u8, 221u8, 189u8, 233u8, 183u8, 32u8, 247u8, 91u8]
}

impl CollectionAuthority {
    /// Parse a persisted record from an account's raw bytes: the tag, then
    /// the collection identity, the creator identity and the bump. Returns
    /// `None` exactly where the bytes are too short or carry the wrong tag.
    pub fn parse(data: &[u8]) -> (r: Option<CollectionAuthority>)
        ensures
            match r {
                Some(rec) => {
                    &&& data@.len() >= 73
                    &&& data@.subrange(0, 8) == record_tag()
                    &&& rec.collection@ == data@.subrange(8, 40)
                    &&& rec.creator@ == data@.subrange(40, 72)
                    &&& rec.bump == data@[72]
                },
                None => data@.len() < 73 || data@.subrange(0, 8) != record_tag(),
            },
    {
        if data.len() < 73 {
            return None;
        }
        let tag: [u8; 8] = [209u8, 221u8, 189u8, 233u8, 183u8, 32u8, 247u8, 91u8];
        assert(tag@ =~= record_tag());
        let mut i: usize = 0;
        while i < 8
            invariant
                i <= 8,
                data@.len() >= 73,
                tag@ == record_tag(),
                forall|j: int| 0 <= j < i ==> data@[j] == record_tag()[j],
            decreases 8 - i,
        {
            if data[i] != tag[i] {
                assert(data@.subrange(0, 8)[i as int] != record_tag()[i as int]);
                return None;
            }
            i += 1;
        }
        assert(data@.subrange(0, 8) =~= record_tag());
        let collection = Address::read_from(data, 8);
        let creator = Address::read_from(data, 40);
        let bump = data[72];
        Some(CollectionAuthority { collection, creator, bump })
    }
}

/// A reference to a ledger account, with the owner tag the ledger currently
/// holds for it.
#[derive(Clone, Copy, Debug)]
pub struct AccountRef {
    /// the account's address
    pub key: Address,
    /// the program that owns the account
    pub owner: Address,
}

/// Why a request was rejected before any external call.
#[derive(Clone, Copy, Debug, PartialEq, Eq, Structural)]
pub enum MPLXCoreError {
    /// the collection reference is not owned by the external registry program
    InvalidCollection,
    /// the requesting principal is not the record's registered creator, or
    /// the supplied authority reference does not match the record's derivation
    NotAuthorized,
}

/// The outcome of the whole operation: a local rejection, or the external
/// registry program's own failure, propagated unchanged.
#[derive(Clone, Copy, Debug, PartialEq, Eq, Structural)]
pub enum UpdateError {
    InvalidCollection,
    NotAuthorized,
    /// the error code the external registry program returned
    External(u64),
}

} // verus!
