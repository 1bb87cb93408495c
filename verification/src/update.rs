//! The update operation: authorize a rename request against the collection's
//! authority record, then issue exactly one delegated call into the external
//! asset-registry program.

use vstd::prelude::*;
use crate::address::Address;
use crate::pda::{authority_label, authority_label_bytes, delegate_of, derive_delegate_address,
    registry_program, registry_program_id};
use crate::state::{AccountRef, CollectionAuthority, MPLXCoreError, UpdateError};

verus! {

/// The seed material that reproduces a delegate address. Supplying it
/// authorizes a single call "as" the delegate; it is consumed by the call's
/// construction and never persisted.
pub struct DelegateProof {
    /// the fixed label (the bytes of `collection_authority`)
    pub label: [u8; 20],
    /// the collection whose delegate the proof reproduces
    pub collection: Address,
    /// the disambiguation byte of the derivation
    pub bump: u8,
}

impl DelegateProof {
    /// The proof's seed material re-derives exactly `delegate` under
    /// `program`.
    pub open spec fn proves(self, program: Seq<u8>, delegate: Seq<u8>) -> bool {
        &&& self.label@ == authority_label()
        &&& delegate_of(self.collection@, self.bump, program) == Some(delegate)
    }
}

/// Package the seed material of a collection's delegate (the deriver's second
/// role: handing the invoker what it needs to sign one call).
pub fn derive_delegate_proof(collection: &Address, bump: u8) -> (r: DelegateProof)
    ensures
        r.label@ == authority_label(),
        r.collection == *collection,
        r.bump == bump,
{
    let label = authority_label_bytes();
    DelegateProof { label, collection: *collection, bump }
}

/// One fully-formed call into the external registry program's update entry
/// point: every reference the callee's convention needs, the delegate's
/// derivation proof, and the new name.
pub struct UpdateCall {
    /// the callee: the external registry program
    pub program: Address,
    /// the asset whose name is updated
    pub asset: Address,
    /// the collection the asset belongs to
    pub collection: Address,
    /// the delegate acting as the update authority
    pub authority: Address,
    /// the requesting principal, paying the call's fees
    pub payer: Address,
    /// the system-level dependency the callee requires, passed through
    pub system_program: Address,
    /// the seed material signing the call as `authority`
    pub proof: DelegateProof,
    /// the asset's new display name
    pub new_name: String,
}

/// A rename request: the accounts presented with it, and the persisted
/// authority record for the collection.
pub struct UpdateNft {
    /// identity of this delegating program, under which delegates are derived
    pub program_id: Address,
    /// the requesting principal: a verified transaction-level signer, and the
    /// fee payer for the external call
    pub authority: Address,
    /// the asset to update; opaque to this core
    pub asset: Address,
    /// the collection account, with its current owner tag
    pub collection: AccountRef,
    /// the persisted authority record presented for the collection
    pub collection_authority: CollectionAuthority,
    /// the address of the account actually supplied as the authority
    pub collection_authority_address: Address,
    /// the system-level dependency, passed through to the external call
    pub system_program: Address,
}

impl UpdateNft {
    /// The authorization decision, checked in order and short-circuiting:
    /// the collection must be owned by the external registry program; the
    /// record's creator must be the requesting principal; and the record's
    /// bump, with the fixed label and the collection's identity, must
    /// re-derive exactly the authority account supplied with the request.
    pub open spec fn authorize_spec(self) -> Result<(), MPLXCoreError> {
        if self.collection.owner@ != registry_program_id() {
            Err(MPLXCoreError::InvalidCollection)
        } else if self.collection_authority.creator@ != self.authority@ {
            Err(MPLXCoreError::NotAuthorized)
        } else if delegate_of(
            self.collection.key@,
            self.collection_authority.bump,
            self.program_id@,
        ) != Some(self.collection_authority_address@) {
            Err(MPLXCoreError::NotAuthorized)
        } else {
            Ok(())
        }
    }

    /// Decide the request: reads only, no side effects, no external call.
    pub fn validate(&self) -> (r: Result<(), MPLXCoreError>)
        ensures
            r == self.authorize_spec(),
    {
        let registry = registry_program();
        if !self.collection.owner.matches(&registry) {
            return Err(MPLXCoreError::InvalidCollection);
        }
        if !self.collection_authority.creator.matches(&self.authority) {
            return Err(MPLXCoreError::NotAuthorized);
        }
        match derive_delegate_address(
            &self.collection.key,
            self.collection_authority.bump,
            &self.program_id,
        ) {
            None => Err(MPLXCoreError::NotAuthorized),
            Some(delegate) => {
                if delegate.matches(&self.collection_authority_address) {
                    Ok(())
                } else {
                    Err(MPLXCoreError::NotAuthorized)
                }
            },
        }
    }

    /// Authorize the request and, on success, construct the one call the
    /// invoker will issue: addressed to the external registry program, signed
    /// by the delegate's re-derived seed material, naming the asset, the
    /// collection, the payer and the pass-through system dependency.
    pub fn build_update_call(&self, new_name: String) -> (r: Result<UpdateCall, MPLXCoreError>)
        ensures
            match r {
                Err(e) => self.authorize_spec() == Err::<(), MPLXCoreError>(e),
                Ok(call) => {
                    &&& self.authorize_spec() is Ok
                    &&& call.program@ == registry_program_id()
                    &&& call.asset == self.asset
                    &&& call.collection == self.collection.key
                    &&& call.authority == self.collection_authority_address
                    &&& call.payer == self.authority
                    &&& call.system_program == self.system_program
                    &&& call.proof.collection == self.collection.key
                    &&& call.proof.bump == self.collection_authority.bump
                    &&& call.proof.proves(self.program_id@, call.authority@)
                    &&& call.new_name@ == new_name@
                },
            },
    {
        match self.validate() {
            Err(e) => Err(e),
            Ok(()) => {
                let proof = derive_delegate_proof(
                    &self.collection.key,
                    self.collection_authority.bump,
                );
                Ok(UpdateCall {
                    program: registry_program(),
                    asset: self.asset,
                    collection: self.collection.key,
                    authority: self.collection_authority_address,
                    payer: self.authority,
                    system_program: self.system_program,
                    proof,
                    new_name,
                })
            },
        }
    }

    /// The whole operation against an injected registry: authorize, then
    /// issue exactly one update call, whose outcome — success or the external
    /// program's own failure — is the operation's outcome, unchanged. A
    /// rejected request issues no call and alters nothing.
    pub fn update_nft(&self, new_name: String, registry: &mut AssetRegistry) -> (r: Result<
        (),
        UpdateError,
    >)
        requires
            old(registry).calls < u64::MAX,
        ensures
            self.authorize_spec() == Err::<(), MPLXCoreError>(MPLXCoreError::InvalidCollection)
                ==> r == Err::<(), UpdateError>(UpdateError::InvalidCollection)
                    && *final(registry) == *old(registry),
            self.authorize_spec() == Err::<(), MPLXCoreError>(MPLXCoreError::NotAuthorized)
                ==> r == Err::<(), UpdateError>(UpdateError::NotAuthorized)
                    && *final(registry) == *old(registry),
            self.authorize_spec() is Ok
                ==> final(registry).calls == old(registry).calls + 1
                    && final(registry).fail_with == old(registry).fail_with,
            self.authorize_spec() is Ok && old(registry).fail_with is None
                ==> r is Ok && final(registry).asset_name@ == new_name@,
            self.authorize_spec() is Ok ==> (old(registry).fail_with matches Some(code)
                ==> r == Err::<(), UpdateError>(UpdateError::External(code))
                    && final(registry).asset_name == old(registry).asset_name),
    {
        match self.build_update_call(new_name) {
            Err(MPLXCoreError::InvalidCollection) => Err(UpdateError::InvalidCollection),
            Err(MPLXCoreError::NotAuthorized) => Err(UpdateError::NotAuthorized),
            Ok(call) => match registry.apply_update(call) {
                Ok(()) => Ok(()),
                Err(code) => Err(UpdateError::External(code)),
            },
        }
    }
}

/// Ownership check: a request whose collection reference is not owned by the
/// external registry program is rejected with `InvalidCollection`, whatever
/// else it presents; no external call follows a rejection.
pub proof fn lemma_ownership_check(req: UpdateNft)
    requires
        req.collection.owner@ != registry_program_id(),
    ensures
        req.authorize_spec() == Err::<(), MPLXCoreError>(MPLXCoreError::InvalidCollection),
{
}

/// Authorization soundness: given a correctly owned collection (checked
/// first), a request whose principal is not the record's registered creator
/// is rejected with `NotAuthorized`.
pub proof fn lemma_authorization_soundness(req: UpdateNft)
    requires
        req.collection.owner@ == registry_program_id(),
        req.collection_authority.creator@ != req.authority@,
    ensures
        req.authorize_spec() == Err::<(), MPLXCoreError>(MPLXCoreError::NotAuthorized),
{
}

/// No bypass via a mismatched bump: even when the creator matches the
/// requesting principal, an authority account that the record's bump (with
/// the fixed label and the collection's identity) does not re-derive is
/// rejected with `NotAuthorized`.
pub proof fn lemma_no_bump_bypass(req: UpdateNft)
    requires
        req.collection.owner@ == registry_program_id(),
        req.collection_authority.creator@ == req.authority@,
        delegate_of(req.collection.key@, req.collection_authority.bump, req.program_id@)
            != Some(req.collection_authority_address@),
    ensures
        req.authorize_spec() == Err::<(), MPLXCoreError>(MPLXCoreError::NotAuthorized),
{
}

/// Completeness of the authorization: a request that passes all three checks
/// is authorized — success is owed on exactly these inputs.
pub proof fn lemma_authorization_complete(req: UpdateNft)
    requires
        req.collection.owner@ == registry_program_id(),
        req.collection_authority.creator@ == req.authority@,
        delegate_of(req.collection.key@, req.collection_authority.bump, req.program_id@)
            == Some(req.collection_authority_address@),
    ensures
        req.authorize_spec() is Ok,
{
}

/// A model of the external asset-registry program's update entry point — the
/// narrow interface this core calls, injected so the operation's end-to-end
/// behaviour can be stated and checked without the real program. One call
/// either fully applies the rename or fails with the program's own code; the
/// model also counts the calls issued to it and can be set to fail.
pub struct AssetRegistry {
    /// the asset's mutable display name, as the registry holds it
    pub asset_name: String,
    /// how many update calls were issued to the registry
    pub calls: u64,
    /// when set, every update call fails with this code
    pub fail_with: Option<u64>,
}

impl AssetRegistry {
    /// Apply one update call: atomically either the rename fully applies, or
    /// the call fails with the registry's error and the name is untouched.
    pub fn apply_update(&mut self, call: UpdateCall) -> (r: Result<(), u64>)
        requires
            old(self).calls < u64::MAX,
        ensures
            final(self).calls == old(self).calls + 1,
            final(self).fail_with == old(self).fail_with,
            match old(self).fail_with {
                None => r is Ok && final(self).asset_name@ == call.new_name@,
                Some(code) => r == Err::<(), u64>(code)
                    && final(self).asset_name == old(self).asset_name,
            },
    {
        self.calls = self.calls + 1;
        match self.fail_with {
            None => {
                self.asset_name = call.new_name;
                Ok(())
            },
            Some(code) => Err(code),
        }
    }
}

} // verus!
