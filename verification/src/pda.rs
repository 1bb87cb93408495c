//! Deriving the collection-scoped delegate address.
//!
//! A delegate address is a deterministic, keyless identity computed from a
//! fixed label, a collection's identity, a disambiguation byte (the "bump")
//! and the identity of the program the delegate belongs to. Whoever can
//! re-supply that seed material can sign one call as the delegate; nobody
//! holds a private key for it.

use vstd::prelude::*;
use crate::address::Address;

verus! {

/// What `Pubkey::create_program_address` returns for the three-part seed
/// `[label, collection, [bump]]` under `program`: a deterministic function of
/// those inputs alone (a hash, plus a curve check), `None` where the seeds
/// yield no valid derived address.
pub uninterp spec fn derived_address(
    label: Seq<u8>,
    collection: Seq<u8>,
    bump: u8,
    program: Seq<u8>,
) -> Option<Seq<u8>>;

/// The contents of an optional 32-byte result, as an optional byte sequence.
pub open spec fn opt_bytes_view(r: Option<[u8; 32]>) -> Option<Seq<u8>> {
    match r {
        Some(a) => Some(a@),
        None => None,
    }
}

/// Relies on `anchor_lang::prelude::Pubkey::create_program_address`: for at
/// most sixteen seeds of at most thirty-two bytes each it returns either the
/// address derived from the seeds and the program identity, or an error where
/// that derivation yields no valid delegate address; it is a pure function of
/// those inputs and never panics on them.
#[verifier::external_body]
fn create_program_address(
    label: &[u8],
    collection: &[u8; 32],
    bump: u8,
    program: &[u8; 32],
) -> (r: Option<[u8; 32]>)
    requires
        label@.len() <= 32,
    ensures
        opt_bytes_view(r) == derived_address(label@, collection@, bump, program@),
{
    let program_id = anchor_lang::prelude::Pubkey::new_from_array(*program);
    let seeds: [&[u8]; 3] = [label, collection.as_slice(), &[bump]];
    match anchor_lang::prelude::Pubkey::create_program_address(&seeds, &program_id) {
        Ok(address) => Some(address.to_bytes()),
        Err(_) => None,
    }
}

/// The fixed label under which every collection's delegate is derived:
/// the bytes of `collection_authority`.
pub open spec fn authority_label() -> Seq<u8> {
    seq![
        99u8, 111u8, 108u8, 108u8, 101u8, 99u8, 116u8, 105u8, 111u8, 110u8,
        95u8, 97u8, 117u8, 116u8, 104u8, 111u8, 114u8, 105u8, 116u8, 121u8,
    ]
}

/// The exec form of the fixed label.
pub fn authority_label_bytes() -> (r: [u8; 20])
    ensures
        r@ == authority_label(),
{
    let label: [u8; 20] = [
        99u8, 111u8, 108u8, 108u8, 101u8, 99u8, 116u8, 105u8, 111u8, 110u8,
        95u8, 97u8, 117u8, 116u8, 104u8, 111u8, 114u8, 105u8, 116u8, 121u8,
    ];
    assert(label@ =~= authority_label());
    label
}

/// The delegate address governing `collection` under `program`, for a given
/// bump: the address derived from the fixed label, the collection's identity
/// and the bump, or `None` where that derivation yields no valid address.
pub open spec fn delegate_of(collection: Seq<u8>, bump: u8, program: Seq<u8>) -> Option<Seq<u8>> {
    derived_address(authority_label(), collection, bump, program)
}

/// Derive the collection-scoped delegate address (the deriver's first role:
/// reproducing, at validation time, the identity the stored bump stands for).
/// Deterministic: the result is a function of the three inputs alone.
pub fn derive_delegate_address(collection: &Address, bump: u8, program: &Address) -> (r: Option<
    Address,
>)
    ensures
        match r {
            Some(a) => delegate_of(collection@, bump, program@) == Some(a@),
            None => delegate_of(collection@, bump, program@) is None,
        },
{
    let label = authority_label_bytes();
    match create_program_address(label.as_slice(), &collection.bytes, bump, &program.bytes) {
        Some(bytes) => Some(Address::new(bytes)),
        None => None,
    }
}

/// Determinism: the delegate address of a collection, bump and program is a
/// single value — any two derivations from the same inputs agree.
pub proof fn lemma_derivation_deterministic(
    first: Option<Seq<u8>>,
    second: Option<Seq<u8>>,
    collection: Seq<u8>,
    bump: u8,
    program: Seq<u8>,
)
    requires
        first == delegate_of(collection, bump, program),
        second == delegate_of(collection, bump, program),
    ensures
        first == second,
{
}

/// The identity of the external asset-registry program that owns collections
/// and assets and performs every update.
pub open spec fn registry_program_id() -> Seq<u8> {
    seq![
        175u8, 84u8, 171u8, 16u8, 189u8, 151u8, 165u8, 66u8, 160u8, 158u8,
        247u8, 179u8, 152u8, 137u8, 221u8, 12u8, 211u8, 148u8, 164u8, 204u8,
        233u8, 223u8, 166u8, 205u8, 201u8, 126u8, 190u8, 45u8, 35u8, 91u8,
        167u8, 72u8,
    ]
}

/// Relies on `mpl_core::ID`: the registry program's fixed, published identity,
/// whose base58 form `CoREENxT6tW1HoK8ypY1SxRMZTcVPm7R94rH4PZNhX7d` decodes to
/// the bytes of `registry_program_id`.
#[verifier::external_body]
fn registry_program_id_bytes() -> (r: [u8; 32])
    ensures
        r@ == registry_program_id(),
{
    mpl_core::ID.to_bytes()
}

/// The external registry program's identity, as an address.
pub fn registry_program() -> (r: Address)
    ensures
        r@ == registry_program_id(),
{
    Address::new(registry_program_id_bytes())
}

} // verus!
