use collection_delegate::address::Address;
use collection_delegate::pda::{derive_delegate_address, registry_program};
use collection_delegate::state::{AccountRef, CollectionAuthority, MPLXCoreError, UpdateError};
use collection_delegate::update::{AssetRegistry, UpdateNft};

fn addr(n: u8) -> Address {
    Address::new([n; 32])
}

fn find_valid_bump(collection: &Address, program: &Address) -> (u8, Address) {
    let mut bump = 255u8;
    loop {
        if let Some(delegate) = derive_delegate_address(collection, bump, program) {
            return (bump, delegate);
        }
        assert!(bump > 0, "no valid bump found");
        bump -= 1;
    }
}

fn find_invalid_bump(collection: &Address, program: &Address) -> u8 {
    let mut bump = 255u8;
    loop {
        if derive_delegate_address(collection, bump, program).is_none() {
            return bump;
        }
        assert!(bump > 0, "no invalid bump found");
        bump -= 1;
    }
}

fn fresh_registry() -> AssetRegistry {
    AssetRegistry { asset_name: String::from("Old Name"), calls: 0, fail_with: None }
}

fn valid_request() -> UpdateNft {
    let program_id = addr(7);
    let creator = addr(1);
    let collection_key = addr(2);
    let (bump, delegate) = find_valid_bump(&collection_key, &program_id);
    UpdateNft {
        program_id,
        authority: creator,
        asset: addr(3),
        collection: AccountRef { key: collection_key, owner: registry_program() },
        collection_authority: CollectionAuthority { collection: collection_key, creator, bump },
        collection_authority_address: delegate,
        system_program: addr(0),
    }
}

const RECORD_TAG: [u8; 8] = [209, 221, 189, 233, 183, 32, 247, 91];

fn record_bytes(collection: &Address, creator: &Address, bump: u8) -> Vec<u8> {
    let mut data = Vec::new();
    data.extend_from_slice(&RECORD_TAG);
    data.extend_from_slice(&collection.bytes);
    data.extend_from_slice(&creator.bytes);
    data.push(bump);
    data
}

#[test]
fn parse_reads_a_persisted_record() {
    let collection = addr(2);
    let creator = addr(1);
    let data = record_bytes(&collection, &creator, 254);
    let record = CollectionAuthority::parse(&data).unwrap();
    assert_eq!(record.collection.bytes, collection.bytes);
    assert_eq!(record.creator.bytes, creator.bytes);
    assert_eq!(record.bump, 254);
}

#[test]
fn parse_rejects_short_data() {
    let data = record_bytes(&addr(2), &addr(1), 254);
    assert!(CollectionAuthority::parse(&data[..72]).is_none());
    assert!(CollectionAuthority::parse(&[]).is_none());
}

#[test]
fn parse_rejects_wrong_tag() {
    let mut data = record_bytes(&addr(2), &addr(1), 254);
    data[0] ^= 1;
    assert!(CollectionAuthority::parse(&data).is_none());
}

#[test]
fn delegate_derivation_is_deterministic() {
    let collection = addr(11);
    let program = addr(12);
    let (bump, first) = find_valid_bump(&collection, &program);
    let second = derive_delegate_address(&collection, bump, &program).unwrap();
    assert_eq!(first.bytes, second.bytes);
    // and the derivation is a real hash, not its own input handed back
    assert_ne!(first.bytes, collection.bytes);
    assert_ne!(first.bytes, program.bytes);
}

#[test]
fn registry_program_id_matches_published_identity() {
    // the bytes `CoREENxT6tW1HoK8ypY1SxRMZTcVPm7R94rH4PZNhX7d` decodes to
    let expected: [u8; 32] = [
        175, 84, 171, 16, 189, 151, 165, 66, 160, 158, 247, 179, 152, 137, 221, 12, 211, 148, 164,
        204, 233, 223, 166, 205, 201, 126, 190, 45, 35, 91, 167, 72,
    ];
    assert_eq!(registry_program().bytes, mpl_core::ID.to_bytes());
    assert_eq!(registry_program().bytes, expected);
}

#[test]
fn validate_accepts_valid_request() {
    let req = valid_request();
    assert_eq!(req.validate(), Ok(()));
}

#[test]
fn validate_rejects_foreign_collection_owner() {
    let mut req = valid_request();
    req.collection.owner = addr(99);
    assert_eq!(req.validate(), Err(MPLXCoreError::InvalidCollection));
}

#[test]
fn validate_rejects_wrong_creator() {
    let mut req = valid_request();
    req.collection_authority.creator = addr(42);
    assert_eq!(req.validate(), Err(MPLXCoreError::NotAuthorized));
}

#[test]
fn validate_rejects_mismatched_authority_account() {
    let mut req = valid_request();
    req.collection_authority_address = addr(42);
    assert_eq!(req.validate(), Err(MPLXCoreError::NotAuthorized));
}

#[test]
fn validate_rejects_underivable_bump() {
    let mut req = valid_request();
    req.collection_authority.bump = find_invalid_bump(&req.collection.key, &req.program_id);
    assert_eq!(req.validate(), Err(MPLXCoreError::NotAuthorized));
}

#[test]
fn build_update_call_carries_the_request() {
    let req = valid_request();
    let call = req.build_update_call(String::from("Golden Badge")).unwrap();
    assert_eq!(call.program.bytes, mpl_core::ID.to_bytes());
    assert_eq!(call.asset.bytes, req.asset.bytes);
    assert_eq!(call.collection.bytes, req.collection.key.bytes);
    assert_eq!(call.authority.bytes, req.collection_authority_address.bytes);
    assert_eq!(call.payer.bytes, req.authority.bytes);
    assert_eq!(call.system_program.bytes, req.system_program.bytes);
    assert_eq!(call.proof.label, *b"collection_authority");
    assert_eq!(call.proof.collection.bytes, req.collection.key.bytes);
    assert_eq!(call.proof.bump, req.collection_authority.bump);
    assert_eq!(call.new_name, "Golden Badge");
}

#[test]
fn happy_path_updates_name() {
    let req = valid_request();
    let mut registry = fresh_registry();
    let result = req.update_nft(String::from("Golden Badge"), &mut registry);
    assert_eq!(result, Ok(()));
    assert_eq!(registry.asset_name, "Golden Badge");
    assert_eq!(registry.calls, 1);
}

#[test]
fn unauthorized_principal_changes_nothing() {
    let mut req = valid_request();
    req.authority = addr(42);
    let mut registry = fresh_registry();
    let result = req.update_nft(String::from("Golden Badge"), &mut registry);
    assert_eq!(result, Err(UpdateError::NotAuthorized));
    assert_eq!(registry.asset_name, "Old Name");
    assert_eq!(registry.calls, 0);
}

#[test]
fn foreign_collection_rejected_before_any_call() {
    let mut req = valid_request();
    req.collection.owner = addr(99);
    let mut registry = fresh_registry();
    let result = req.update_nft(String::from("Golden Badge"), &mut registry);
    assert_eq!(result, Err(UpdateError::InvalidCollection));
    assert_eq!(registry.asset_name, "Old Name");
    assert_eq!(registry.calls, 0);
}

#[test]
fn mismatched_bump_rejected_even_for_creator() {
    let req = valid_request();
    let (good_bump, _) = find_valid_bump(&req.collection.key, &req.program_id);
    let mut other_bump = good_bump - 1;
    let other_delegate = loop {
        if let Some(delegate) = derive_delegate_address(&req.collection.key, other_bump, &req.program_id) {
            break delegate;
        }
        other_bump -= 1;
    };
    // the record keeps the good bump; the presented authority was derived with another one
    let mut forged = valid_request();
    forged.collection_authority_address = other_delegate;
    let mut registry = fresh_registry();
    let result = forged.update_nft(String::from("Golden Badge"), &mut registry);
    assert_eq!(result, Err(UpdateError::NotAuthorized));
    assert_eq!(registry.asset_name, "Old Name");
    assert_eq!(registry.calls, 0);
}

#[test]
fn external_failure_is_propagated_and_atomic() {
    let req = valid_request();
    let mut registry = fresh_registry();
    registry.fail_with = Some(42);
    let result = req.update_nft(String::from("Golden Badge"), &mut registry);
    assert_eq!(result, Err(UpdateError::External(42)));
    assert_eq!(registry.asset_name, "Old Name");
    assert_eq!(registry.calls, 1);
}
