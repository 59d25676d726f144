use frame_support::sp_runtime::traits::BlakeTwo256;
use meta_assets::{AssetId, Error, Event, Pallet};

const A: u64 = 1;
const B: u64 = 2;
const C: u64 = 3;
const D: u64 = 4;
const Z: u64 = 26;

fn added(p: &mut Pallet, caller: u64, name: &[u8], meta: Option<Vec<u8>>) -> AssetId {
    p.add_asset(caller, name.to_vec(), meta).expect("asset is added")
}

#[test]
fn add_asset_twice_gives_same_identifier() {
    let mut p = Pallet::new();
    let h1 = added(&mut p, A, b"widget", None);
    let h2 = added(&mut p, A, b"widget", Some(b"x".to_vec()));
    assert_eq!(h1, h2);
    assert_eq!(p.assets_meta(&h1, A), Some(Some(b"x".to_vec())));
}

#[test]
fn identifier_is_blake2_of_encoded_record() {
    let mut p = Pallet::new();
    let h = added(&mut p, A, b"widget", None);
    let expected = <BlakeTwo256 as frame_support::sp_runtime::traits::Hash>::hash_of(&(b"widget".to_vec(), A)).0;
    assert_eq!(h, expected);
    assert_ne!(h, [0u8; 32]);
}

#[test]
fn identifier_depends_on_name_and_owner() {
    let mut p = Pallet::new();
    let h1 = added(&mut p, A, b"widget", None);
    let h2 = added(&mut p, B, b"widget", None);
    let h3 = added(&mut p, A, b"widgets", None);
    assert_ne!(h1, h2);
    assert_ne!(h1, h3);
    assert_eq!(p.assets(&h1).unwrap().owner, A);
    assert_eq!(p.assets(&h2).unwrap().owner, B);
}

#[test]
fn short_names_are_refused() {
    let mut p = Pallet::new();
    for name in [&b""[..], b"a", b"ab", b"abc"] {
        assert_eq!(p.add_asset(A, name.to_vec(), None), Err(Error::ShortNameProvided));
    }
    assert!(p.events().is_empty());
    assert!(p.add_asset(A, b"abcd".to_vec(), None).is_ok());
}

#[test]
fn long_names_are_refused() {
    let mut p = Pallet::new();
    assert_eq!(p.add_asset(A, vec![b'x'; 32], None), Err(Error::LongNameProvided));
    assert_eq!(p.add_asset(A, vec![b'x'; 100], None), Err(Error::LongNameProvided));
    assert!(p.events().is_empty());
    let h = added(&mut p, A, &[b'x'; 31], None);
    assert_eq!(p.assets(&h).unwrap().name, vec![b'x'; 31]);
}

#[test]
fn add_asset_stores_record_slot_and_event() {
    let mut p = Pallet::new();
    let h = added(&mut p, A, b"widget", Some(b"meta".to_vec()));
    let item = p.assets(&h).unwrap();
    assert_eq!(item.name, b"widget".to_vec());
    assert_eq!(item.owner, A);
    assert_eq!(p.assets_meta(&h, A), Some(Some(b"meta".to_vec())));
    assert_eq!(p.assets_meta(&h, B), None);
    assert_eq!(p.events().len(), 1);
    match &p.events()[0] {
        Event::AssetWasStored(name, who) => {
            assert_eq!(name, &b"widget".to_vec());
            assert_eq!(*who, A);
        }
    }
}

#[test]
fn only_owner_transfers() {
    let mut p = Pallet::new();
    let h = added(&mut p, A, b"widget", None);
    assert_eq!(p.transfer_asset(B, h, C), Err(Error::InvalidOwner));
    assert_eq!(p.assets(&h).unwrap().owner, A);
    assert_eq!(p.transfer_asset(A, h, C), Ok(()));
    let item = p.assets(&h).unwrap();
    assert_eq!(item.owner, C);
    assert_eq!(item.name, b"widget".to_vec());
    assert_eq!(p.transfer_asset(A, h, B), Err(Error::InvalidOwner));
    assert_eq!(p.events().len(), 1);
}

#[test]
fn transfer_of_unknown_asset_is_refused() {
    let mut p = Pallet::new();
    assert_eq!(p.transfer_asset(A, [7u8; 32], C), Err(Error::InvalidHash));
    assert!(p.assets(&[7u8; 32]).is_none());
}

#[test]
fn creator_updates_metadata_others_cannot() {
    let mut p = Pallet::new();
    let h = added(&mut p, A, b"widget", None);
    assert_eq!(p.update_meta(A, h, Some(b"new".to_vec())), Ok(()));
    assert_eq!(p.assets_meta(&h, A), Some(Some(b"new".to_vec())));
    assert_eq!(p.update_meta(Z, h, Some(b"bad".to_vec())), Err(Error::InvalidOwner));
    assert_eq!(p.assets_meta(&h, Z), None);
    assert_eq!(p.update_meta(A, h, None), Ok(()));
    assert_eq!(p.assets_meta(&h, A), Some(None));
}

#[test]
fn update_meta_on_unknown_asset_is_refused() {
    let mut p = Pallet::new();
    assert_eq!(p.update_meta(A, [1u8; 32], None), Err(Error::InvalidOwner));
}

#[test]
fn owner_registers_admin() {
    let mut p = Pallet::new();
    let h = added(&mut p, A, b"widget", None);
    assert_eq!(p.register_admin(B, h, D), Err(Error::InvalidOwner));
    assert_eq!(p.assets_meta(&h, D), None);
    assert_eq!(p.register_admin(A, h, D), Ok(()));
    assert_eq!(p.assets_meta(&h, D), Some(None));
    assert_eq!(p.update_meta(D, h, Some(b"m".to_vec())), Ok(()));
    assert_eq!(p.assets_meta(&h, D), Some(Some(b"m".to_vec())));
}

#[test]
fn register_admin_on_unknown_asset_is_refused() {
    let mut p = Pallet::new();
    assert_eq!(p.register_admin(A, [9u8; 32], D), Err(Error::InvalidHash));
}

#[test]
fn register_admin_resets_existing_slot() {
    let mut p = Pallet::new();
    let h = added(&mut p, A, b"widget", Some(b"v1".to_vec()));
    assert_eq!(p.register_admin(A, h, A), Ok(()));
    assert_eq!(p.assets_meta(&h, A), Some(None));
}

#[test]
fn metadata_authority_outlives_transfer() {
    let mut p = Pallet::new();
    let h1 = added(&mut p, A, b"gadget", Some(b"v1".to_vec()));
    assert_eq!(p.register_admin(A, h1, B), Ok(()));
    assert_eq!(p.update_meta(B, h1, Some(b"v2".to_vec())), Ok(()));
    assert_eq!(p.assets_meta(&h1, B), Some(Some(b"v2".to_vec())));
    assert_eq!(p.assets_meta(&h1, A), Some(Some(b"v1".to_vec())));
    assert_eq!(p.transfer_asset(A, h1, C), Ok(()));
    assert_eq!(p.assets(&h1).unwrap().owner, C);
    assert_eq!(p.update_meta(A, h1, Some(b"v3".to_vec())), Ok(()));
    assert_eq!(p.assets_meta(&h1, A), Some(Some(b"v3".to_vec())));
    assert_eq!(p.assets_meta(&h1, C), None);
    assert_eq!(p.register_admin(A, h1, D), Err(Error::InvalidOwner));
    assert_eq!(p.register_admin(C, h1, D), Ok(()));
}
