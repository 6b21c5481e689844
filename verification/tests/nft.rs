use sov_nft::address::{Address, CollectionAddress, CreatorAddress, OwnerAddress, UserAddress};
use sov_nft::call::CallMessage;
use sov_nft::collection::{Collection, CollectionMap, CollectionState};
use sov_nft::context::Context;
use sov_nft::error::NftError;
use sov_nft::genesis::NonFungibleTokenConfig;
use sov_nft::state::{NftEvent, WorkingSet};
use sov_nft::utils::get_collection_address;
use sov_nft::NonFungibleToken;

fn addr(byte: u8) -> Address {
    Address::new([byte; 32])
}

fn module() -> NonFungibleToken {
    NonFungibleToken::new(addr(0xee))
}

const DIGEST_ONES_MY_COLLECTION: [u8; 32] = [
    31, 7, 232, 206, 200, 0, 104, 161, 12, 35, 237, 146, 73, 190, 148, 157, 203, 233, 142, 57,
    202, 45, 116, 37, 25, 50, 36, 232, 7, 3, 133, 88,
];

#[test]
fn collection_address_is_digest_of_sender_and_name() {
    let ca = get_collection_address("my_collection", &[1u8; 32]);
    assert_eq!(ca.0.bytes, DIGEST_ONES_MY_COLLECTION);
    let other = get_collection_address("my_collection", &[2u8; 32]);
    assert_eq!(
        other.0.bytes,
        [
            16, 42, 91, 240, 189, 123, 241, 4, 212, 243, 173, 232, 172, 206, 95, 26, 144, 98, 55,
            66, 116, 54, 188, 124, 255, 109, 61, 173, 188, 84, 55, 206
        ]
    );
}

#[test]
fn empty_sender_and_name_give_digest_of_nothing() {
    let ca = get_collection_address("", &[]);
    assert_eq!(
        ca.0.bytes,
        [
            227, 176, 196, 66, 152, 252, 28, 20, 154, 251, 244, 200, 153, 111, 185, 36, 39, 174,
            65, 228, 100, 155, 147, 76, 164, 149, 153, 27, 120, 82, 184, 85
        ]
    );
}

#[test]
fn query_collection_address() {
    let m = module();
    let ws = WorkingSet::new();
    let resp = m.get_collection_address(CreatorAddress::new(&addr(1)), "my_collection", &ws);
    assert_eq!(resp.collection_address.0.bytes, DIGEST_ONES_MY_COLLECTION);
}

#[test]
fn create_then_get_collection() {
    let m = module();
    let mut ws = WorkingSet::new();
    let ctx = Context::new(addr(1));
    assert!(m.create_collection("my_collection", "https://uri", &ctx, &mut ws).is_ok());
    let c = m
        .try_get_collection(CreatorAddress::new(&addr(1)), "my_collection", &ws)
        .expect("collection exists");
    assert_eq!(c.name, "my_collection");
    assert_eq!(c.creator, CreatorAddress::new(&addr(1)));
    assert!(!c.frozen);
    assert_eq!(c.supply, 0);
    assert_eq!(c.collection_uri, "https://uri");
    let c2 = m.get_collection(CreatorAddress::new(&addr(1)), "my_collection", &ws);
    assert_eq!(c2.collection_uri, "https://uri");
    assert!(m
        .try_get_collection(CreatorAddress::new(&addr(2)), "my_collection", &ws)
        .is_none());
    assert!(m
        .try_get_collection(CreatorAddress::new(&addr(1)), "other", &ws)
        .is_none());
}

#[test]
fn collection_created_once() {
    let m = module();
    let mut ws = WorkingSet::new();
    let ctx = Context::new(addr(1));
    m.create_collection("c", "u1", &ctx, &mut ws).unwrap();
    match m.create_collection("c", "u2", &ctx, &mut ws) {
        Err(NftError::CollectionAlreadyExists { collection_name, creator }) => {
            assert_eq!(collection_name, "c");
            assert_eq!(creator, addr(1));
        }
        other => panic!("unexpected {:?}", other),
    }
    let c = m.try_get_collection(CreatorAddress::new(&addr(1)), "c", &ws).unwrap();
    assert_eq!(c.collection_uri, "u1");
    // Another sender may use the same name.
    let ctx2 = Context::new(addr(2));
    assert!(m.create_collection("c", "u3", &ctx2, &mut ws).is_ok());
    let c2 = m.try_get_collection(CreatorAddress::new(&addr(2)), "c", &ws).unwrap();
    assert_eq!(c2.collection_uri, "u3");
    assert!(ws.events().is_empty());
}

#[test]
fn update_collection_replaces_uri() {
    let m = module();
    let mut ws = WorkingSet::new();
    let ctx = Context::new(addr(1));
    m.create_collection("c", "old", &ctx, &mut ws).unwrap();
    m.update_collection("c", "new", &ctx, &mut ws).unwrap();
    let c = m.try_get_collection(CreatorAddress::new(&addr(1)), "c", &ws).unwrap();
    assert_eq!(c.collection_uri, "new");
    assert_eq!(c.name, "c");
    assert_eq!(c.supply, 0);
    assert!(!c.frozen);
}

#[test]
fn update_missing_collection_is_refused() {
    let m = module();
    let mut ws = WorkingSet::new();
    let ctx = Context::new(addr(1));
    m.create_collection("c", "old", &ctx, &mut ws).unwrap();
    match m.update_collection("d", "new", &ctx, &mut ws) {
        Err(NftError::CollectionNotFound { collection_name, creator }) => {
            assert_eq!(collection_name, "d");
            assert_eq!(creator, addr(1));
        }
        other => panic!("unexpected {:?}", other),
    }
    // Only the creator's own collection is found.
    let ctx2 = Context::new(addr(2));
    assert!(matches!(
        m.update_collection("c", "new", &ctx2, &mut ws),
        Err(NftError::CollectionNotFound { .. })
    ));
    let c = m.try_get_collection(CreatorAddress::new(&addr(1)), "c", &ws).unwrap();
    assert_eq!(c.collection_uri, "old");
}

fn sample_collection(frozen: bool) -> Collection {
    Collection {
        collection_name: "c".to_string(),
        creator: CreatorAddress::new(&addr(3)),
        frozen,
        supply: 7,
        collection_uri: "u".to_string(),
    }
}

#[test]
fn frozen_collection_cannot_be_changed() {
    let state = CollectionState::Frozen(sample_collection(true));
    match state.get_mutable_or_bail() {
        Err(NftError::CollectionFrozen { collection_name, creator }) => {
            assert_eq!(collection_name, "c");
            assert_eq!(creator, addr(3));
        }
        other => panic!("unexpected {:?}", other),
    }
}

#[test]
fn mutable_collection_uri_can_be_set() {
    let mut map = CollectionMap::new();
    let ctx = Context::new(addr(3));
    let (address, collection) = Collection::new("c", "u", &map, &ctx).unwrap();
    assert_eq!(address, get_collection_address("c", &[3u8; 32]));
    map.set(&address, collection);
    let (found_address, state) = Collection::get_owned_collection("c", &map, &ctx).unwrap();
    assert_eq!(found_address, address);
    let mut mutable = state.get_mutable_or_bail().unwrap();
    mutable.set_collection_uri("v");
    assert_eq!(mutable.inner().collection_uri, "v");
    assert_eq!(mutable.inner().collection_name, "c");
    assert!(matches!(
        Collection::new("c", "w", &{
            let mut m2 = CollectionMap::new();
            m2.set(&address, mutable.inner().clone());
            m2
        }, &ctx),
        Err(NftError::CollectionAlreadyExists { .. })
    ));
}

#[test]
fn collection_map_get_and_set() {
    let mut map = CollectionMap::new();
    let a = CollectionAddress::new(&addr(9));
    let b = CollectionAddress::new(&addr(8));
    assert!(map.get(&a).is_none());
    map.set(&a, sample_collection(false));
    map.set(&b, sample_collection(true));
    assert!(!map.get(&a).unwrap().frozen);
    assert!(map.get(&b).unwrap().frozen);
    let mut replaced = sample_collection(false);
    replaced.supply = 1;
    map.set(&b, replaced);
    assert_eq!(map.get(&b).unwrap().supply, 1);
    assert_eq!(map.get(&a).unwrap().supply, 7);
}

#[test]
fn mint_transfer_burn() {
    let m = module();
    let mut ws = WorkingSet::new();
    let alice = Context::new(addr(1));
    let bob = Context::new(addr(2));
    assert_eq!(m.get_owner(5, &ws).owner, None);
    m.mint(5, &alice, &mut ws).unwrap();
    assert_eq!(m.get_owner(5, &ws).owner, Some(addr(1)));
    assert!(matches!(
        m.mint(5, &bob, &mut ws),
        Err(NftError::TokenAlreadyExists { id: 5 })
    ));
    assert!(matches!(
        m.transfer(5, addr(3), &bob, &mut ws),
        Err(NftError::OnlyOwnerCanTransfer)
    ));
    assert!(matches!(
        m.transfer(6, addr(3), &alice, &mut ws),
        Err(NftError::TokenDoesNotExist { id: 6 })
    ));
    m.transfer(5, addr(2), &alice, &mut ws).unwrap();
    assert_eq!(m.get_owner(5, &ws).owner, Some(addr(2)));
    assert!(matches!(m.burn(5, &alice, &mut ws), Err(NftError::OnlyOwnerCanBurn)));
    assert!(matches!(
        m.burn(7, &alice, &mut ws),
        Err(NftError::TokenDoesNotExist { id: 7 })
    ));
    m.burn(5, &bob, &mut ws).unwrap();
    assert_eq!(m.get_owner(5, &ws).owner, None);
    assert_eq!(
        ws.events(),
        &vec![
            NftEvent::Minted { id: 5 },
            NftEvent::Transferred { id: 5 },
            NftEvent::Burned { id: 5 }
        ]
    );
}

#[test]
fn burn_undoes_mint() {
    let m = module();
    let mut ws = WorkingSet::new();
    let alice = Context::new(addr(1));
    m.mint(1, &alice, &mut ws).unwrap();
    m.mint(2, &alice, &mut ws).unwrap();
    m.burn(2, &alice, &mut ws).unwrap();
    assert_eq!(m.get_owner(1, &ws).owner, Some(addr(1)));
    assert_eq!(m.get_owner(2, &ws).owner, None);
    // The id can be minted again after the burn.
    m.mint(2, &alice, &mut ws).unwrap();
    assert_eq!(m.get_owner(2, &ws).owner, Some(addr(1)));
}

#[test]
fn call_dispatches_messages() {
    let m = module();
    let mut ws = WorkingSet::new();
    let ctx = Context::new(addr(1));
    m.call(
        CallMessage::CreateCollection {
            collection_name: "c".to_string(),
            collection_uri: "u".to_string(),
        },
        &ctx,
        &mut ws,
    )
    .unwrap();
    assert!(matches!(
        m.call(
            CallMessage::CreateCollection {
                collection_name: "c".to_string(),
                collection_uri: "u".to_string(),
            },
            &ctx,
            &mut ws,
        ),
        Err(NftError::CollectionAlreadyExists { .. })
    ));
    m.call(
        CallMessage::UpdateCollection {
            collection_name: "c".to_string(),
            collection_uri: "v".to_string(),
        },
        &ctx,
        &mut ws,
    )
    .unwrap();
    assert_eq!(
        m.try_get_collection(CreatorAddress::new(&addr(1)), "c", &ws)
            .unwrap()
            .collection_uri,
        "v"
    );
    let accepted = vec![
        CallMessage::FreezeCollection { collection_name: "c".to_string() },
        CallMessage::MintNft {
            collection_name: "c".to_string(),
            token_id: "1".to_string(),
            owner: OwnerAddress::new(&addr(1)),
            frozen: false,
            token_uri: "t".to_string(),
        },
        CallMessage::UpdateNft {
            collection_name: "c".to_string(),
            token_id: "1".to_string(),
            frozen: Some(true),
            token_uri: None,
        },
        CallMessage::TransferNft {
            collection_address: get_collection_address("c", &[1u8; 32]),
            token_id: "1".to_string(),
            to: UserAddress::new(&addr(2)),
        },
        CallMessage::BurnNft { collection_name: "c".to_string(), token_id: "1".to_string() },
    ];
    for msg in accepted {
        assert!(m.call(msg, &ctx, &mut ws).is_ok());
    }
    // The accepted messages left the collection as it was.
    let c = m.try_get_collection(CreatorAddress::new(&addr(1)), "c", &ws).unwrap();
    assert!(!c.frozen);
    assert_eq!(c.supply, 0);
    assert_eq!(c.collection_uri, "v");
    assert_eq!(m.get_owner(1, &ws).owner, None);
    assert!(ws.events().is_empty());
}

#[test]
fn genesis_changes_nothing() {
    let m = module();
    let mut ws = WorkingSet::new();
    assert!(m.genesis(&NonFungibleTokenConfig {}, &mut ws).is_ok());
    assert!(m.init_module(&NonFungibleTokenConfig {}, &mut ws).is_ok());
    assert!(ws.events().is_empty());
    assert_eq!(m.get_owner(0, &ws).owner, None);
    assert_eq!(*m.address(), addr(0xee));
}

#[test]
fn address_equality_compares_all_bytes() {
    let mut bytes = [4u8; 32];
    assert_eq!(Address::new(bytes), Address::new([4u8; 32]));
    bytes[31] = 5;
    assert_ne!(Address::new(bytes), Address::new([4u8; 32]));
    bytes[31] = 4;
    bytes[0] = 0;
    assert_ne!(Address::new(bytes), Address::new([4u8; 32]));
    assert_eq!(Address::new(bytes).as_bytes(), &bytes);
}

#[test]
fn refused_calls_change_nothing() {
    let m = module();
    let mut ws = WorkingSet::new();
    let alice = Context::new(addr(1));
    let bob = Context::new(addr(2));
    m.create_collection("c", "u", &alice, &mut ws).unwrap();
    m.mint(3, &alice, &mut ws).unwrap();
    assert!(m.mint(3, &bob, &mut ws).is_err());
    assert!(m.transfer(3, addr(2), &bob, &mut ws).is_err());
    assert!(m.burn(3, &bob, &mut ws).is_err());
    assert!(m.create_collection("c", "other", &alice, &mut ws).is_err());
    assert!(m.update_collection("missing", "other", &alice, &mut ws).is_err());
    assert_eq!(m.get_owner(3, &ws).owner, Some(addr(1)));
    assert_eq!(ws.events(), &vec![NftEvent::Minted { id: 3 }]);
    let c = m.try_get_collection(CreatorAddress::new(&addr(1)), "c", &ws).unwrap();
    assert_eq!(c.collection_uri, "u");
}

fn sov_text(byte: u8) -> String {
    sov_modules_api::Address::from([byte; 32]).to_string()
}

#[test]
fn error_messages() {
    let e = NftError::CollectionAlreadyExists { collection_name: "c".to_string(), creator: addr(1) };
    assert_eq!(e.message(), format!("Collection with name: c already exsits create {}", sov_text(1)));
    assert_eq!(e.root_cause(), e.message());
    let e = NftError::CollectionNotFound { collection_name: "c".to_string(), creator: addr(1) };
    assert_eq!(e.message(), format!("Collection with name: c does not exist for creator {}", sov_text(1)));
    assert_eq!(e.root_cause(), "Collection not found");
    let e = NftError::CollectionFrozen { collection_name: "c".to_string(), creator: addr(2) };
    assert_eq!(e.message(), format!("Collection with name: c , creator: {} is frozen", sov_text(2)));
    assert_eq!(NftError::TokenAlreadyExists { id: 42 }.message(), "Token with id 42 already exists");
    assert_eq!(NftError::TokenDoesNotExist { id: 0 }.message(), "Token with id 0 does not exist");
    assert_eq!(NftError::OnlyOwnerCanTransfer.message(), "Only token owner can transfer token");
    assert_eq!(NftError::OnlyOwnerCanBurn.message(), "Only token owner can burn token");
}

#[test]
fn refused_mint_message() {
    let m = module();
    let mut ws = WorkingSet::new();
    let ctx = Context::new(addr(1));
    m.mint(9, &ctx, &mut ws).unwrap();
    let e = m.mint(9, &ctx, &mut ws).unwrap_err();
    assert_eq!(e.message(), "Token with id 9 already exists");
}

#[test]
fn event_keys_and_texts() {
    assert_eq!(NftEvent::Minted { id: 5 }.key(), "NFT mint");
    assert_eq!(NftEvent::Minted { id: 5 }.text(), "A token with id 5 was minted");
    assert_eq!(NftEvent::Transferred { id: 10 }.key(), "NFT transfer");
    assert_eq!(NftEvent::Transferred { id: 10 }.text(), "A token with id 10 was transferred");
    assert_eq!(NftEvent::Burned { id: u64::MAX }.key(), "NFT burn");
    assert_eq!(
        NftEvent::Burned { id: u64::MAX }.text(),
        "A token with id 18446744073709551615 was burned"
    );
}

#[test]
fn decimal_strings() {
    assert_eq!(sov_nft::text::decimal_string(0), "0");
    assert_eq!(sov_nft::text::decimal_string(7), "7");
    assert_eq!(sov_nft::text::decimal_string(10), "10");
    assert_eq!(sov_nft::text::decimal_string(1234567890), "1234567890");
}

#[test]
fn created_collection_and_minted_owner_survive_other_calls() {
    let m = module();
    let mut ws = WorkingSet::new();
    let alice = Context::new(addr(1));
    let bob = Context::new(addr(2));
    m.create_collection("c", "u", &alice, &mut ws).unwrap();
    m.mint(4, &alice, &mut ws).unwrap();
    m.create_collection("d", "x", &bob, &mut ws).unwrap();
    m.update_collection("d", "y", &bob, &mut ws).unwrap();
    m.mint(5, &bob, &mut ws).unwrap();
    m.transfer(5, addr(1), &bob, &mut ws).unwrap();
    assert!(m.mint(4, &bob, &mut ws).is_err());
    let c = m.try_get_collection(CreatorAddress::new(&addr(1)), "c", &ws).unwrap();
    assert_eq!(c.collection_uri, "u");
    assert_eq!(c.supply, 0);
    assert_eq!(m.get_owner(4, &ws).owner, Some(addr(1)));
}
