//! Read-only queries of the NFT module.

use vstd::prelude::*;
use vstd::utf8::encode_utf8;

use crate::address::{Address, CollectionAddress, CreatorAddress};
use crate::collection::CollectionView;
use crate::state::WorkingSet;
use crate::utils::{collection_address_of, get_collection_address, sha256};
use crate::NonFungibleToken;

verus! {

/// Response for the `getOwner` query.
#[derive(Debug, Clone, Copy)]
pub struct OwnerResponse {
    /// The owner of the token, where the token exists.
    pub owner: Option<Address>,
}

/// Response for the `getCollection` query.
#[derive(Debug)]
pub struct CollectionResponse {
    pub name: String,
    pub creator: CreatorAddress,
    pub frozen: bool,
    pub supply: u64,
    pub collection_uri: String,
}

/// Response for the `getCollectionAddress` query.
#[derive(Debug, Clone, Copy)]
pub struct CollectionAddressResponse {
    pub collection_address: CollectionAddress,
}

impl CollectionResponse {
    /// The response reports the collection `c`.
    pub open spec fn reports(&self, c: CollectionView) -> bool {
        &&& self.name@ == c.collection_name
        &&& self.creator@ == c.creator
        &&& self.frozen == c.frozen
        &&& self.supply == c.supply
        &&& self.collection_uri@ == c.collection_uri
    }
}

impl NonFungibleToken {
    /// The owner of token `token_id`, where it exists.
    pub fn get_owner(&self, token_id: u64, working_set: &WorkingSet) -> (res: OwnerResponse)
        ensures
            res.owner == (if working_set@.owners.contains_key(token_id) {
                Some(working_set@.owners[token_id])
            } else {
                None
            }),
    {
        OwnerResponse { owner: working_set.get_owner(token_id) }
    }

    /// The address of the collection named `collection_name` created by
    /// `creator`.
    pub fn get_collection_address(
        &self,
        creator: CreatorAddress,
        collection_name: &str,
        _working_set: &WorkingSet,
    ) -> (res: CollectionAddressResponse)
        ensures
            res.collection_address@ == collection_address_of(collection_name@, creator@),
            res.collection_address@ == sha256(creator@ + encode_utf8(collection_name@)),
    {
        let ca = get_collection_address(collection_name, creator.as_bytes());
        CollectionAddressResponse { collection_address: ca }
    }

    /// The collection named `collection_name` created by `creator`, which
    /// must exist.
    pub fn get_collection(
        &self,
        creator: CreatorAddress,
        collection_name: &str,
        working_set: &WorkingSet,
    ) -> (res: CollectionResponse)
        requires
            working_set@.collections.contains_key(
                collection_address_of(collection_name@, creator@),
            ),
        ensures
            res.reports(working_set@.collections[collection_address_of(collection_name@, creator@)]),
    {
        let collection_address = get_collection_address(collection_name, creator.as_bytes());
        let c = working_set.get_collection(&collection_address).unwrap();
        CollectionResponse {
            name: c.collection_name,
            creator: c.creator,
            frozen: c.frozen,
            supply: c.supply,
            collection_uri: c.collection_uri,
        }
    }

    /// The collection named `collection_name` created by `creator`, where it
    /// exists; `None` where it does not.
    pub fn try_get_collection(
        &self,
        creator: CreatorAddress,
        collection_name: &str,
        working_set: &WorkingSet,
    ) -> (res: Option<CollectionResponse>)
        ensures
            ({
                let address = collection_address_of(collection_name@, creator@);
                &&& res is Some <==> working_set@.collections.contains_key(address)
                &&& res matches Some(r) ==> r.reports(working_set@.collections[address])
            }),
    {
        let collection_address = get_collection_address(collection_name, creator.as_bytes());
        if working_set.get_collection(&collection_address).is_some() {
            Some(self.get_collection(creator, collection_name, working_set))
        } else {
            None
        }
    }
}

} // verus!
