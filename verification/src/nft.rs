//! Individual NFTs of a collection.

use vstd::prelude::*;

use crate::address::{CollectionAddress, OwnerAddress};

verus! {

/// The id of a token within its collection.
pub type TokenId = u64;

/// A token, by its id and the address of its collection.
#[derive(Debug, Clone, Copy)]
pub struct NftIdentifier(pub TokenId, pub CollectionAddress);

/// A token of a collection.
#[derive(Debug)]
pub struct Nft {
    token_id: TokenId,
    collection_address: CollectionAddress,
    owner: OwnerAddress,
    frozen: bool,
    token_uri: String,
}

} // verus!
