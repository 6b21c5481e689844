//! The calls that the NFT module accepts, and what each does to the
//! module's storage.

use vstd::prelude::*;

use crate::address::{Address, CollectionAddress, OwnerAddress, UserAddress};
use crate::collection::{new_collection_view, Collection, CollectionView};
use crate::context::Context;
use crate::error::{NftError, NftErrorView};
use crate::genesis::NonFungibleTokenConfig;
use crate::state::{NftEvent, StateView, WorkingSet};
use crate::utils::collection_address_of;
use crate::NonFungibleToken;

verus! {

/// The response of a successful call.
#[verifier::external_type_specification]
#[verifier::external_body]
pub struct ExCallResponse(sov_modules_api::CallResponse);

/// The response of a successful call, `CallResponse::default()` of
/// `sov_modules_api`. `CallResponse` has no fields, so there is nothing to
/// claim of it.
#[verifier::external_body]
fn call_response() -> sov_modules_api::CallResponse {
    sov_modules_api::CallResponse::default()
}

/// A message that a user sends to the NFT module.
#[derive(Debug)]
pub enum CallMessage {
    CreateCollection { collection_name: String, collection_uri: String },
    UpdateCollection { collection_name: String, collection_uri: String },
    FreezeCollection { collection_name: String },
    MintNft {
        collection_name: String,
        token_id: String,
        owner: OwnerAddress,
        frozen: bool,
        token_uri: String,
    },
    UpdateNft {
        collection_name: String,
        token_id: String,
        frozen: Option<bool>,
        token_uri: Option<String>,
    },
    TransferNft { collection_address: CollectionAddress, token_id: String, to: UserAddress },
    BurnNft { collection_name: String, token_id: String },
}

/// What `create_collection` does: where the sender has no collection of
/// that name, a new collection is stored at the address derived from the
/// name and the sender; else the call is refused and nothing changes.
pub open spec fn create_collection_outcome(
    before: StateView,
    after: StateView,
    collection_name: Seq<char>,
    collection_uri: Seq<char>,
    sender: Address,
    res: Result<sov_modules_api::CallResponse, NftError>,
) -> bool {
    let address = collection_address_of(collection_name, sender@);
    if before.collections.contains_key(address) {
        &&& res matches Err(e) && e@ == (NftErrorView::CollectionAlreadyExists {
            collection_name,
            creator: sender@,
        })
        &&& after == before
    } else {
        &&& res is Ok
        &&& after == (StateView {
            collections: before.collections.insert(
                address,
                new_collection_view(collection_name, sender@, collection_uri),
            ),
            ..before
        })
    }
}

/// What `update_collection` does: the URI of the sender's collection of that
/// name is replaced, where it exists and is not frozen; else the call is
/// refused and nothing changes.
pub open spec fn update_collection_outcome(
    before: StateView,
    after: StateView,
    collection_name: Seq<char>,
    collection_uri: Seq<char>,
    sender: Address,
    res: Result<sov_modules_api::CallResponse, NftError>,
) -> bool {
    let address = collection_address_of(collection_name, sender@);
    let stored = before.collections[address];
    if !before.collections.contains_key(address) {
        &&& res matches Err(e) && e@ == (NftErrorView::CollectionNotFound {
            collection_name,
            creator: sender@,
        })
        &&& after == before
    } else if stored.frozen {
        &&& res matches Err(e) && e@ == (NftErrorView::CollectionFrozen {
            collection_name: stored.collection_name,
            creator: stored.creator,
        })
        &&& after == before
    } else {
        &&& res is Ok
        &&& after == (StateView {
            collections: before.collections.insert(
                address,
                CollectionView { collection_uri, ..stored },
            ),
            ..before
        })
    }
}

/// What a call that is accepted and changes nothing does.
pub open spec fn no_op_outcome(
    before: StateView,
    after: StateView,
    res: Result<sov_modules_api::CallResponse, NftError>,
) -> bool {
    res is Ok && after == before
}

/// What `mint` does: where token `id` does not exist, the sender becomes its
/// owner and a mint event is emitted; else the call is refused and nothing
/// changes.
pub open spec fn mint_outcome(
    before: StateView,
    after: StateView,
    id: u64,
    sender: Address,
    res: Result<sov_modules_api::CallResponse, NftError>,
) -> bool {
    if before.owners.contains_key(id) {
        &&& res matches Err(e) && e@ == (NftErrorView::TokenAlreadyExists { id })
        &&& after == before
    } else {
        &&& res is Ok
        &&& after == (StateView {
            owners: before.owners.insert(id, sender),
            events: before.events.push(NftEvent::Minted { id }),
            ..before
        })
    }
}

/// What `transfer` does: where token `id` exists and the sender owns it,
/// `to` becomes its owner and a transfer event is emitted; else the call is
/// refused and nothing changes.
pub open spec fn transfer_outcome(
    before: StateView,
    after: StateView,
    id: u64,
    to: Address,
    sender: Address,
    res: Result<sov_modules_api::CallResponse, NftError>,
) -> bool {
    if !before.owners.contains_key(id) {
        &&& res matches Err(e) && e@ == (NftErrorView::TokenDoesNotExist { id })
        &&& after == before
    } else if before.owners[id] != sender {
        &&& res matches Err(e) && e@ == NftErrorView::OnlyOwnerCanTransfer
        &&& after == before
    } else {
        &&& res is Ok
        &&& after == (StateView {
            owners: before.owners.insert(id, to),
            events: before.events.push(NftEvent::Transferred { id }),
            ..before
        })
    }
}

/// What `burn` does: where token `id` exists and the sender owns it, the
/// token is deleted and a burn event is emitted; else the call is refused
/// and nothing changes.
pub open spec fn burn_outcome(
    before: StateView,
    after: StateView,
    id: u64,
    sender: Address,
    res: Result<sov_modules_api::CallResponse, NftError>,
) -> bool {
    if !before.owners.contains_key(id) {
        &&& res matches Err(e) && e@ == (NftErrorView::TokenDoesNotExist { id })
        &&& after == before
    } else if before.owners[id] != sender {
        &&& res matches Err(e) && e@ == NftErrorView::OnlyOwnerCanBurn
        &&& after == before
    } else {
        &&& res is Ok
        &&& after == (StateView {
            owners: before.owners.remove(id),
            events: before.events.push(NftEvent::Burned { id }),
            ..before
        })
    }
}

/// What a call with the message `msg` does: creating and updating a
/// collection as their calls do; every other message is accepted and
/// changes nothing.
pub open spec fn call_outcome(
    before: StateView,
    after: StateView,
    msg: CallMessage,
    sender: Address,
    res: Result<sov_modules_api::CallResponse, NftError>,
) -> bool {
    match msg {
        CallMessage::CreateCollection { collection_name, collection_uri } => {
            create_collection_outcome(
                before,
                after,
                collection_name@,
                collection_uri@,
                sender,
                res,
            )
        },
        CallMessage::UpdateCollection { collection_name, collection_uri } => {
            update_collection_outcome(
                before,
                after,
                collection_name@,
                collection_uri@,
                sender,
                res,
            )
        },
        _ => no_op_outcome(before, after, res),
    }
}

impl NonFungibleToken {
    /// Sets the module up at genesis. The module starts empty, so nothing
    /// changes.
    pub fn init_module(
        &self,
        _config: &NonFungibleTokenConfig,
        working_set: &mut WorkingSet,
    ) -> (res: Result<(), NftError>)
        ensures
            res is Ok,
            final(working_set)@ == old(working_set)@,
    {
        Ok(())
    }

    /// Creates a collection named `collection_name` for the sender.
    pub fn create_collection(
        &self,
        collection_name: &str,
        collection_uri: &str,
        context: &Context,
        working_set: &mut WorkingSet,
    ) -> (res: Result<sov_modules_api::CallResponse, NftError>)
        ensures
            create_collection_outcome(
                old(working_set)@,
                final(working_set)@,
                collection_name@,
                collection_uri@,
                context.spec_sender(),
                res,
            ),
    {
        let (collection_address, collection) = match Collection::new(
            collection_name,
            collection_uri,
            working_set.collections(),
            context,
        ) {
            Ok(created) => created,
            Err(e) => {
                return Err(e);
            },
        };
        working_set.set_collection(&collection_address, collection);
        Ok(call_response())
    }

    /// Replaces the URI of the sender's collection named `collection_name`.
    pub fn update_collection(
        &self,
        collection_name: &str,
        collection_uri: &str,
        context: &Context,
        working_set: &mut WorkingSet,
    ) -> (res: Result<sov_modules_api::CallResponse, NftError>)
        ensures
            update_collection_outcome(
                old(working_set)@,
                final(working_set)@,
                collection_name@,
                collection_uri@,
                context.spec_sender(),
                res,
            ),
    {
        let (collection_address, collection_state) = match Collection::get_owned_collection(
            collection_name,
            working_set.collections(),
            context,
        ) {
            Ok(found) => found,
            Err(e) => {
                return Err(e);
            },
        };
        let mut collection = match collection_state.get_mutable_or_bail() {
            Ok(collection) => collection,
            Err(e) => {
                return Err(e);
            },
        };
        collection.set_collection_uri(collection_uri);
        working_set.set_collection(&collection_address, collection.inner().clone());
        Ok(call_response())
    }

    /// Accepts a request to freeze a collection; nothing changes.
    pub fn freeze_collection(
        &self,
        collection_name: &str,
        context: &Context,
        working_set: &mut WorkingSet,
    ) -> (res: Result<sov_modules_api::CallResponse, NftError>)
        ensures
            *final(working_set) == *old(working_set),
            no_op_outcome(old(working_set)@, final(working_set)@, res),
    {
        Ok(call_response())
    }

    /// Accepts a request to mint an NFT of a collection; nothing changes.
    pub fn mint_nft(
        &self,
        collection_name: &str,
        token_id: &str,
        owner: &OwnerAddress,
        frozen: bool,
        token_uri: &str,
        context: &Context,
        working_set: &mut WorkingSet,
    ) -> (res: Result<sov_modules_api::CallResponse, NftError>)
        ensures
            *final(working_set) == *old(working_set),
            no_op_outcome(old(working_set)@, final(working_set)@, res),
    {
        Ok(call_response())
    }

    /// Accepts a request to update an NFT of a collection; nothing changes.
    pub fn update_nft(
        &self,
        collection_name: &str,
        token_id: &str,
        frozen: Option<bool>,
        token_uri: Option<String>,
        context: &Context,
        working_set: &mut WorkingSet,
    ) -> (res: Result<sov_modules_api::CallResponse, NftError>)
        ensures
            *final(working_set) == *old(working_set),
            no_op_outcome(old(working_set)@, final(working_set)@, res),
    {
        Ok(call_response())
    }

    /// Accepts a request to transfer an NFT of a collection; nothing changes.
    pub fn transfer_nft(
        &self,
        collection_address: &CollectionAddress,
        token_id: &str,
        to: &UserAddress,
        context: &Context,
        working_set: &mut WorkingSet,
    ) -> (res: Result<sov_modules_api::CallResponse, NftError>)
        ensures
            *final(working_set) == *old(working_set),
            no_op_outcome(old(working_set)@, final(working_set)@, res),
    {
        Ok(call_response())
    }

    /// Accepts a request to burn an NFT of a collection; nothing changes.
    pub fn burn_nft(
        &self,
        collection_name: &str,
        token_id: &str,
        context: &Context,
        working_set: &mut WorkingSet,
    ) -> (res: Result<sov_modules_api::CallResponse, NftError>)
        ensures
            *final(working_set) == *old(working_set),
            no_op_outcome(old(working_set)@, final(working_set)@, res),
    {
        Ok(call_response())
    }

    /// Mints token `id` for the sender.
    pub fn mint(&self, id: u64, context: &Context, working_set: &mut WorkingSet) -> (res: Result<
        sov_modules_api::CallResponse,
        NftError,
    >)
        ensures
            mint_outcome(old(working_set)@, final(working_set)@, id, context.spec_sender(), res),
    {
        if working_set.get_owner(id).is_some() {
            return Err(NftError::TokenAlreadyExists { id });
        }
        working_set.set_owner(id, context.sender());
        working_set.add_event(NftEvent::Minted { id });
        Ok(call_response())
    }

    /// Transfers token `id` from the sender to `to`.
    pub fn transfer(
        &self,
        id: u64,
        to: Address,
        context: &Context,
        working_set: &mut WorkingSet,
    ) -> (res: Result<sov_modules_api::CallResponse, NftError>)
        ensures
            transfer_outcome(
                old(working_set)@,
                final(working_set)@,
                id,
                to,
                context.spec_sender(),
                res,
            ),
    {
        let token_owner = match working_set.get_owner(id) {
            None => {
                return Err(NftError::TokenDoesNotExist { id });
            },
            Some(owner) => owner,
        };
        if !(token_owner == *context.sender()) {
            return Err(NftError::OnlyOwnerCanTransfer);
        }
        working_set.set_owner(id, &to);
        working_set.add_event(NftEvent::Transferred { id });
        Ok(call_response())
    }

    /// Burns token `id`, which the sender owns.
    pub fn burn(&self, id: u64, context: &Context, working_set: &mut WorkingSet) -> (res: Result<
        sov_modules_api::CallResponse,
        NftError,
    >)
        ensures
            burn_outcome(old(working_set)@, final(working_set)@, id, context.spec_sender(), res),
    {
        let token_owner = match working_set.get_owner(id) {
            None => {
                return Err(NftError::TokenDoesNotExist { id });
            },
            Some(owner) => owner,
        };
        if !(token_owner == *context.sender()) {
            return Err(NftError::OnlyOwnerCanBurn);
        }
        working_set.remove_owner(id);
        working_set.add_event(NftEvent::Burned { id });
        Ok(call_response())
    }
}

} // verus!
