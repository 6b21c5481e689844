//! When each call of the NFT module succeeds, and what it then stores, stated
//! directly over the call's inputs.

use vstd::prelude::*;
use vstd::utf8::encode_utf8;

use crate::address::Address;
use crate::call::{
    burn_outcome, call_outcome, create_collection_outcome, mint_outcome, transfer_outcome,
    update_collection_outcome, CallMessage,
};
use crate::error::{NftError, NftErrorView};
use crate::state::{NftEvent, StateView};
use crate::utils::{collection_address_of, sha256};

verus! {

/// A collection's address is the SHA-256 digest of the creator's bytes
/// followed by all the UTF-8 bytes of the collection's name.
pub proof fn law_collection_address_hashes_sender_then_whole_name(
    collection_name: Seq<char>,
    sender: Seq<u8>,
)
    ensures
        collection_address_of(collection_name, sender) == sha256(
            sender + encode_utf8(collection_name),
        ),
{
}

/// Creating a collection succeeds exactly when the sender has no collection
/// at the address derived from the name. On success the collection stored
/// there has the given name and URI, the sender as creator, is not frozen
/// and has nothing minted; every other collection, every token and the
/// events stay. On refusal the error names the collection and the sender,
/// and nothing changes.
pub proof fn law_create_collection(
    before: StateView,
    after: StateView,
    collection_name: Seq<char>,
    collection_uri: Seq<char>,
    sender: Address,
    res: Result<sov_modules_api::CallResponse, NftError>,
)
    requires
        create_collection_outcome(before, after, collection_name, collection_uri, sender, res),
    ensures
        ({
            let address = collection_address_of(collection_name, sender@);
            &&& res is Ok <==> !before.collections.contains_key(address)
            &&& res is Ok ==> {
                &&& after.collections.contains_key(address)
                &&& after.collections[address].collection_name == collection_name
                &&& after.collections[address].collection_uri == collection_uri
                &&& after.collections[address].creator == sender@
                &&& !after.collections[address].frozen
                &&& after.collections[address].supply == 0
                &&& forall|other: Seq<u8>|
                    other != address ==> after.collections.contains_key(other)
                        == before.collections.contains_key(other) && after.collections[other]
                        == before.collections[other]
                &&& after.owners == before.owners
                &&& after.events == before.events
            }
            &&& res matches Err(e) ==> e@ == (NftErrorView::CollectionAlreadyExists {
                collection_name,
                creator: sender@,
            }) && after == before
        }),
{
}

/// Updating a collection succeeds exactly when the sender's collection of
/// that name exists and is not frozen, whatever the new URI. On success its
/// URI is the new one and its name, creator, frozen flag and supply stay;
/// every other collection, every token and the events stay. A missing
/// collection is refused as not found, a frozen one as frozen, and then
/// nothing changes.
pub proof fn law_update_collection(
    before: StateView,
    after: StateView,
    collection_name: Seq<char>,
    collection_uri: Seq<char>,
    sender: Address,
    res: Result<sov_modules_api::CallResponse, NftError>,
)
    requires
        update_collection_outcome(before, after, collection_name, collection_uri, sender, res),
    ensures
        ({
            let address = collection_address_of(collection_name, sender@);
            let stored = before.collections[address];
            &&& res is Ok <==> before.collections.contains_key(address) && !stored.frozen
            &&& res is Ok ==> {
                &&& after.collections.contains_key(address)
                &&& after.collections[address].collection_uri == collection_uri
                &&& after.collections[address].collection_name == stored.collection_name
                &&& after.collections[address].creator == stored.creator
                &&& after.collections[address].frozen == stored.frozen
                &&& after.collections[address].supply == stored.supply
                &&& forall|other: Seq<u8>|
                    other != address ==> after.collections.contains_key(other)
                        == before.collections.contains_key(other) && after.collections[other]
                        == before.collections[other]
                &&& after.owners == before.owners
                &&& after.events == before.events
            }
            &&& !before.collections.contains_key(address) ==> (res matches Err(e) && e@
                == (NftErrorView::CollectionNotFound { collection_name, creator: sender@ }))
            &&& before.collections.contains_key(address) && stored.frozen ==> (res matches Err(e)
                && e@ == (NftErrorView::CollectionFrozen {
                collection_name: stored.collection_name,
                creator: stored.creator,
            }))
            &&& res is Err ==> after == before
        }),
{
}

/// Minting succeeds exactly when the token does not exist. On success the
/// sender owns it, every other token keeps its owner, one mint event of
/// that id is added, and the collections stay. A minted token is refused as
/// already existing, and nothing changes.
pub proof fn law_mint(
    before: StateView,
    after: StateView,
    id: u64,
    sender: Address,
    res: Result<sov_modules_api::CallResponse, NftError>,
)
    requires
        mint_outcome(before, after, id, sender, res),
    ensures
        res is Ok <==> !before.owners.contains_key(id),
        res is Ok ==> {
            &&& after.owners.contains_key(id)
            &&& after.owners[id] == sender
            &&& forall|other: u64|
                other != id ==> after.owners.contains_key(other) == before.owners.contains_key(
                    other,
                ) && after.owners[other] == before.owners[other]
            &&& after.events == before.events.push(NftEvent::Minted { id })
            &&& after.collections == before.collections
        },
        res is Err ==> (res matches Err(e) && e@ == (NftErrorView::TokenAlreadyExists { id }))
            && after == before,
{
}

/// Transferring succeeds exactly when the token exists and the sender owns
/// it. On success `to` owns it, every other token keeps its owner, one
/// transfer event of that id is added, and the collections stay. A missing
/// token is refused as not existing, another's token as not the sender's,
/// and then nothing changes.
pub proof fn law_transfer(
    before: StateView,
    after: StateView,
    id: u64,
    to: Address,
    sender: Address,
    res: Result<sov_modules_api::CallResponse, NftError>,
)
    requires
        transfer_outcome(before, after, id, to, sender, res),
    ensures
        res is Ok <==> before.owners.contains_key(id) && before.owners[id] == sender,
        res is Ok ==> {
            &&& after.owners.contains_key(id)
            &&& after.owners[id] == to
            &&& forall|other: u64|
                other != id ==> after.owners.contains_key(other) == before.owners.contains_key(
                    other,
                ) && after.owners[other] == before.owners[other]
            &&& after.events == before.events.push(NftEvent::Transferred { id })
            &&& after.collections == before.collections
        },
        !before.owners.contains_key(id) ==> (res matches Err(e) && e@
            == (NftErrorView::TokenDoesNotExist { id })),
        before.owners.contains_key(id) && before.owners[id] != sender ==> (res matches Err(e)
            && e@ == NftErrorView::OnlyOwnerCanTransfer),
        res is Err ==> after == before,
{
}

/// Burning succeeds exactly when the token exists and the sender owns it.
/// On success the token no longer exists, every other token keeps its
/// owner, one burn event of that id is added, and the collections stay. A
/// missing token is refused as not existing, another's token as not the
/// sender's, and then nothing changes.
pub proof fn law_burn(
    before: StateView,
    after: StateView,
    id: u64,
    sender: Address,
    res: Result<sov_modules_api::CallResponse, NftError>,
)
    requires
        burn_outcome(before, after, id, sender, res),
    ensures
        res is Ok <==> before.owners.contains_key(id) && before.owners[id] == sender,
        res is Ok ==> {
            &&& !after.owners.contains_key(id)
            &&& forall|other: u64|
                other != id ==> after.owners.contains_key(other) == before.owners.contains_key(
                    other,
                ) && after.owners[other] == before.owners[other]
            &&& after.events == before.events.push(NftEvent::Burned { id })
            &&& after.collections == before.collections
        },
        !before.owners.contains_key(id) ==> (res matches Err(e) && e@
            == (NftErrorView::TokenDoesNotExist { id })),
        before.owners.contains_key(id) && before.owners[id] != sender ==> (res matches Err(e)
            && e@ == NftErrorView::OnlyOwnerCanBurn),
        res is Err ==> after == before,
{
}

/// A `CreateCollection` message sent to `call` creates the collection named
/// in the message with the message's URI: it succeeds exactly when the
/// sender has no collection at the address derived from that name, and
/// then the collection stored there has the message's name and URI, the
/// sender as creator, is not frozen and has nothing minted.
pub proof fn law_call_create_collection(
    before: StateView,
    after: StateView,
    msg: CallMessage,
    sender: Address,
    res: Result<sov_modules_api::CallResponse, NftError>,
)
    requires
        call_outcome(before, after, msg, sender, res),
        msg is CreateCollection,
    ensures
        ({
            let name = msg->CreateCollection_collection_name@;
            let uri = msg->CreateCollection_collection_uri@;
            let address = collection_address_of(name, sender@);
            &&& res is Ok <==> !before.collections.contains_key(address)
            &&& res is Ok ==> {
                &&& after.collections.contains_key(address)
                &&& after.collections[address].collection_name == name
                &&& after.collections[address].collection_uri == uri
                &&& after.collections[address].creator == sender@
                &&& !after.collections[address].frozen
                &&& after.collections[address].supply == 0
                &&& after.owners == before.owners
                &&& after.events == before.events
            }
            &&& res is Err ==> after == before
        }),
{
}

/// An `UpdateCollection` message sent to `call` gives the sender's
/// collection of the name in the message the message's URI: it succeeds
/// exactly when that collection exists and is not frozen, and then the
/// collection's URI is the message's and the rest of it stays.
pub proof fn law_call_update_collection(
    before: StateView,
    after: StateView,
    msg: CallMessage,
    sender: Address,
    res: Result<sov_modules_api::CallResponse, NftError>,
)
    requires
        call_outcome(before, after, msg, sender, res),
        msg is UpdateCollection,
    ensures
        ({
            let name = msg->UpdateCollection_collection_name@;
            let uri = msg->UpdateCollection_collection_uri@;
            let address = collection_address_of(name, sender@);
            let stored = before.collections[address];
            &&& res is Ok <==> before.collections.contains_key(address) && !stored.frozen
            &&& res is Ok ==> {
                &&& after.collections.contains_key(address)
                &&& after.collections[address].collection_uri == uri
                &&& after.collections[address].collection_name == stored.collection_name
                &&& after.collections[address].creator == stored.creator
                &&& after.collections[address].frozen == stored.frozen
                &&& after.collections[address].supply == stored.supply
                &&& after.owners == before.owners
                &&& after.events == before.events
            }
            &&& res is Err ==> after == before
        }),
{
}

/// Every other message sent to `call` is accepted and changes nothing.
pub proof fn law_call_other_messages(
    before: StateView,
    after: StateView,
    msg: CallMessage,
    sender: Address,
    res: Result<sov_modules_api::CallResponse, NftError>,
)
    requires
        call_outcome(before, after, msg, sender, res),
        !(msg is CreateCollection),
        !(msg is UpdateCollection),
    ensures
        res is Ok,
        after == before,
{
}

} // verus!
