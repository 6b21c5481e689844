//! What holds of the NFT module across its calls and queries.

use vstd::prelude::*;

use crate::address::Address;
use crate::call::{
    burn_outcome, call_outcome, create_collection_outcome, mint_outcome, transfer_outcome,
    update_collection_outcome, CallMessage,
};
use crate::collection::{new_collection_view, CollectionView};
use crate::error::NftError;
use crate::state::{collections_at_own_addresses, NftEvent, StateView};
use crate::utils::collection_address_of;

verus! {

/// A refused call changes nothing: whatever the message, where `call`
/// returns an error the storage and the events are as they were.
pub proof fn law_refused_call_changes_nothing(
    before: StateView,
    after: StateView,
    msg: CallMessage,
    sender: Address,
    res: Result<sov_modules_api::CallResponse, NftError>,
)
    requires
        call_outcome(before, after, msg, sender, res),
        res is Err,
    ensures
        after == before,
{
}

/// A refused mint, transfer or burn changes nothing.
pub proof fn law_refused_token_call_changes_nothing(
    before: StateView,
    after: StateView,
    id: u64,
    to: Address,
    sender: Address,
    res: Result<sov_modules_api::CallResponse, NftError>,
)
    requires
        mint_outcome(before, after, id, sender, res) || transfer_outcome(
            before,
            after,
            id,
            to,
            sender,
            res,
        ) || burn_outcome(before, after, id, sender, res),
        res is Err,
    ensures
        after == before,
{
}

/// After a collection is created, it is found at the address derived from
/// its name and the sender: with that name, the sender as creator, not
/// frozen, nothing minted, and the given URI. No other collection changes.
pub proof fn law_created_collection_is_found(
    before: StateView,
    after: StateView,
    collection_name: Seq<char>,
    collection_uri: Seq<char>,
    sender: Address,
    res: Result<sov_modules_api::CallResponse, NftError>,
)
    requires
        create_collection_outcome(before, after, collection_name, collection_uri, sender, res),
        res is Ok,
    ensures
        ({
            let address = collection_address_of(collection_name, sender@);
            &&& !before.collections.contains_key(address)
            &&& after.collections.contains_key(address)
            &&& after.collections[address] == new_collection_view(
                collection_name,
                sender@,
                collection_uri,
            )
            &&& forall|other: Seq<u8>|
                other != address ==> after.collections.contains_key(other)
                    == before.collections.contains_key(other) && after.collections[other]
                    == before.collections[other]
        }),
{
}

/// A sender cannot create two collections of the same name: once the first
/// is created, a second creation is refused and changes nothing.
pub proof fn law_collection_created_once(
    s0: StateView,
    s1: StateView,
    s2: StateView,
    collection_name: Seq<char>,
    uri1: Seq<char>,
    uri2: Seq<char>,
    sender: Address,
    res1: Result<sov_modules_api::CallResponse, NftError>,
    res2: Result<sov_modules_api::CallResponse, NftError>,
)
    requires
        create_collection_outcome(s0, s1, collection_name, uri1, sender, res1),
        res1 is Ok,
        create_collection_outcome(s1, s2, collection_name, uri2, sender, res2),
    ensures
        res2 is Err,
        s2 == s1,
{
}

/// After an accepted update, the sender's collection of that name has the
/// new URI, and its name, creator, frozen flag and supply are as before.
pub proof fn law_updated_collection_is_found(
    before: StateView,
    after: StateView,
    collection_name: Seq<char>,
    collection_uri: Seq<char>,
    sender: Address,
    res: Result<sov_modules_api::CallResponse, NftError>,
)
    requires
        update_collection_outcome(before, after, collection_name, collection_uri, sender, res),
        res is Ok,
    ensures
        ({
            let address = collection_address_of(collection_name, sender@);
            &&& before.collections.contains_key(address)
            &&& !before.collections[address].frozen
            &&& after.collections.contains_key(address)
            &&& after.collections[address] == (CollectionView {
                collection_uri,
                ..before.collections[address]
            })
        }),
{
}

/// After an accepted mint the sender owns the token and a mint event was
/// emitted; no other token changes.
pub proof fn law_minted_token_is_owned_by_sender(
    before: StateView,
    after: StateView,
    id: u64,
    sender: Address,
    res: Result<sov_modules_api::CallResponse, NftError>,
)
    requires
        mint_outcome(before, after, id, sender, res),
        res is Ok,
    ensures
        !before.owners.contains_key(id),
        after.owners.contains_key(id),
        after.owners[id] == sender,
        after.events == before.events.push(NftEvent::Minted { id }),
        forall|other: u64|
            other != id ==> after.owners.contains_key(other) == before.owners.contains_key(other)
                && after.owners[other] == before.owners[other],
{
}

/// Only the owner can transfer a token; after an accepted transfer the
/// receiver owns it and a transfer event was emitted; no other token
/// changes.
pub proof fn law_transferred_token_is_owned_by_receiver(
    before: StateView,
    after: StateView,
    id: u64,
    to: Address,
    sender: Address,
    res: Result<sov_modules_api::CallResponse, NftError>,
)
    requires
        transfer_outcome(before, after, id, to, sender, res),
        res is Ok,
    ensures
        before.owners.contains_key(id),
        before.owners[id] == sender,
        after.owners.contains_key(id),
        after.owners[id] == to,
        after.events == before.events.push(NftEvent::Transferred { id }),
        forall|other: u64|
            other != id ==> after.owners.contains_key(other) == before.owners.contains_key(other)
                && after.owners[other] == before.owners[other],
{
}

/// Only the owner can burn a token; after an accepted burn the token no
/// longer exists and a burn event was emitted; no other token changes.
pub proof fn law_burned_token_is_gone(
    before: StateView,
    after: StateView,
    id: u64,
    sender: Address,
    res: Result<sov_modules_api::CallResponse, NftError>,
)
    requires
        burn_outcome(before, after, id, sender, res),
        res is Ok,
    ensures
        before.owners.contains_key(id),
        before.owners[id] == sender,
        !after.owners.contains_key(id),
        after.events == before.events.push(NftEvent::Burned { id }),
        forall|other: u64|
            other != id ==> after.owners.contains_key(other) == before.owners.contains_key(other)
                && after.owners[other] == before.owners[other],
{
}

/// A burn by the minter undoes a mint: the owners, collections, tokens and
/// administrator are as before the mint; only the two events remain.
pub proof fn law_burn_undoes_mint(
    s0: StateView,
    s1: StateView,
    s2: StateView,
    id: u64,
    sender: Address,
    res1: Result<sov_modules_api::CallResponse, NftError>,
    res2: Result<sov_modules_api::CallResponse, NftError>,
)
    requires
        mint_outcome(s0, s1, id, sender, res1),
        res1 is Ok,
        burn_outcome(s1, s2, id, sender, res2),
    ensures
        res2 is Ok,
        s2.owners == s0.owners,
        s2.collections == s0.collections,
        s2.nfts == s0.nfts,
        s2.admin == s0.admin,
        s2.events == s0.events.push(NftEvent::Minted { id }).push(NftEvent::Burned { id }),
{
    assert(s2.owners =~= s0.owners);
}

/// No collection is frozen and none has minted tokens.
pub open spec fn all_collections_open_and_empty(collections: Map<Seq<u8>, CollectionView>) -> bool {
    forall|key: Seq<u8>|
        #[trigger] collections.contains_key(key) ==> !collections[key].frozen
            && collections[key].supply == 0
}

/// No call freezes a collection or mints into one: where no collection is
/// frozen or has minted tokens before a call, none is after it. So from
/// empty storage an update is never refused for a frozen collection.
pub proof fn law_collections_stay_open_and_empty(
    before: StateView,
    after: StateView,
    msg: CallMessage,
    sender: Address,
    res: Result<sov_modules_api::CallResponse, NftError>,
)
    requires
        call_outcome(before, after, msg, sender, res),
        all_collections_open_and_empty(before.collections),
    ensures
        all_collections_open_and_empty(after.collections),
{
    assert forall|key: Seq<u8>| #[trigger] after.collections.contains_key(key) implies !after.collections[
        key
    ].frozen && after.collections[key].supply == 0 by {
        if before.collections.contains_key(key) {
            assert(!before.collections[key].frozen && before.collections[key].supply == 0);
        }
    }
}

/// One operation on the module: a message handled by `call`, or a mint,
/// transfer or burn of a token.
pub enum Op {
    Call { msg: CallMessage, sender: Address },
    Mint { id: u64, sender: Address },
    Transfer { id: u64, to: Address, sender: Address },
    Burn { id: u64, sender: Address },
}

/// What the operation `op` does, as its function's contract states.
pub open spec fn op_outcome(
    before: StateView,
    after: StateView,
    op: Op,
    res: Result<sov_modules_api::CallResponse, NftError>,
) -> bool {
    match op {
        Op::Call { msg, sender } => call_outcome(before, after, msg, sender, res),
        Op::Mint { id, sender } => mint_outcome(before, after, id, sender, res),
        Op::Transfer { id, to, sender } => transfer_outcome(before, after, id, to, sender, res),
        Op::Burn { id, sender } => burn_outcome(before, after, id, sender, res),
    }
}

/// `states` are the states of a run of the operations `ops`, which gave
/// `results`: operation `i` leads from state `i` to state `i + 1`.
pub open spec fn is_run(
    states: Seq<StateView>,
    ops: Seq<Op>,
    results: Seq<Result<sov_modules_api::CallResponse, NftError>>,
) -> bool {
    &&& states.len() == ops.len() + 1
    &&& results.len() == ops.len()
    &&& forall|i: int|
        0 <= i < ops.len() ==> op_outcome(states[i], states[i + 1], #[trigger] ops[i], results[i])
}

/// The operation is an update of the collection stored at `address`.
pub open spec fn updates_collection_at(op: Op, address: Seq<u8>) -> bool {
    op matches Op::Call { msg: CallMessage::UpdateCollection { collection_name, .. }, sender }
        && collection_address_of(collection_name@, sender@) == address
}

/// The operation transfers or burns token `id`.
pub open spec fn moves_token(op: Op, id: u64) -> bool {
    ||| op matches Op::Transfer { id: moved, .. } && moved == id
    ||| op matches Op::Burn { id: burned, .. } && burned == id
}

/// Every operation keeps each collection at the address derived from its
/// own name and creator: where that holds before, it holds after.
pub proof fn law_collections_stay_at_own_addresses(
    before: StateView,
    after: StateView,
    op: Op,
    res: Result<sov_modules_api::CallResponse, NftError>,
)
    requires
        op_outcome(before, after, op, res),
        collections_at_own_addresses(before.collections),
    ensures
        collections_at_own_addresses(after.collections),
{
    assert forall|key: Seq<u8>| #[trigger] after.collections.contains_key(key) implies key
        == collection_address_of(
        after.collections[key].collection_name,
        after.collections[key].creator,
    ) by {
        if before.collections.contains_key(key) && after.collections[key]
            == before.collections[key] {
        } else {
            assert(before.collections.contains_key(key) ==> key == collection_address_of(
                before.collections[key].collection_name,
                before.collections[key].creator,
            ));
        }
    }
}

proof fn lemma_collection_kept(
    states: Seq<StateView>,
    ops: Seq<Op>,
    results: Seq<Result<sov_modules_api::CallResponse, NftError>>,
    address: Seq<u8>,
    collection: CollectionView,
    j: int,
)
    requires
        is_run(states, ops, results),
        0 <= j <= ops.len(),
        states[0].collections.contains_key(address),
        states[0].collections[address] == collection,
        forall|i: int| 0 <= i < ops.len() ==> !updates_collection_at(#[trigger] ops[i], address),
    ensures
        states[j].collections.contains_key(address),
        states[j].collections[address] == collection,
    decreases j,
{
    if j > 0 {
        lemma_collection_kept(states, ops, results, address, collection, j - 1);
        let op = ops[j - 1];
        assert(op_outcome(states[j - 1], states[j], op, results[j - 1]));
        assert(!updates_collection_at(op, address));
    }
}

/// A created collection is read back, unchanged, after any run of later
/// operations that does not update the collection at its address.
pub proof fn law_created_collection_read_back(
    before: StateView,
    collection_name: Seq<char>,
    collection_uri: Seq<char>,
    sender: Address,
    res: Result<sov_modules_api::CallResponse, NftError>,
    states: Seq<StateView>,
    ops: Seq<Op>,
    results: Seq<Result<sov_modules_api::CallResponse, NftError>>,
)
    requires
        create_collection_outcome(before, states[0], collection_name, collection_uri, sender, res),
        res is Ok,
        is_run(states, ops, results),
        forall|i: int|
            0 <= i < ops.len() ==> !updates_collection_at(
                #[trigger] ops[i],
                collection_address_of(collection_name, sender@),
            ),
    ensures
        ({
            let address = collection_address_of(collection_name, sender@);
            &&& states.last().collections.contains_key(address)
            &&& states.last().collections[address] == new_collection_view(
                collection_name,
                sender@,
                collection_uri,
            )
        }),
{
    let address = collection_address_of(collection_name, sender@);
    lemma_collection_kept(
        states,
        ops,
        results,
        address,
        new_collection_view(collection_name, sender@, collection_uri),
        ops.len() as int,
    );
}

proof fn lemma_owner_kept(
    states: Seq<StateView>,
    ops: Seq<Op>,
    results: Seq<Result<sov_modules_api::CallResponse, NftError>>,
    id: u64,
    owner: Address,
    j: int,
)
    requires
        is_run(states, ops, results),
        0 <= j <= ops.len(),
        states[0].owners.contains_key(id),
        states[0].owners[id] == owner,
        forall|i: int| 0 <= i < ops.len() ==> !moves_token(#[trigger] ops[i], id),
    ensures
        states[j].owners.contains_key(id),
        states[j].owners[id] == owner,
    decreases j,
{
    if j > 0 {
        lemma_owner_kept(states, ops, results, id, owner, j - 1);
        let op = ops[j - 1];
        assert(op_outcome(states[j - 1], states[j], op, results[j - 1]));
        assert(!moves_token(op, id));
    }
}

/// The minter of a token is reported as its owner after any run of later
/// operations that neither transfers nor burns that token.
pub proof fn law_minted_owner_read_back(
    before: StateView,
    id: u64,
    sender: Address,
    res: Result<sov_modules_api::CallResponse, NftError>,
    states: Seq<StateView>,
    ops: Seq<Op>,
    results: Seq<Result<sov_modules_api::CallResponse, NftError>>,
)
    requires
        mint_outcome(before, states[0], id, sender, res),
        res is Ok,
        is_run(states, ops, results),
        forall|i: int| 0 <= i < ops.len() ==> !moves_token(#[trigger] ops[i], id),
    ensures
        states.last().owners.contains_key(id),
        states.last().owners[id] == sender,
{
    lemma_owner_kept(states, ops, results, id, sender, ops.len() as int);
}

} // verus!
