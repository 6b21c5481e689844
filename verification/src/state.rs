//! The storage that the NFT module's calls read and write, and the events
//! that they emit.

use std::collections::HashMap;

use vstd::prelude::*;

use crate::address::{Address, CollectionAddress};
use crate::collection::{Collection, CollectionMap, CollectionView};
use crate::nft::{Nft, NftIdentifier};
use crate::text::{decimal, decimal_string};
use crate::utils::collection_address_of;

verus! {

broadcast use vstd::std_specs::hash::group_hash_axioms;

/// An event that a call of the NFT module emits.
#[derive(Debug, Clone, Copy, PartialEq, Eq, Structural)]
pub enum NftEvent {
    /// A token with this id was minted.
    Minted { id: u64 },
    /// A token with this id was transferred.
    Transferred { id: u64 },
    /// A token with this id was burned.
    Burned { id: u64 },
}

/// The key under which the rollup records the event `e`.
pub open spec fn event_key(e: NftEvent) -> Seq<char> {
    match e {
        NftEvent::Minted { .. } => "NFT mint"@,
        NftEvent::Transferred { .. } => "NFT transfer"@,
        NftEvent::Burned { .. } => "NFT burn"@,
    }
}

/// The text with which the rollup records the event `e`.
pub open spec fn event_text(e: NftEvent) -> Seq<char> {
    match e {
        NftEvent::Minted { id } => "A token with id "@ + decimal(id as nat) + " was minted"@,
        NftEvent::Transferred { id } => "A token with id "@ + decimal(id as nat)
            + " was transferred"@,
        NftEvent::Burned { id } => "A token with id "@ + decimal(id as nat) + " was burned"@,
    }
}

impl NftEvent {
    /// The key under which the event is recorded.
    pub fn key(&self) -> (res: &'static str)
        ensures
            res@ == event_key(*self),
    {
        match self {
            NftEvent::Minted { .. } => "NFT mint",
            NftEvent::Transferred { .. } => "NFT transfer",
            NftEvent::Burned { .. } => "NFT burn",
        }
    }

    /// The text with which the event is recorded.
    pub fn text(&self) -> (res: String)
        ensures
            res@ == event_text(*self),
    {
        let (id, action) = match self {
            NftEvent::Minted { id } => (*id, " was minted"),
            NftEvent::Transferred { id } => (*id, " was transferred"),
            NftEvent::Burned { id } => (*id, " was burned"),
        };
        let mut s = String::from_str("A token with id ");
        s.append(decimal_string(id).as_str());
        s.append(action);
        s
    }
}

/// The NFT module's storage, with the events emitted so far.
pub struct WorkingSet {
    collections: CollectionMap,
    nfts: Vec<(NftIdentifier, Nft)>,
    admin: Option<Address>,
    owners: HashMap<u64, Address>,
    events: Vec<NftEvent>,
}

/// The contents of a [`WorkingSet`].
pub struct StateView {
    /// The collections, by collection address.
    pub collections: Map<Seq<u8>, CollectionView>,
    /// The owner of each token, by token id.
    pub owners: Map<u64, Address>,
    /// The stored tokens of collections.
    pub nfts: Seq<(NftIdentifier, Nft)>,
    /// The module's administrator, where one is set.
    pub admin: Option<Address>,
    /// The events emitted so far, oldest first.
    pub events: Seq<NftEvent>,
}

/// Every stored collection sits at the address derived from its own name and
/// creator.
pub open spec fn collections_at_own_addresses(collections: Map<Seq<u8>, CollectionView>) -> bool {
    forall|key: Seq<u8>|
        #[trigger] collections.contains_key(key) ==> key == collection_address_of(
            collections[key].collection_name,
            collections[key].creator,
        )
}

impl View for WorkingSet {
    type V = StateView;

    closed spec fn view(&self) -> StateView {
        StateView {
            collections: self.collections.view(),
            owners: self.owners@,
            nfts: self.nfts@,
            admin: self.admin,
            events: self.events@,
        }
    }
}

impl WorkingSet {
    /// Every collection sits at the address derived from its name and
    /// creator.
    #[verifier::type_invariant]
    spec fn wf(&self) -> bool {
        collections_at_own_addresses(self.collections.view())
    }

    /// Empty storage: no collections, no tokens, no administrator, no events.
    pub fn new() -> (res: WorkingSet)
        ensures
            res@.collections == Map::<Seq<u8>, CollectionView>::empty(),
            res@.owners == Map::<u64, Address>::empty(),
            res@.nfts == Seq::<(NftIdentifier, Nft)>::empty(),
            res@.admin is None,
            res@.events == Seq::<NftEvent>::empty(),
    {
        WorkingSet {
            collections: CollectionMap::new(),
            nfts: Vec::new(),
            admin: None,
            owners: HashMap::new(),
            events: Vec::new(),
        }
    }

    /// The stored collections. Every one sits at the address derived from
    /// its own name and creator.
    pub fn collections(&self) -> (res: &CollectionMap)
        ensures
            res.view() == self@.collections,
            collections_at_own_addresses(self@.collections),
    {
        proof {
            use_type_invariant(self);
        }
        &self.collections
    }

    /// The collection stored under `address`, if any.
    pub fn get_collection(&self, address: &CollectionAddress) -> (res: Option<Collection>)
        ensures
            res is Some <==> self@.collections.contains_key(address@),
            res matches Some(c) ==> c@ == self@.collections[address@],
    {
        self.collections.get(address)
    }

    /// Stores `collection` under `address`, which is derived from its name
    /// and creator; nothing else changes.
    pub fn set_collection(&mut self, address: &CollectionAddress, collection: Collection)
        requires
            address@ == collection_address_of(collection@.collection_name, collection@.creator),
        ensures
            final(self)@ == (StateView {
                collections: old(self)@.collections.insert(address@, collection@),
                ..old(self)@
            }),
    {
        proof {
            use_type_invariant(&*self);
            let m = self.collections.view().insert(address@, collection@);
            assert forall|key: Seq<u8>| #[trigger] m.contains_key(key) implies key
                == collection_address_of(m[key].collection_name, m[key].creator) by {
                if key != address@ {
                    assert(self.collections.view().contains_key(key));
                }
            }
        }
        let mut collections = CollectionMap::new();
        std::mem::swap(&mut collections, &mut self.collections);
        collections.set(address, collection);
        self.collections = collections;
    }

    /// The owner of token `id`, if it exists.
    pub fn get_owner(&self, id: u64) -> (res: Option<Address>)
        ensures
            res is Some <==> self@.owners.contains_key(id),
            res matches Some(a) ==> a == self@.owners[id],
    {
        match self.owners.get(&id) {
            Some(owner) => Some(*owner),
            None => None,
        }
    }

    /// Makes `owner` the owner of token `id`; nothing else changes.
    pub fn set_owner(&mut self, id: u64, owner: &Address)
        ensures
            final(self)@ == (StateView { owners: old(self)@.owners.insert(id, *owner), ..old(self)@ }),
    {
        proof {
            use_type_invariant(&*self);
        }
        let mut owners = HashMap::new();
        std::mem::swap(&mut owners, &mut self.owners);
        owners.insert(id, *owner);
        self.owners = owners;
    }

    /// Deletes token `id`; nothing else changes.
    pub fn remove_owner(&mut self, id: u64)
        ensures
            final(self)@ == (StateView { owners: old(self)@.owners.remove(id), ..old(self)@ }),
    {
        proof {
            use_type_invariant(&*self);
        }
        let mut owners = HashMap::new();
        std::mem::swap(&mut owners, &mut self.owners);
        owners.remove(&id);
        self.owners = owners;
    }

    /// Emits `event`; nothing else changes.
    pub fn add_event(&mut self, event: NftEvent)
        ensures
            final(self)@ == (StateView { events: old(self)@.events.push(event), ..old(self)@ }),
    {
        proof {
            use_type_invariant(&*self);
        }
        let mut events = Vec::new();
        std::mem::swap(&mut events, &mut self.events);
        events.push(event);
        self.events = events;
    }

    /// The events emitted so far, oldest first.
    pub fn events(&self) -> (res: &Vec<NftEvent>)
        ensures
            res@ == self@.events,
    {
        &self.events
    }
}

} // verus!
