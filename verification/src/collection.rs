//! Collections of NFTs, the map that stores them by address, and the two
//! lookups that the module's calls start from.

use vstd::prelude::*;

use crate::address::{lemma_address_view_eq, CollectionAddress, CreatorAddress};
use crate::context::Context;
use crate::error::{NftError, NftErrorView};
use crate::utils::{collection_address_of, get_collection_address};

verus! {

/// A collection of NFTs.
#[derive(Debug)]
pub struct Collection {
    pub collection_name: String,
    pub creator: CreatorAddress,
    pub frozen: bool,
    pub supply: u64,
    pub collection_uri: String,
}

/// A [`Collection`] with its text and addresses as sequences.
pub struct CollectionView {
    pub collection_name: Seq<char>,
    pub creator: Seq<u8>,
    pub frozen: bool,
    pub supply: u64,
    pub collection_uri: Seq<char>,
}

impl View for Collection {
    type V = CollectionView;

    open spec fn view(&self) -> CollectionView {
        CollectionView {
            collection_name: self.collection_name@,
            creator: self.creator@,
            frozen: self.frozen,
            supply: self.supply,
            collection_uri: self.collection_uri@,
        }
    }
}

impl Clone for Collection {
    fn clone(&self) -> (res: Self)
        ensures
            res@ == self@,
    {
        Collection {
            collection_name: self.collection_name.clone(),
            creator: self.creator,
            frozen: self.frozen,
            supply: self.supply,
            collection_uri: self.collection_uri.clone(),
        }
    }
}

/// Entry `i` of `entries` is stored under the address `key`.
pub open spec fn entry_at(entries: Seq<(CollectionAddress, Collection)>, key: Seq<u8>, i: int) -> bool {
    0 <= i < entries.len() && entries[i].0@ == key
}

/// No address is stored twice in `entries`.
pub open spec fn unique_addresses(entries: Seq<(CollectionAddress, Collection)>) -> bool {
    forall|i: int, j: int|
        0 <= i < j < entries.len() ==> #[trigger] entries[i].0@ != #[trigger] entries[j].0@
}

/// The collections that `entries` stores, by address.
pub open spec fn entries_map(entries: Seq<(CollectionAddress, Collection)>) -> Map<
    Seq<u8>,
    CollectionView,
> {
    Map::new(
        |key: Seq<u8>| exists|i: int| entry_at(entries, key, i),
        |key: Seq<u8>| entries[choose|i: int| entry_at(entries, key, i)].1@,
    )
}

/// Where addresses are unique, the map holds each entry's collection under
/// its address.
proof fn lemma_entries_map_index(entries: Seq<(CollectionAddress, Collection)>, i: int)
    requires
        unique_addresses(entries),
        0 <= i < entries.len(),
    ensures
        entries_map(entries).contains_key(entries[i].0@),
        entries_map(entries)[entries[i].0@] == entries[i].1@,
{
    let key = entries[i].0@;
    assert(entry_at(entries, key, i));
    let j = choose|j: int| entry_at(entries, key, j);
    if j < i {
        assert(entries[j].0@ != entries[i].0@);
    } else if i < j {
        assert(entries[i].0@ != entries[j].0@);
    }
}

/// Replacing the entry stored under an address replaces the collection that
/// the map holds there.
proof fn lemma_entries_map_update(
    entries: Seq<(CollectionAddress, Collection)>,
    i: int,
    entry: (CollectionAddress, Collection),
)
    requires
        unique_addresses(entries),
        0 <= i < entries.len(),
        entries[i].0@ == entry.0@,
    ensures
        unique_addresses(entries.update(i, entry)),
        entries_map(entries.update(i, entry)) == entries_map(entries).insert(entry.0@, entry.1@),
{
    let updated = entries.update(i, entry);
    assert forall|a: int, b: int| 0 <= a < b < updated.len() implies #[trigger] updated[a].0@
        != #[trigger] updated[b].0@ by {
        assert(entries[a].0@ != entries[b].0@);
    }
    let lhs = entries_map(updated);
    let rhs = entries_map(entries).insert(entry.0@, entry.1@);
    assert forall|k: Seq<u8>| lhs.contains_key(k) <==> rhs.contains_key(k) by {
        if lhs.contains_key(k) {
            let j = choose|j: int| entry_at(updated, k, j);
            if j != i {
                assert(entry_at(entries, k, j));
            }
        }
        if rhs.contains_key(k) {
            if k == entry.0@ {
                assert(entry_at(updated, k, i));
            } else {
                let j = choose|j: int| entry_at(entries, k, j);
                assert(entry_at(updated, k, j));
            }
        }
    }
    assert forall|k: Seq<u8>| lhs.contains_key(k) implies lhs[k] == rhs[k] by {
        let j = choose|j: int| entry_at(updated, k, j);
        lemma_entries_map_index(updated, j);
        if j != i {
            lemma_entries_map_index(entries, j);
        }
    }
    assert(lhs =~= rhs);
}

/// Appending an entry under a new address adds its collection to the map.
proof fn lemma_entries_map_push(
    entries: Seq<(CollectionAddress, Collection)>,
    entry: (CollectionAddress, Collection),
)
    requires
        unique_addresses(entries),
        !entries_map(entries).contains_key(entry.0@),
    ensures
        unique_addresses(entries.push(entry)),
        entries_map(entries.push(entry)) == entries_map(entries).insert(entry.0@, entry.1@),
{
    let pushed = entries.push(entry);
    assert forall|a: int, b: int| 0 <= a < b < pushed.len() implies #[trigger] pushed[a].0@
        != #[trigger] pushed[b].0@ by {
        if b == entries.len() {
            if entries[a].0@ == entry.0@ {
                assert(entry_at(entries, entry.0@, a));
            }
        } else {
            assert(entries[a].0@ != entries[b].0@);
        }
    }
    let lhs = entries_map(pushed);
    let rhs = entries_map(entries).insert(entry.0@, entry.1@);
    assert forall|k: Seq<u8>| lhs.contains_key(k) <==> rhs.contains_key(k) by {
        if lhs.contains_key(k) {
            let j = choose|j: int| entry_at(pushed, k, j);
            if j < entries.len() {
                assert(entry_at(entries, k, j));
            }
        }
        if rhs.contains_key(k) {
            if k == entry.0@ {
                assert(entry_at(pushed, k, entries.len() as int));
            } else {
                let j = choose|j: int| entry_at(entries, k, j);
                assert(entry_at(pushed, k, j));
            }
        }
    }
    assert forall|k: Seq<u8>| lhs.contains_key(k) implies lhs[k] == rhs[k] by {
        let j = choose|j: int| entry_at(pushed, k, j);
        lemma_entries_map_index(pushed, j);
        if j < entries.len() {
            lemma_entries_map_index(entries, j);
        }
    }
    assert(lhs =~= rhs);
}

/// The stored collections, by collection address. No address occurs twice.
pub struct CollectionMap {
    entries: Vec<(CollectionAddress, Collection)>,
}

impl CollectionMap {
    /// No address is stored twice.
    #[verifier::type_invariant]
    spec fn wf(&self) -> bool {
        unique_addresses(self.entries@)
    }

    /// The stored collections, by collection address.
    pub closed spec fn view(&self) -> Map<Seq<u8>, CollectionView> {
        entries_map(self.entries@)
    }

    /// An empty map.
    pub fn new() -> (res: CollectionMap)
        ensures
            res.view() == Map::<Seq<u8>, CollectionView>::empty(),
    {
        let res = CollectionMap { entries: Vec::new() };
        assert(res.view() =~= Map::<Seq<u8>, CollectionView>::empty());
        res
    }

    /// Where `key` is stored, if it is.
    fn find(&self, key: &CollectionAddress) -> (res: Option<usize>)
        ensures
            res is None <==> !self.view().contains_key(key@),
            res matches Some(i) ==> entry_at(self.entries@, key@, i as int),
    {
        let mut i: usize = 0;
        while i < self.entries.len()
            invariant
                i <= self.entries@.len(),
                forall|j: int| 0 <= j < i ==> self.entries@[j].0@ != key@,
            decreases self.entries@.len() - i,
        {
            proof {
                lemma_address_view_eq(self.entries@[i as int].0.0, key.0);
            }
            if self.entries[i].0.0 == key.0 {
                assert(entry_at(self.entries@, key@, i as int));
                return Some(i);
            }
            i = i + 1;
        }
        None
    }

    /// The collection stored under `key`, if any.
    pub fn get(&self, key: &CollectionAddress) -> (res: Option<Collection>)
        ensures
            res is Some <==> self.view().contains_key(key@),
            res matches Some(c) ==> c@ == self.view()[key@],
    {
        proof {
            use_type_invariant(self);
        }
        match self.find(key) {
            Some(i) => {
                proof {
                    lemma_entries_map_index(self.entries@, i as int);
                }
                Some(self.entries[i].1.clone())
            },
            None => None,
        }
    }

    /// Stores `value` under `key`, in place of what was stored there.
    pub fn set(&mut self, key: &CollectionAddress, value: Collection)
        ensures
            final(self).view() == old(self).view().insert(key@, value@),
    {
        proof {
            use_type_invariant(&*self);
        }
        let ghost old_entries = self.entries@;
        let entry = (*key, value);
        match self.find(key) {
            Some(i) => {
                proof {
                    lemma_entries_map_update(old_entries, i as int, entry);
                }
                let mut entries = Vec::new();
                std::mem::swap(&mut entries, &mut self.entries);
                entries.set(i, entry);
                self.entries = entries;
            },
            None => {
                proof {
                    lemma_entries_map_push(old_entries, entry);
                }
                let mut entries = Vec::new();
                std::mem::swap(&mut entries, &mut self.entries);
                entries.push(entry);
                self.entries = entries;
            },
        }
    }
}

/// A stored collection, told apart by whether it can still be changed.
#[derive(Debug)]
pub enum CollectionState {
    Frozen(Collection),
    Mutable(MutableCollection),
}

/// A collection that is not frozen.
#[derive(Debug)]
pub struct MutableCollection(Collection);

impl View for MutableCollection {
    type V = CollectionView;

    closed spec fn view(&self) -> CollectionView {
        self.0@
    }
}

impl Clone for MutableCollection {
    fn clone(&self) -> (res: Self)
        ensures
            res@ == self@,
    {
        MutableCollection(self.0.clone())
    }
}

impl CollectionState {
    /// The collection, if it may be changed; the collection's name and
    /// creator in the error, if it is frozen.
    pub fn get_mutable_or_bail(&self) -> (res: Result<MutableCollection, NftError>)
        ensures
            match self {
                CollectionState::Frozen(c) => res matches Err(e) && e@
                    == (NftErrorView::CollectionFrozen {
                    collection_name: c.collection_name@,
                    creator: c.creator@,
                }),
                CollectionState::Mutable(m) => res matches Ok(r) && r@ == m@,
            },
    {
        match self {
            CollectionState::Frozen(collection) => Err(
                NftError::CollectionFrozen {
                    collection_name: collection.collection_name.clone(),
                    creator: collection.creator.0,
                },
            ),
            CollectionState::Mutable(collection) => Ok(collection.clone()),
        }
    }
}

impl MutableCollection {
    /// The collection.
    pub fn inner(&self) -> (res: &Collection)
        ensures
            res@ == self@,
    {
        &self.0
    }

    /// Sets the collection's URI; the rest stays.
    pub fn set_collection_uri(&mut self, collection_uri: &str)
        ensures
            final(self)@ == (CollectionView { collection_uri: collection_uri@, ..old(self)@ }),
    {
        self.0.collection_uri = collection_uri.to_string();
    }
}

/// A new collection, not frozen and with nothing minted.
pub open spec fn new_collection_view(
    collection_name: Seq<char>,
    creator: Seq<u8>,
    collection_uri: Seq<char>,
) -> CollectionView {
    CollectionView { collection_name, creator, frozen: false, supply: 0, collection_uri }
}

impl Collection {
    /// The collection that the sender of `context` would create under the
    /// name `collection_name`, with the address it is to be stored under;
    /// an error where the sender already has a collection of that name.
    pub fn new(
        collection_name: &str,
        collection_uri: &str,
        collections: &CollectionMap,
        context: &Context,
    ) -> (res: Result<(CollectionAddress, Collection), NftError>)
        ensures
            ({
                let sender = context.spec_sender()@;
                let address = collection_address_of(collection_name@, sender);
                &&& res is Err <==> collections.view().contains_key(address)
                &&& res matches Ok(r) ==> r.0@ == address && r.1@ == new_collection_view(
                    collection_name@,
                    sender,
                    collection_uri@,
                )
                &&& res matches Err(e) ==> e@ == (NftErrorView::CollectionAlreadyExists {
                    collection_name: collection_name@,
                    creator: sender,
                })
            }),
    {
        let creator = context.sender();
        let collection_address = get_collection_address(collection_name, creator.as_bytes());
        let collection = collections.get(&collection_address);
        if collection.is_some() {
            Err(
                NftError::CollectionAlreadyExists {
                    collection_name: collection_name.to_string(),
                    creator: *creator,
                },
            )
        } else {
            Ok(
                (
                    collection_address,
                    Collection {
                        collection_name: collection_name.to_string(),
                        creator: CreatorAddress::new(creator),
                        frozen: false,
                        supply: 0,
                        collection_uri: collection_uri.to_string(),
                    },
                ),
            )
        }
    }

    /// The collection named `collection_name` that the sender of `context`
    /// created, with its address, told apart by whether it is frozen; an
    /// error where the sender has no collection of that name.
    pub fn get_owned_collection(
        collection_name: &str,
        collections: &CollectionMap,
        context: &Context,
    ) -> (res: Result<(CollectionAddress, CollectionState), NftError>)
        ensures
            ({
                let sender = context.spec_sender()@;
                let address = collection_address_of(collection_name@, sender);
                &&& res is Ok <==> collections.view().contains_key(address)
                &&& res matches Ok(r) ==> r.0@ == address && match r.1 {
                    CollectionState::Frozen(c) => c@ == collections.view()[address]
                        && collections.view()[address].frozen,
                    CollectionState::Mutable(m) => m@ == collections.view()[address]
                        && !collections.view()[address].frozen,
                }
                &&& res matches Err(e) ==> e@ == (NftErrorView::CollectionNotFound {
                    collection_name: collection_name@,
                    creator: sender,
                })
            }),
    {
        let creator = context.sender();
        let collection_address = get_collection_address(collection_name, creator.as_bytes());
        let collection = collections.get(&collection_address);
        if let Some(collection) = collection {
            if collection.frozen {
                Ok((collection_address, CollectionState::Frozen(collection)))
            } else {
                Ok((collection_address, CollectionState::Mutable(MutableCollection(collection))))
            }
        } else {
            Err(
                NftError::CollectionNotFound {
                    collection_name: collection_name.to_string(),
                    creator: *creator,
                },
            )
        }
    }
}

} // verus!
