//! Rollup addresses and the typed wrappers that the NFT module keys its
//! state by.

use vstd::prelude::*;
use vstd::std_specs::cmp::PartialEqSpecImpl;

verus! {

/// Number of bytes in a rollup address.
pub const ADDRESS_LEN: usize = 32;

/// A 32-byte rollup address.
#[derive(Clone, Copy, Debug)]
pub struct Address {
    pub bytes: [u8; 32],
}

impl View for Address {
    type V = Seq<u8>;

    open spec fn view(&self) -> Seq<u8> {
        self.bytes@
    }
}

impl Address {
    /// Creates an address holding the given bytes.
    pub fn new(bytes: [u8; 32]) -> (res: Address)
        ensures
            res.bytes == bytes,
    {
        Address { bytes }
    }

    /// The bytes of the address.
    pub fn as_bytes(&self) -> (res: &[u8; 32])
        ensures
            *res == self.bytes,
    {
        &self.bytes
    }
}

/// Two addresses are the same value exactly when their bytes read the same.
pub proof fn lemma_address_view_eq(a: Address, b: Address)
    ensures
        (a@ == b@) <==> (a == b),
{
    if a@ == b@ {
        assert forall|i: int| 0 <= i < 32 implies a.bytes[i] == b.bytes[i] by {
            assert(a.bytes@[i] == b.bytes@[i]);
        }
        assert(a.bytes =~= b.bytes);
    }
}

impl PartialEq for Address {
    fn eq(&self, other: &Self) -> (res: bool) {
        let mut i: usize = 0;
        while i < ADDRESS_LEN
            invariant
                i <= ADDRESS_LEN,
                forall|j: int| 0 <= j < i ==> self.bytes[j] == other.bytes[j],
            decreases ADDRESS_LEN - i,
        {
            if self.bytes[i] != other.bytes[i] {
                return false;
            }
            i = i + 1;
        }
        assert(self.bytes =~= other.bytes);
        true
    }
}

impl PartialEqSpecImpl for Address {
    open spec fn obeys_eq_spec() -> bool {
        true
    }

    open spec fn eq_spec(&self, other: &Address) -> bool {
        self.bytes == other.bytes
    }
}

impl Eq for Address {
}


/// The address under which a collection is stored.
#[derive(Clone, Copy, Debug, PartialEq, Eq)]
pub struct CollectionAddress(pub Address);

/// The address of the account that created a collection.
#[derive(Clone, Copy, Debug, PartialEq, Eq)]
pub struct CreatorAddress(pub Address);

/// The address of the account that owns a token.
#[derive(Clone, Copy, Debug, PartialEq, Eq)]
pub struct OwnerAddress(pub Address);

/// The address of a user account, such as the receiver of a transfer.
#[derive(Clone, Copy, Debug, PartialEq, Eq)]
pub struct UserAddress(pub Address);

impl View for CollectionAddress {
    type V = Seq<u8>;

    open spec fn view(&self) -> Seq<u8> {
        self.0@
    }
}

impl View for CreatorAddress {
    type V = Seq<u8>;

    open spec fn view(&self) -> Seq<u8> {
        self.0@
    }
}

impl View for OwnerAddress {
    type V = Seq<u8>;

    open spec fn view(&self) -> Seq<u8> {
        self.0@
    }
}

impl View for UserAddress {
    type V = Seq<u8>;

    open spec fn view(&self) -> Seq<u8> {
        self.0@
    }
}

impl CollectionAddress {
    /// The collection address that `address` stands for.
    pub fn new(address: &Address) -> (res: CollectionAddress)
        ensures
            res.0 == *address,
    {
        CollectionAddress(*address)
    }

    /// The address as bytes.
    pub fn as_bytes(&self) -> (res: &[u8; 32])
        ensures
            *res == self.0.bytes,
    {
        &self.0.bytes
    }
}

impl CreatorAddress {
    /// The creator address that `address` stands for.
    pub fn new(address: &Address) -> (res: CreatorAddress)
        ensures
            res.0 == *address,
    {
        CreatorAddress(*address)
    }

    /// The address as bytes.
    pub fn as_bytes(&self) -> (res: &[u8; 32])
        ensures
            *res == self.0.bytes,
    {
        &self.0.bytes
    }
}

impl OwnerAddress {
    /// The owner address that `address` stands for.
    pub fn new(address: &Address) -> (res: OwnerAddress)
        ensures
            res.0 == *address,
    {
        OwnerAddress(*address)
    }
}

impl UserAddress {
    /// The user address that `address` stands for.
    pub fn new(address: &Address) -> (res: UserAddress)
        ensures
            res.0 == *address,
    {
        UserAddress(*address)
    }
}

} // verus!
