//! How a collection's address is derived from its name and creator.

use vstd::prelude::*;
use vstd::utf8::encode_utf8;

use crate::address::{Address, CollectionAddress};

verus! {

/// The SHA-256 digest of `data`, as the rollup's hasher computes it.
pub uninterp spec fn sha256(data: Seq<u8>) -> Seq<u8>;

/// Hashes `data` with the hasher of the rollup's contexts
/// (`<ZkDefaultContext as Spec>::Hasher`, which is `sha2::Sha256`), through
/// `Digest::digest`. Claimed: the digest is a function of `data` alone
/// (`sha256`).
#[verifier::external_body]
fn sha256_digest(data: &[u8]) -> (res: [u8; 32])
    ensures
        res@ == sha256(data@),
{
    <<sov_modules_api::default_context::ZkDefaultContext as sov_modules_api::Spec>::Hasher as sov_modules_api::digest::Digest>::digest(data).into()
}

/// The address of the collection named `collection_name` whose creator has
/// the address bytes `sender`: the digest of the creator's bytes followed by
/// the UTF-8 bytes of the name.
pub open spec fn collection_address_of(collection_name: Seq<char>, sender: Seq<u8>) -> Seq<u8> {
    sha256(sender + encode_utf8(collection_name))
}

/// The bytes of `first` followed by those of `second`.
fn concat_bytes(first: &[u8], second: &[u8]) -> (res: Vec<u8>)
    ensures
        res@ == first@ + second@,
{
    let mut res: Vec<u8> = Vec::new();
    let mut i: usize = 0;
    while i < first.len()
        invariant
            i <= first@.len(),
            res@ == first@.subrange(0, i as int),
        decreases first@.len() - i,
    {
        res.push(first[i]);
        i = i + 1;
    }
    let mut j: usize = 0;
    while j < second.len()
        invariant
            j <= second@.len(),
            res@ == first@ + second@.subrange(0, j as int),
        decreases second@.len() - j,
    {
        res.push(second[j]);
        j = j + 1;
    }
    assert(second@.subrange(0, second@.len() as int) =~= second@);
    res
}

/// The address of the collection named `collection_name` created by the
/// account whose address bytes are `sender`.
pub fn get_collection_address(collection_name: &str, sender: &[u8]) -> (res: CollectionAddress)
    ensures
        res@ == collection_address_of(collection_name@, sender@),
        res@ == sha256(sender@ + encode_utf8(collection_name@)),
{
    let data = concat_bytes(sender, collection_name.as_bytes());
    let hash: [u8; 32] = sha256_digest(data.as_slice());
    CollectionAddress::new(&Address::new(hash))
}

} // verus!
