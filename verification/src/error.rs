//! The ways in which a call of the NFT module can fail.

use vstd::prelude::*;

use crate::address::Address;
use crate::text::{address_display, address_text, decimal, decimal_string};

verus! {

/// Why a call of the NFT module was refused. A refused call changes nothing.
#[derive(Debug)]
pub enum NftError {
    /// The sender already created a collection of that name.
    CollectionAlreadyExists { collection_name: String, creator: Address },
    /// The sender created no collection of that name.
    CollectionNotFound { collection_name: String, creator: Address },
    /// The collection is frozen and cannot be changed.
    CollectionFrozen { collection_name: String, creator: Address },
    /// A token with that id has an owner already.
    TokenAlreadyExists { id: u64 },
    /// No token with that id exists.
    TokenDoesNotExist { id: u64 },
    /// Only the owner of a token can transfer it.
    OnlyOwnerCanTransfer,
    /// Only the owner of a token can burn it.
    OnlyOwnerCanBurn,
}

/// An [`NftError`] with its text and addresses as sequences.
pub enum NftErrorView {
    CollectionAlreadyExists { collection_name: Seq<char>, creator: Seq<u8> },
    CollectionNotFound { collection_name: Seq<char>, creator: Seq<u8> },
    CollectionFrozen { collection_name: Seq<char>, creator: Seq<u8> },
    TokenAlreadyExists { id: u64 },
    TokenDoesNotExist { id: u64 },
    OnlyOwnerCanTransfer,
    OnlyOwnerCanBurn,
}

impl View for NftError {
    type V = NftErrorView;

    open spec fn view(&self) -> NftErrorView {
        match self {
            NftError::CollectionAlreadyExists { collection_name, creator } => {
                NftErrorView::CollectionAlreadyExists {
                    collection_name: collection_name@,
                    creator: creator@,
                }
            },
            NftError::CollectionNotFound { collection_name, creator } => {
                NftErrorView::CollectionNotFound {
                    collection_name: collection_name@,
                    creator: creator@,
                }
            },
            NftError::CollectionFrozen { collection_name, creator } => {
                NftErrorView::CollectionFrozen {
                    collection_name: collection_name@,
                    creator: creator@,
                }
            },
            NftError::TokenAlreadyExists { id } => NftErrorView::TokenAlreadyExists { id: *id },
            NftError::TokenDoesNotExist { id } => NftErrorView::TokenDoesNotExist { id: *id },
            NftError::OnlyOwnerCanTransfer => NftErrorView::OnlyOwnerCanTransfer,
            NftError::OnlyOwnerCanBurn => NftErrorView::OnlyOwnerCanBurn,
        }
    }
}

/// The text that reports the error `e`.
pub open spec fn error_text(e: NftErrorView) -> Seq<char> {
    match e {
        NftErrorView::CollectionAlreadyExists { collection_name, creator } => "Collection with name: "@
            + collection_name + " already exsits create "@ + address_text(creator),
        NftErrorView::CollectionNotFound { collection_name, creator } => "Collection with name: "@
            + collection_name + " does not exist for creator "@ + address_text(creator),
        NftErrorView::CollectionFrozen { collection_name, creator } => "Collection with name: "@
            + collection_name + " , creator: "@ + address_text(creator) + " is frozen"@,
        NftErrorView::TokenAlreadyExists { id } => "Token with id "@ + decimal(id as nat)
            + " already exists"@,
        NftErrorView::TokenDoesNotExist { id } => "Token with id "@ + decimal(id as nat)
            + " does not exist"@,
        NftErrorView::OnlyOwnerCanTransfer => "Only token owner can transfer token"@,
        NftErrorView::OnlyOwnerCanBurn => "Only token owner can burn token"@,
    }
}

/// The text of the innermost cause of the error `e`: a missing collection
/// is caused by "Collection not found"; every other error is its own cause.
pub open spec fn root_cause_text(e: NftErrorView) -> Seq<char> {
    match e {
        NftErrorView::CollectionNotFound { .. } => "Collection not found"@,
        _ => error_text(e),
    }
}

impl NftError {
    /// The text that reports the error.
    pub fn message(&self) -> (res: String)
        ensures
            res@ == error_text(self@),
    {
        match self {
            NftError::CollectionAlreadyExists { collection_name, creator } => {
                let mut s = String::from_str("Collection with name: ");
                s.append(collection_name.as_str());
                s.append(" already exsits create ");
                s.append(address_display(creator).as_str());
                s
            },
            NftError::CollectionNotFound { collection_name, creator } => {
                let mut s = String::from_str("Collection with name: ");
                s.append(collection_name.as_str());
                s.append(" does not exist for creator ");
                s.append(address_display(creator).as_str());
                s
            },
            NftError::CollectionFrozen { collection_name, creator } => {
                let mut s = String::from_str("Collection with name: ");
                s.append(collection_name.as_str());
                s.append(" , creator: ");
                s.append(address_display(creator).as_str());
                s.append(" is frozen");
                s
            },
            NftError::TokenAlreadyExists { id } => {
                let mut s = String::from_str("Token with id ");
                s.append(decimal_string(*id).as_str());
                s.append(" already exists");
                s
            },
            NftError::TokenDoesNotExist { id } => {
                let mut s = String::from_str("Token with id ");
                s.append(decimal_string(*id).as_str());
                s.append(" does not exist");
                s
            },
            NftError::OnlyOwnerCanTransfer => String::from_str("Only token owner can transfer token"),
            NftError::OnlyOwnerCanBurn => String::from_str("Only token owner can burn token"),
        }
    }

    /// The text of the error's innermost cause.
    pub fn root_cause(&self) -> (res: String)
        ensures
            res@ == root_cause_text(self@),
    {
        match self {
            NftError::CollectionNotFound { .. } => String::from_str("Collection not found"),
            _ => self.message(),
        }
    }
}

} // verus!
