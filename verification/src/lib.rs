//! An NFT module for a Sovereign rollup, with its state transitions
//! and queries verified against a map model of the module's storage.

pub mod address;
pub mod call;
pub mod call_laws;
pub mod collection;
pub mod context;
pub mod error;
pub mod genesis_config;
pub mod genesis;
pub mod laws;
pub mod mock_rollup;
pub mod nft;
pub mod query;
pub mod state;
pub mod text;
pub mod utils;

use vstd::prelude::*;

use crate::address::Address;
use crate::call::{call_outcome, CallMessage};
use crate::context::Context;
use crate::error::NftError;
use crate::genesis::NonFungibleTokenConfig;
use crate::state::WorkingSet;

verus! {

/// The NFT module: collections of NFTs and their tokens. Its storage is
/// the [`state::WorkingSet`] that each call is given.
#[derive(Debug, Clone, Copy)]
pub struct NonFungibleToken {
    address: Address,
}

impl NonFungibleToken {
    /// The module, deployed at `address`.
    pub fn new(address: Address) -> (res: NonFungibleToken)
        ensures
            res.spec_address() == address,
    {
        NonFungibleToken { address }
    }

    /// The address the module is deployed at.
    pub closed spec fn spec_address(&self) -> Address {
        self.address
    }

    /// The address the module is deployed at.
    pub fn address(&self) -> (res: &Address)
        ensures
            *res == self.spec_address(),
    {
        &self.address
    }

    /// Sets the module up when the rollup is deployed. The module starts
    /// empty, so nothing changes.
    pub fn genesis(&self, config: &NonFungibleTokenConfig, working_set: &mut WorkingSet) -> (res:
        Result<(), NftError>)
        ensures
            res is Ok,
            final(working_set)@ == old(working_set)@,
    {
        match self.init_module(config, working_set) {
            Ok(()) => Ok(()),
            Err(e) => Err(e),
        }
    }

    /// Handles the message `msg` sent in `context`.
    pub fn call(&self, msg: CallMessage, context: &Context, working_set: &mut WorkingSet) -> (res:
        Result<sov_modules_api::CallResponse, NftError>)
        ensures
            call_outcome(old(working_set)@, final(working_set)@, msg, context.spec_sender(), res),
    {
        let call_result = match msg {
            CallMessage::CreateCollection { collection_name, collection_uri } => self.create_collection(
                collection_name.as_str(),
                collection_uri.as_str(),
                context,
                working_set,
            ),
            CallMessage::UpdateCollection { collection_name, collection_uri } => self.update_collection(
                collection_name.as_str(),
                collection_uri.as_str(),
                context,
                working_set,
            ),
            CallMessage::FreezeCollection { collection_name } => {
                self.freeze_collection(collection_name.as_str(), context, working_set)
            },
            CallMessage::MintNft { collection_name, token_id, owner, frozen, token_uri } => self.mint_nft(
                collection_name.as_str(),
                token_id.as_str(),
                &owner,
                frozen,
                token_uri.as_str(),
                context,
                working_set,
            ),
            CallMessage::UpdateNft { collection_name, token_id, frozen, token_uri } => self.update_nft(
                collection_name.as_str(),
                token_id.as_str(),
                frozen,
                token_uri,
                context,
                working_set,
            ),
            CallMessage::TransferNft { collection_address, token_id, to } => self.transfer_nft(
                &collection_address,
                token_id.as_str(),
                &to,
                context,
                working_set,
            ),
            CallMessage::BurnNft { collection_name, token_id } => {
                self.burn_nft(collection_name.as_str(), token_id.as_str(), context, working_set)
            },
        };
        call_result
    }
}

} // verus!
