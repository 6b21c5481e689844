//! The NFT module's part of the rollup's genesis configuration.

use vstd::prelude::*;

verus! {

/// The NFT module's genesis configuration. The module starts with no
/// collections and no tokens, so it holds nothing.
#[derive(Debug, Clone, Copy)]
pub struct NonFungibleTokenConfig {}

} // verus!
