# sov_nft

An NFT module for a Sovereign SDK rollup, written in Verus.

- `src/` is the verified library: addresses, collections and the map that
  stores them, the module's storage (`state::WorkingSet`), its calls
  (`call.rs`, `NonFungibleToken::call`), its queries (`query.rs`), the
  genesis paths and the genesis token check (`genesis_config.rs`), and the
  laws that relate the calls (`laws.rs`).
- The collection address is the SHA-256 digest (the rollup hasher of
  `sov-modules-api`) of the creator's address followed by the collection
  name; `Path::join` builds the genesis file paths. Both are trusted calls,
  named in `utils.rs` and `genesis_config.rs`.
- `app/` is the node: logging, reading the genesis files, the runtime and the
  mock-DA rollup blueprint, and serde copies of the module's messages and
  responses.

Storage. The module's state is held in `state::WorkingSet` as plain maps
(collections by address, token owners by id) with an event log, rather than
in `sov_modules_api::StateMap`s behind its `WorkingSet`. What a `StateMap`
holds lives in the rollup's storage, which `WorkingSet` reads from disk
(prover storage, only with the `native` feature, whose macro crate cannot be
built here) or from witness hints (zk storage); neither is a function of
values that a contract could name. The calls' contracts are stated over the
maps, and every refused call leaves them unchanged. That each collection
sits at the address derived from its name and creator is a type invariant
of the storage.

Texts. The error messages (`NftError::message`, `NftError::root_cause`,
`GenesisError::message`) and the event keys and texts (`NftEvent::key`,
`NftEvent::text`) are verified against spec functions that spell them out;
addresses in them are written as `sov_modules_api::Address` displays them.
Genesis paths are joined by `Path::join`; `GenesisPaths` records the
target's separator, and where it is `/` the contract spells each path out.
