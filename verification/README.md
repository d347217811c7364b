# erdsea

The decision logic of the Erdsea smart contracts on Elrond, verified with
Verus: an NFT marketplace (fixed-price sales, offers, auctions, EGLD
deposits, royalties), an NFT staking pool with time-block rewards, a
minting template for NFT collections, a deployer of such templates and a
checkout contract.

Each contract's storage is a struct; each endpoint is a method that takes
the caller and the block's values (time, epoch, payment, token data) as
arguments, changes the storage, and returns what the chain must do next
(transfers, events, token creations) as a list of actions.  A refused call
returns its error and leaves the storage unchanged.  The endpoints that
only the contract's owner may call take the caller and the owner, and
refuse anyone else with `OnlyOwner` before any other check.  Each contract
also has an `upgrade` method: its deployment run again over existing
storage.

- `src/` — the verified library: one module per contract, plus `store`
  (a verified key-value storage map) and `types` (addresses, token
  identifiers).  Properties that span several endpoints are proved in the
  `laws` module of each contract, and at the end of `deployer.rs` and
  `pay_checkout.rs`.
- `tests/` — tests of the library on concrete values.
- `app/` — the chain-facing drivers: the reward split in floating point,
  token creation for mints and giveaways, the deployment call, the
  gas-bounded shuffle, listing events completed with the chain's data, and
  the answer to asynchronous calls.
