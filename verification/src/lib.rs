//! Verified decision logic of the Erdsea smart contracts: a marketplace for
//! NFTs with fixed-price sales, offers and auctions, an NFT staking pool, a
//! minting template for NFT collections, a template deployer and a checkout
//! contract.  Every endpoint is a transition on the contract's storage,
//! given the caller and the block values as arguments; what leaves the
//! contract (transfers, events) is returned as a list of actions.

pub mod types;
pub mod store;
pub mod marketplace;
pub mod staking;
pub mod nft_template;
pub mod deployer;
pub mod pay_checkout;
