//! The minting template of an NFT collection: sales with a price, a
//! supply, a start time, a buyer whitelist and a shuffled order of images.

pub mod contract;
pub mod laws;
pub mod minting;
pub mod naming;
pub mod random;
pub mod whitelist;
