//! NFT staking: holders stake NFTs of stakable collections and share the
//! rewards disbursed per payout time block.

pub mod config;
pub mod contract;
pub mod diagnostics;
pub mod laws;
pub mod rewards;
pub mod stake;
pub mod storage;
pub mod utils;
pub mod validation;
