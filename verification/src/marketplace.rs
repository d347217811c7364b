//! The NFT marketplace: fixed-price sales, offers, auctions, EGLD deposits
//! and royalties.

pub mod auction;
pub mod config;
pub mod contract;
pub mod deposit;
pub mod events;
pub mod global_op;
pub mod laws;
pub mod listing;
pub mod offers;
pub mod royalties;
pub mod storage;
pub mod utils;
pub mod validation;
pub mod views;

