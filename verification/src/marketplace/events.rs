use vstd::prelude::*;

use crate::types::Address;

verus! {

/// An event that the marketplace logs.  The token identifier and nonce of
/// the NFT concerned, the token's metadata and the transaction hash are the
/// endpoint's own and are logged beside these fields.
#[derive(Clone, Copy, PartialEq, Eq, Structural, Debug)]
pub enum MarketEvent {
    PutNftForSale { caller: Address, price: u128, royalties_percent: u64, timestamp: u64 },
    BuyNft { owner: Address, buyer: Address, price: u128, timestamp: u64 },
    WithdrawNft { owner: Address, price: u128, timestamp: u64 },
    DepositUpdate { address: Address, amount: u128 },
    MakeOffer { offeror: Address, amount: u128, expire: u64, timestamp: u64 },
    CancelOffer { owner: Address, amount: u128, timestamp: u64 },
    AcceptOffer { owner: Address, offeror: Address, amount: u128, timestamp: u64 },
    StartAuction {
        caller: Address,
        min_bid: u128,
        start_time: u64,
        deadline: u64,
        royalties_percent: u64,
        timestamp: u64,
    },
    PlaceBid { caller: Address, bid: u128, timestamp: u64 },
    EndAuction { caller: Address, winner: Address, bid: u128, timestamp: u64 },
}

/// The message sent along with an EGLD transfer.
#[derive(Clone, Copy, PartialEq, Eq, Structural, Debug)]
pub enum Memo {
    Empty,
    DaoCut,
    SellerCut,
}

/// What an endpoint asks the chain to do once it has succeeded.  The NFT
/// that a transfer moves is the one the endpoint was called for.
#[derive(Clone, Copy, PartialEq, Eq, Structural, Debug)]
pub enum MarketAction {
    /// Sends `amount` EGLD to `to`.
    SendEgld { to: Address, amount: u128, memo: Memo },
    /// Sends the NFT to `to`.
    SendNft { to: Address },
    /// Sells the NFT to `buyer` for `payment_amount` EGLD, the chain paying
    /// the token's royalties out of it.
    SellNft { buyer: Address, payment_amount: u128 },
    /// Logs an event.
    Log { event: MarketEvent },
}

} // verus!
