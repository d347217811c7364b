use vstd::prelude::*;

use crate::store::{Store, StoreKey};
use crate::types::{bytes_copy, bytes_eq, value_or, Address, TokenIdentifier};

verus! {

/// An NFT: its collection's token identifier and its nonce.
pub struct NftId {
    pub token_id: TokenIdentifier,
    pub nonce: u64,
}

impl View for NftId {
    type V = (Seq<u8>, u64);

    open spec fn view(&self) -> (Seq<u8>, u64) {
        (self.token_id@, self.nonce)
    }
}

impl NftId {
    pub fn new(token_id: TokenIdentifier, nonce: u64) -> (r: NftId)
        ensures
            r@ == (token_id@, nonce),
    {
        NftId { token_id, nonce }
    }
}

impl StoreKey for NftId {
    fn same_key(&self, other: &Self) -> (r: bool) {
        self.nonce == other.nonce && bytes_eq(&self.token_id, &other.token_id)
    }

    fn copy_key(&self) -> (r: Self) {
        NftId { token_id: bytes_copy(&self.token_id), nonce: self.nonce }
    }
}

/// A fixed-price listing.
#[derive(Clone, Copy, PartialEq, Eq, Structural, Debug)]
pub struct NftSaleInfo {
    pub owner: Address,
    pub price: u128,
    pub timestamp: u64,
}

impl NftSaleInfo {
    pub fn new(owner: Address, price: u128, timestamp: u64) -> (r: NftSaleInfo)
        ensures
            r == (NftSaleInfo { owner, price, timestamp }),
    {
        NftSaleInfo { owner, price, timestamp }
    }
}

/// An auction.  `highest_bidder` is the zero address while nobody has bid.
#[derive(Clone, Copy, PartialEq, Eq, Structural, Debug)]
pub struct AuctionInfo {
    pub owner: Address,
    pub min_bid: u128,
    pub start_time: u64,
    pub deadline: u64,
    pub created_at: u64,
    pub highest_bidder: Address,
    pub bid: u128,
}

impl AuctionInfo {
    pub fn new(
        owner: Address,
        min_bid: u128,
        start_time: u64,
        deadline: u64,
        created_at: u64,
        highest_bidder: Address,
        bid: u128,
    ) -> (r: AuctionInfo)
        ensures
            r == (AuctionInfo {
                owner,
                min_bid,
                start_time,
                deadline,
                created_at,
                highest_bidder,
                bid,
            }),
    {
        AuctionInfo { owner, min_bid, start_time, deadline, created_at, highest_bidder, bid }
    }
}

/// An offer of `amount` for an NFT, valid until `expire`.
#[derive(Clone, Copy, PartialEq, Eq, Structural, Debug)]
pub struct Offer {
    pub amount: u128,
    pub expire: u64,
}

impl Offer {
    pub fn new(amount: u128, expire: u64) -> (r: Offer)
        ensures
            r == (Offer { amount, expire }),
    {
        Offer { amount, expire }
    }

    pub fn default() -> (r: Offer)
        ensures
            r == (Offer { amount: 0, expire: 0 }),
    {
        Offer { amount: 0, expire: 0 }
    }
}

/// Where an offer is stored: by offeror, NFT and the time at which the NFT
/// was listed, so that offers made on an earlier listing do not carry over.
pub struct OfferKey {
    pub offeror: Address,
    pub nft_id: NftId,
    pub list_timestamp: u64,
}

impl View for OfferKey {
    type V = (Address, (Seq<u8>, u64), u64);

    open spec fn view(&self) -> (Address, (Seq<u8>, u64), u64) {
        (self.offeror, self.nft_id@, self.list_timestamp)
    }
}

impl OfferKey {
    pub fn new(offeror: Address, nft_id: &NftId, list_timestamp: u64) -> (r: OfferKey)
        ensures
            r@ == (offeror, nft_id@, list_timestamp),
    {
        OfferKey { offeror, nft_id: nft_id.copy_key(), list_timestamp }
    }
}

impl StoreKey for OfferKey {
    fn same_key(&self, other: &Self) -> (r: bool) {
        self.offeror.same(&other.offeror) && self.list_timestamp == other.list_timestamp
            && self.nft_id.same_key(&other.nft_id)
    }

    fn copy_key(&self) -> (r: Self) {
        OfferKey {
            offeror: self.offeror,
            nft_id: self.nft_id.copy_key(),
            list_timestamp: self.list_timestamp,
        }
    }
}

/// The amount a map of balances holds for `a`: zero where nothing is stored.
pub open spec fn balance(m: Map<Address, u128>, a: Address) -> u128 {
    value_or(m, a, 0u128)
}

/// Reads a balance: zero where nothing is stored, as an empty storage entry
/// reads.
pub fn get_balance(s: &Store<Address, u128>, a: &Address) -> (r: u128)
    requires
        s.wf(),
    ensures
        r == balance(s.view(), *a),
{
    match s.get(a) {
        Some(v) => *v,
        None => 0,
    }
}

/// Reads an epoch: zero where nothing is stored.
pub fn get_epoch(s: &Store<Address, u64>, a: &Address) -> (r: u64)
    requires
        s.wf(),
    ensures
        r == value_or(s.view(), *a, 0u64),
{
    match s.get(a) {
        Some(v) => *v,
        None => 0,
    }
}

/// Reads a flag: false where nothing is stored.
pub fn get_flag(s: &Store<Address, bool>, a: &Address) -> (r: bool)
    requires
        s.wf(),
    ensures
        r == value_or(s.view(), *a, false),
{
    match s.get(a) {
        Some(v) => *v,
        None => false,
    }
}

} // verus!
