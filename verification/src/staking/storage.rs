use vstd::prelude::*;

use crate::store::StoreKey;
use crate::types::{bytes_copy, bytes_eq, Address, TokenIdentifier};

verus! {

/// The addresses that have staked, in the order in which they first did.
pub struct StakedPool {
    pub array_staked_addresses: Vec<Address>,
}

impl StakedPool {
    pub fn new(array_staked_addresses: Vec<Address>) -> (r: StakedPool)
        ensures
            r.array_staked_addresses == array_staked_addresses,
    {
        StakedPool { array_staked_addresses }
    }
}

/// What is kept per staking address: the NFTs it ever staked, its reward
/// balance and when it last redeemed it.
pub struct StakedAddressNFTs {
    pub array_staked_nft_ids: Vec<NftId>,
    pub reward_balance: u128,
    pub last_withdraw_datetime: u64,
}

impl StakedAddressNFTs {
    pub fn new(
        array_staked_nft_ids: Vec<NftId>,
        reward_balance: u128,
        last_withdraw_datetime: u64,
    ) -> (r: StakedAddressNFTs)
        ensures
            r.array_staked_nft_ids == array_staked_nft_ids,
            r.reward_balance == reward_balance,
            r.last_withdraw_datetime == last_withdraw_datetime,
    {
        StakedAddressNFTs { array_staked_nft_ids, reward_balance, last_withdraw_datetime }
    }
}

/// A staked NFT: its weight, when it was staked (zero while it is not), and
/// the staked time accrued and not yet paid for.
#[derive(Clone, Copy, PartialEq, Eq, Structural, Debug)]
pub struct StakedNFT {
    pub weighted_factor: u128,
    pub staked_datetime: u64,
    pub rollover_balance: u64,
}

impl StakedNFT {
    pub fn new(weighted_factor: u128, staked_datetime: u64, rollover_balance: u64) -> (r:
        StakedNFT)
        ensures
            r == (StakedNFT { weighted_factor, staked_datetime, rollover_balance }),
    {
        StakedNFT { weighted_factor, staked_datetime, rollover_balance }
    }
}

/// An NFT: its collection's token identifier and its nonce.
pub struct NftId {
    pub token_id: TokenIdentifier,
    pub nonce: u64,
}

impl View for NftId {
    type V = (Seq<u8>, u64);

    open spec fn view(&self) -> (Seq<u8>, u64) {
        (self.token_id@, self.nonce)
    }
}

impl NftId {
    pub fn new(token_id: TokenIdentifier, nonce: u64) -> (r: NftId)
        ensures
            r@ == (token_id@, nonce),
    {
        NftId { token_id, nonce }
    }
}

impl StoreKey for NftId {
    fn same_key(&self, other: &Self) -> (r: bool) {
        self.nonce == other.nonce && bytes_eq(&self.token_id, &other.token_id)
    }

    fn copy_key(&self) -> (r: Self) {
        NftId { token_id: bytes_copy(&self.token_id), nonce: self.nonce }
    }
}

/// Where the staking state of an NFT is kept: by staking address and NFT.
pub struct StakeKey {
    pub address: Address,
    pub nft_id: NftId,
}

impl View for StakeKey {
    type V = (Address, (Seq<u8>, u64));

    open spec fn view(&self) -> (Address, (Seq<u8>, u64)) {
        (self.address, self.nft_id@)
    }
}

impl StakeKey {
    pub fn new(address: Address, nft_id: &NftId) -> (r: StakeKey)
        ensures
            r@ == (address, nft_id@),
    {
        StakeKey { address, nft_id: nft_id.copy_key() }
    }
}

impl StoreKey for StakeKey {
    fn same_key(&self, other: &Self) -> (r: bool) {
        self.address.same(&other.address) && self.nft_id.same_key(&other.nft_id)
    }

    fn copy_key(&self) -> (r: Self) {
        StakeKey { address: self.address, nft_id: self.nft_id.copy_key() }
    }
}

/// The payout block factors tallied for an address while rewards are
/// disbursed.
#[derive(Clone, Copy, PartialEq, Eq, Structural, Debug)]
pub struct StakedAddressPayoutTallyTracker {
    pub address: Address,
    pub payout_block_factor_tally: u64,
}

impl StakedAddressPayoutTallyTracker {
    pub fn new(address: Address, payout_block_factor_tally: u64) -> (r:
        StakedAddressPayoutTallyTracker)
        ensures
            r == (StakedAddressPayoutTallyTracker { address, payout_block_factor_tally }),
    {
        StakedAddressPayoutTallyTracker { address, payout_block_factor_tally }
    }
}

} // verus!
