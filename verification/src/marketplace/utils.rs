use vstd::prelude::*;

use super::config::{BP, DEFAULT_FEE_PERCENT, ROYALTIES_MAX_FEE_PERCENT};
use super::contract::MarketplaceContract;
use super::events::{MarketAction, Memo};
use super::storage::{AuctionInfo, NftId};
use super::validation::MarketError;
use crate::types::Address;

verus! {

/// What the chain reports of an NFT that the contract holds: its creator,
/// its royalties in basis points and its URIs.
pub struct TokenData {
    pub creator: Address,
    pub royalties: u64,
    pub uris: Vec<Vec<u8>>,
}

impl TokenData {
    /// Royalties of an ESDT token never exceed the whole.
    pub open spec fn wf(&self) -> bool {
        self.royalties <= BP
    }
}

/// `percent` basis points of `amount`, rounded down.
pub open spec fn percent_of(amount: int, percent: int) -> int {
    amount * percent / (BP as int)
}

proof fn lemma_percent_split(amount: int, percent: int)
    requires
        0 <= amount,
        0 <= percent <= BP,
    ensures
        percent_of(amount, percent) == (amount / (BP as int)) * percent + (amount % (BP as int))
            * percent / (BP as int),
        (amount / (BP as int)) * percent <= amount,
        (amount % (BP as int)) * percent < (BP as int) * (BP as int),
{
    let b = BP as int;
    let q = amount / b;
    let r = amount % b;
    vstd::arithmetic::div_mod::lemma_fundamental_div_mod(amount, b);
    assert(0 <= r < b);
    assert(0 <= q);
    assert(amount * percent == b * (q * percent) + r * percent) by (nonlinear_arith)
        requires
            amount == b * q + r,
    ;
    let y = r * percent;
    assert(0 <= y) by (nonlinear_arith)
        requires
            0 <= r,
            0 <= percent,
            y == r * percent,
    ;
    vstd::arithmetic::div_mod::lemma_fundamental_div_mod(y, b);
    assert(0 <= y % b < b);
    assert(b * (q * percent) + y == b * (q * percent + y / b) + y % b) by (nonlinear_arith)
        requires
            y == b * (y / b) + y % b,
    ;
    vstd::arithmetic::div_mod::lemma_div_multiples_vanish_fancy(q * percent + y / b, y % b, b);
    assert(q * percent <= amount) by (nonlinear_arith)
        requires
            0 <= q,
            0 <= percent <= b,
            amount == b * q + r,
            0 <= r,
    ;
    assert(r * percent < b * b) by (nonlinear_arith)
        requires
            0 <= r < b,
            0 <= percent <= b,
            0 < b,
    ;
}

/// `percent` basis points of `amount`, rounded down, computed without
/// leaving the range of `u128`.
pub fn apply_percent(amount: u128, percent: u64) -> (r: u128)
    requires
        percent <= BP,
    ensures
        r == percent_of(amount as int, percent as int),
        r <= amount,
{
    proof {
        lemma_percent_split(amount as int, percent as int);
    }
    let q = amount / 10_000;
    let rem = amount % 10_000;
    let p = percent as u128;
    let whole = q * p;
    let part = rem * p / 10_000;
    proof {
        assert(part <= rem) by (nonlinear_arith)
            requires
                part == rem * p / 10_000,
                p <= 10_000,
        ;
        assert(whole + part <= amount) by (nonlinear_arith)
            requires
                whole == q * p,
                p <= 10_000,
                q == amount / 10_000,
                rem == amount % 10_000,
                part <= rem * p / 10_000,
                part <= rem,
        ;
    }
    whole + part
}

impl MarketplaceContract {
    /// The platform fee in force: the stored one, or the default where none
    /// is stored.
    pub open spec fn platform_fee_or_default(&self) -> u64 {
        if self.platform_fee_percent != 0 {
            self.platform_fee_percent
        } else {
            DEFAULT_FEE_PERCENT
        }
    }

    /// The highest royalties percentage in force.
    pub open spec fn royalties_max_or_default(&self) -> u64 {
        if self.royalties_max_fee_percent != 0 {
            self.royalties_max_fee_percent
        } else {
            ROYALTIES_MAX_FEE_PERCENT
        }
    }

    /// The platform's share of `price`.
    pub open spec fn platform_cut(&self, price: u128) -> int {
        percent_of(price as int, self.platform_fee_or_default() as int)
    }

    pub fn get_platform_fee_percent_or_default(&self) -> (r: u64)
        ensures
            r == self.platform_fee_or_default(),
    {
        let fee = self.platform_fee_percent;
        if fee != 0 {
            fee
        } else {
            DEFAULT_FEE_PERCENT
        }
    }

    pub fn get_royalties_max_fee_percent_or_default(&self) -> (r: u64)
        ensures
            r == self.royalties_max_or_default(),
    {
        let fee = self.royalties_max_fee_percent;
        if fee != 0 {
            fee
        } else {
            ROYALTIES_MAX_FEE_PERCENT
        }
    }

    pub fn get_platform_cut(&self, price: u128) -> (r: u128)
        requires
            self.wf(),
        ensures
            r == self.platform_cut(price),
            r == price * (if self.platform_fee_percent != 0 {
                self.platform_fee_percent
            } else {
                250u64
            }) / 10_000,
            r <= price,
    {
        let fee = self.get_platform_fee_percent_or_default();
        apply_percent(price, fee)
    }

    /// The creator's share of `price`: the token's royalties of it.
    pub fn get_creator_cut(&self, price: u128, token_data: &TokenData) -> (r: u128)
        requires
            token_data.wf(),
        ensures
            r == percent_of(price as int, token_data.royalties as int),
            r <= price,
    {
        apply_percent(price, token_data.royalties)
    }

    pub fn send_nft(&self, actions: &mut Vec<MarketAction>, to: Address)
        ensures
            final(actions)@ == old(actions)@.push(MarketAction::SendNft { to }),
    {
        actions.push(MarketAction::SendNft { to });
    }

    pub fn send_egld(&self, actions: &mut Vec<MarketAction>, to: Address, amount: u128)
        ensures
            final(actions)@ == old(actions)@.push(
                MarketAction::SendEgld { to, amount, memo: Memo::Empty },
            ),
    {
        actions.push(MarketAction::SendEgld { to, amount, memo: Memo::Empty });
    }

    pub fn auction_has_winner(&self, auction_info: &AuctionInfo) -> (r: bool)
        ensures
            r == (auction_info.highest_bidder != Address::zero_spec()),
    {
        !auction_info.highest_bidder.is_zero()
    }

    pub fn is_nft_for_sale(&self, nft_id: &NftId) -> (r: bool)
        requires
            self.wf(),
        ensures
            r == self.nft_sale_info.view().contains_key(nft_id@),
    {
        self.nft_sale_info.contains(nft_id)
    }

    pub fn is_nft_on_auction(&self, nft_id: &NftId) -> (r: bool)
        requires
            self.wf(),
        ensures
            r == self.auction.view().contains_key(nft_id@),
    {
        self.auction.contains(nft_id)
    }

    pub fn error_nft_not_found(&self) -> (r: Result<(), MarketError>)
        ensures
            r == Err::<(), MarketError>(MarketError::NftNotFound),
    {
        Err(MarketError::NftNotFound)
    }
}

} // verus!
