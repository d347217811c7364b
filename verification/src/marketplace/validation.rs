use vstd::prelude::*;

use super::config::BP;
use super::contract::MarketplaceContract;
use super::storage::{balance, AuctionInfo, NftId, NftSaleInfo, Offer, OfferKey};
use super::utils::TokenData;
use crate::types::{is_valid_esdt_identifier, valid_esdt_identifier, Address};

verus! {

/// Why the marketplace refuses a call.  A refused call changes nothing.
#[derive(Clone, Copy, PartialEq, Eq, Structural, Debug)]
pub enum MarketError {
    FeePercentTooHigh,
    FeePercentZero,
    MinPriceZero,
    MaxLowerThanMin,
    RoyaltiesFeeTooHigh,
    InsufficientDeposit,
    GlobalOpOngoing,
    GlobalOpNotOngoing,
    NftNotForSale,
    NftForSale,
    InvalidTokenId,
    InvalidNonce,
    InvalidAmount,
    InvalidPrice,
    PriceTooLow,
    PriceNotMultipleOfMin,
    PriceTooHigh,
    RoyaltiesTooBig,
    EmptyUris,
    NotOwner,
    IsOwner,
    AmountsDiffer,
    NotEnoughInDeposit,
    OfferDoesNotExist,
    ExpireInPast,
    OfferExpired,
    DeadlineBeforeStart,
    DeadlineInPast,
    NftOnAuction,
    NftNotOnAuction,
    NotOwnerOrWinner,
    AuctionNotStarted,
    AuctionEnded,
    LowerThanMinBid,
    LowerThanHighestBid,
    DeadlineNotPassed,
    AuctionHasNoWinner,
    NftNotFound,
    WrongPayment,
    AuctionHasWinner,
    AuctionOngoingOrHasWinner,
    Blacklisted,
    WithdrawalTooEarly,
    LastEpochAfterCurrent,
    OnlyOwner,
}

impl MarketError {
    /// The message the contract fails with, as text.
    pub open spec fn message_text(&self) -> Seq<char> {
        match self {
            MarketError::FeePercentTooHigh => "Fee percent too high"@,
            MarketError::FeePercentZero => "Fee percent cannot be zero"@,
            MarketError::MinPriceZero => "Min price cannot be zero"@,
            MarketError::MaxLowerThanMin => "Max cannot be lower than min"@,
            MarketError::RoyaltiesFeeTooHigh => "Royalties fee too high"@,
            MarketError::InsufficientDeposit => "insuficient funds in user deposit"@,
            MarketError::GlobalOpOngoing => "Global operation ongoing"@,
            MarketError::GlobalOpNotOngoing => "Global operation not ongoing"@,
            MarketError::NftNotForSale => "Nft not for sale"@,
            MarketError::NftForSale => "Nft is for sale"@,
            MarketError::InvalidTokenId => "Invalid token Id"@,
            MarketError::InvalidNonce => "Invalid nonce"@,
            MarketError::InvalidAmount => "Invalid amount"@,
            MarketError::InvalidPrice => "Invalid price"@,
            MarketError::PriceTooLow => "Price too low"@,
            MarketError::PriceNotMultipleOfMin => "Price has to be multiple of min"@,
            MarketError::PriceTooHigh => "Price too high"@,
            MarketError::RoyaltiesTooBig => "Royalties too big"@,
            MarketError::EmptyUris => "Empty uris"@,
            MarketError::NotOwner => "Not owner"@,
            MarketError::IsOwner => "Is owner"@,
            MarketError::AmountsDiffer => "Amounts differ"@,
            MarketError::NotEnoughInDeposit => "not enough amount in deposit"@,
            MarketError::OfferDoesNotExist => "offer does not exist"@,
            MarketError::ExpireInPast => "expire in the past"@,
            MarketError::OfferExpired => "offer expired"@,
            MarketError::DeadlineBeforeStart => "deadline before start"@,
            MarketError::DeadlineInPast => "deadline in the past"@,
            MarketError::NftOnAuction => "Nft is on auction"@,
            MarketError::NftNotOnAuction => "Nft is not on auction"@,
            MarketError::NotOwnerOrWinner => "Not owner or winner"@,
            MarketError::AuctionNotStarted => "Auction did not start"@,
            MarketError::AuctionEnded => "Auction ended"@,
            MarketError::LowerThanMinBid => "Lower than min bid"@,
            MarketError::LowerThanHighestBid => "Lower than highest bid"@,
            MarketError::DeadlineNotPassed => "Auction deadline not passed"@,
            MarketError::AuctionHasNoWinner => "Auction has no winner"@,
            MarketError::NftNotFound => "Nft not found"@,
            MarketError::WrongPayment => "not right amount of payment"@,
            MarketError::AuctionHasWinner => "auction has a winner"@,
            MarketError::AuctionOngoingOrHasWinner => "auction ongoing or ended with a winner"@,
            MarketError::Blacklisted => "blacklisted"@,
            MarketError::WithdrawalTooEarly => "withdrawal called too early"@,
            MarketError::LastEpochAfterCurrent => "last epoch greater than current"@,
            MarketError::OnlyOwner => "Endpoint can only be called by owner"@,
        }
    }

    /// The message the contract fails with.
    pub fn message(&self) -> (r: &'static str)
        ensures
            r@ == self.message_text(),
    {
        match self {
            MarketError::FeePercentTooHigh => "Fee percent too high",
            MarketError::FeePercentZero => "Fee percent cannot be zero",
            MarketError::MinPriceZero => "Min price cannot be zero",
            MarketError::MaxLowerThanMin => "Max cannot be lower than min",
            MarketError::RoyaltiesFeeTooHigh => "Royalties fee too high",
            MarketError::InsufficientDeposit => "insuficient funds in user deposit",
            MarketError::GlobalOpOngoing => "Global operation ongoing",
            MarketError::GlobalOpNotOngoing => "Global operation not ongoing",
            MarketError::NftNotForSale => "Nft not for sale",
            MarketError::NftForSale => "Nft is for sale",
            MarketError::InvalidTokenId => "Invalid token Id",
            MarketError::InvalidNonce => "Invalid nonce",
            MarketError::InvalidAmount => "Invalid amount",
            MarketError::InvalidPrice => "Invalid price",
            MarketError::PriceTooLow => "Price too low",
            MarketError::PriceNotMultipleOfMin => "Price has to be multiple of min",
            MarketError::PriceTooHigh => "Price too high",
            MarketError::RoyaltiesTooBig => "Royalties too big",
            MarketError::EmptyUris => "Empty uris",
            MarketError::NotOwner => "Not owner",
            MarketError::IsOwner => "Is owner",
            MarketError::AmountsDiffer => "Amounts differ",
            MarketError::NotEnoughInDeposit => "not enough amount in deposit",
            MarketError::OfferDoesNotExist => "offer does not exist",
            MarketError::ExpireInPast => "expire in the past",
            MarketError::OfferExpired => "offer expired",
            MarketError::DeadlineBeforeStart => "deadline before start",
            MarketError::DeadlineInPast => "deadline in the past",
            MarketError::NftOnAuction => "Nft is on auction",
            MarketError::NftNotOnAuction => "Nft is not on auction",
            MarketError::NotOwnerOrWinner => "Not owner or winner",
            MarketError::AuctionNotStarted => "Auction did not start",
            MarketError::AuctionEnded => "Auction ended",
            MarketError::LowerThanMinBid => "Lower than min bid",
            MarketError::LowerThanHighestBid => "Lower than highest bid",
            MarketError::DeadlineNotPassed => "Auction deadline not passed",
            MarketError::AuctionHasNoWinner => "Auction has no winner",
            MarketError::NftNotFound => "Nft not found",
            MarketError::WrongPayment => "not right amount of payment",
            MarketError::AuctionHasWinner => "auction has a winner",
            MarketError::AuctionOngoingOrHasWinner => "auction ongoing or ended with a winner",
            MarketError::Blacklisted => "blacklisted",
            MarketError::WithdrawalTooEarly => "withdrawal called too early",
            MarketError::LastEpochAfterCurrent => "last epoch greater than current",
            MarketError::OnlyOwner => "Endpoint can only be called by owner",
        }
    }
}

/// Success where `cond` holds, else the error `e`.
pub open spec fn ensure(cond: bool, e: MarketError) -> Result<(), MarketError> {
    if cond {
        Ok(())
    } else {
        Err(e)
    }
}

/// The first failure of two checks made one after the other.
pub open spec fn then(first: Result<(), MarketError>, second: Result<(), MarketError>) -> Result<
    (),
    MarketError,
> {
    match first {
        Err(e) => Err(e),
        Ok(_) => second,
    }
}

impl MarketplaceContract {
    /// The outcome of checking `price` against the platform's rules: a fee
    /// is due on it, it lies in the configured range and it is a multiple of
    /// the minimum.
    pub open spec fn price_check(&self, price: u128) -> Result<(), MarketError> {
        if self.platform_cut(price) == 0 {
            Err(MarketError::InvalidPrice)
        } else if price < self.asset_min_price {
            Err(MarketError::PriceTooLow)
        } else if price % self.asset_min_price != 0 {
            Err(MarketError::PriceNotMultipleOfMin)
        } else if price > self.asset_max_price {
            Err(MarketError::PriceTooHigh)
        } else {
            Ok(())
        }
    }

    /// The outcome of checking a token's royalties: within the configured
    /// maximum, and leaving room for the platform fee.
    pub open spec fn royalties_check(&self, royalties: u64) -> Result<(), MarketError> {
        if royalties > self.royalties_max_or_default() {
            Err(MarketError::RoyaltiesTooBig)
        } else if royalties + self.platform_fee_or_default() >= BP {
            Err(MarketError::RoyaltiesTooBig)
        } else {
            Ok(())
        }
    }

    /// Refuses a call of an owner-only endpoint by anyone but the
    /// contract's owner.
    pub fn require_owner(&self, caller: &Address, owner: &Address) -> (r: Result<(), MarketError>)
        ensures
            r == ensure(*caller == *owner, MarketError::OnlyOwner),
    {
        if !caller.same(owner) {
            return Err(MarketError::OnlyOwner);
        }
        Ok(())
    }

    pub fn require_nft_for_sale(&self, nft_id: &NftId) -> (r: Result<(), MarketError>)
        requires
            self.wf(),
        ensures
            r == ensure(self.nft_sale_info.view().contains_key(nft_id@), MarketError::NftNotForSale),
    {
        if !self.nft_sale_info.contains(nft_id) {
            return Err(MarketError::NftNotForSale);
        }
        Ok(())
    }

    pub fn require_nft_not_for_sale(&self, nft_id: &NftId) -> (r: Result<(), MarketError>)
        requires
            self.wf(),
        ensures
            r == ensure(!self.nft_sale_info.view().contains_key(nft_id@), MarketError::NftForSale),
    {
        if self.nft_sale_info.contains(nft_id) {
            return Err(MarketError::NftForSale);
        }
        Ok(())
    }

    pub fn require_valid_token_id(&self, token_id: &Vec<u8>) -> (r: Result<(), MarketError>)
        ensures
            r == ensure(valid_esdt_identifier(token_id@), MarketError::InvalidTokenId),
    {
        if !is_valid_esdt_identifier(token_id) {
            return Err(MarketError::InvalidTokenId);
        }
        Ok(())
    }

    pub fn require_valid_nonce(&self, nonce: u64) -> (r: Result<(), MarketError>)
        ensures
            r == ensure(nonce != 0, MarketError::InvalidNonce),
    {
        if nonce == 0 {
            return Err(MarketError::InvalidNonce);
        }
        Ok(())
    }

    pub fn require_valid_nft_amount(&self, amount: u128) -> (r: Result<(), MarketError>)
        ensures
            r == ensure(amount == 1, MarketError::InvalidAmount),
    {
        if amount != 1 {
            return Err(MarketError::InvalidAmount);
        }
        Ok(())
    }

    pub fn require_valid_price(&self, price: u128) -> (r: Result<(), MarketError>)
        requires
            self.wf(),
        ensures
            r == self.price_check(price),
    {
        if self.get_platform_cut(price) == 0 {
            return Err(MarketError::InvalidPrice);
        }
        let min_price = self.asset_min_price;
        if price < min_price {
            return Err(MarketError::PriceTooLow);
        }
        if price % min_price != 0 {
            return Err(MarketError::PriceNotMultipleOfMin);
        }
        if price > self.asset_max_price {
            return Err(MarketError::PriceTooHigh);
        }
        Ok(())
    }

    pub fn require_valid_royalties(&self, token_data: &TokenData) -> (r: Result<(), MarketError>)
        requires
            self.wf(),
        ensures
            r == self.royalties_check(token_data.royalties),
    {
        let platform_fee = self.get_platform_fee_percent_or_default();
        if token_data.royalties > self.get_royalties_max_fee_percent_or_default() {
            return Err(MarketError::RoyaltiesTooBig);
        }
        if token_data.royalties as u128 + platform_fee as u128 >= BP as u128 {
            return Err(MarketError::RoyaltiesTooBig);
        }
        Ok(())
    }

    pub fn require_uris_not_empty(&self, token_data: &TokenData) -> (r: Result<(), MarketError>)
        ensures
            r == ensure(token_data.uris@.len() != 0, MarketError::EmptyUris),
    {
        if token_data.uris.len() == 0 {
            return Err(MarketError::EmptyUris);
        }
        Ok(())
    }

    pub fn require_owns_nft(&self, address: &Address, nft_sale_info: &NftSaleInfo) -> (r: Result<
        (),
        MarketError,
    >)
        ensures
            r == ensure(*address == nft_sale_info.owner, MarketError::NotOwner),
    {
        if !address.same(&nft_sale_info.owner) {
            return Err(MarketError::NotOwner);
        }
        Ok(())
    }

    pub fn require_not_owns_nft(&self, address: &Address, nft_sale_info: &NftSaleInfo) -> (r:
        Result<(), MarketError>)
        ensures
            r == ensure(*address != nft_sale_info.owner, MarketError::IsOwner),
    {
        if address.same(&nft_sale_info.owner) {
            return Err(MarketError::IsOwner);
        }
        Ok(())
    }

    pub fn require_same_amounts(&self, a: u128, b: u128) -> (r: Result<(), MarketError>)
        ensures
            r == ensure(a == b, MarketError::AmountsDiffer),
    {
        if a != b {
            return Err(MarketError::AmountsDiffer);
        }
        Ok(())
    }

    pub fn require_has_amount_in_deposit(&self, address: &Address, amount: u128) -> (r: Result<
        (),
        MarketError,
    >)
        requires
            self.wf(),
        ensures
            r == ensure(
                balance(self.egld_deposit.view(), *address) >= amount,
                MarketError::NotEnoughInDeposit,
            ),
    {
        if super::storage::get_balance(&self.egld_deposit, address) < amount {
            return Err(MarketError::NotEnoughInDeposit);
        }
        Ok(())
    }

    pub fn require_offer_exists(&self, address: &Address, nft_id: &NftId, timestamp: u64) -> (r:
        Result<(), MarketError>)
        requires
            self.wf(),
        ensures
            r == ensure(
                self.offers.view().contains_key((*address, nft_id@, timestamp)),
                MarketError::OfferDoesNotExist,
            ),
    {
        let key = OfferKey::new(*address, nft_id, timestamp);
        if !self.offers.contains(&key) {
            return Err(MarketError::OfferDoesNotExist);
        }
        Ok(())
    }

    pub fn require_valid_expire(&self, expire: u64, now: u64) -> (r: Result<(), MarketError>)
        ensures
            r == ensure(expire >= now, MarketError::ExpireInPast),
    {
        if expire < now {
            return Err(MarketError::ExpireInPast);
        }
        Ok(())
    }

    pub fn require_not_expired(&self, offer: &Offer, now: u64) -> (r: Result<(), MarketError>)
        ensures
            r == ensure(offer.expire >= now, MarketError::OfferExpired),
    {
        if offer.expire < now {
            return Err(MarketError::OfferExpired);
        }
        Ok(())
    }

    pub fn require_valid_deadline(&self, deadline: u64, start: u64, current: u64) -> (r: Result<
        (),
        MarketError,
    >)
        ensures
            r == then(
                ensure(deadline > start, MarketError::DeadlineBeforeStart),
                ensure(deadline > current, MarketError::DeadlineInPast),
            ),
    {
        if deadline <= start {
            return Err(MarketError::DeadlineBeforeStart);
        }
        if deadline <= current {
            return Err(MarketError::DeadlineInPast);
        }
        Ok(())
    }

    pub fn require_nft_not_on_auction(&self, nft_id: &NftId) -> (r: Result<(), MarketError>)
        requires
            self.wf(),
        ensures
            r == ensure(!self.auction.view().contains_key(nft_id@), MarketError::NftOnAuction),
    {
        if self.auction.contains(nft_id) {
            return Err(MarketError::NftOnAuction);
        }
        Ok(())
    }

    pub fn require_nft_on_auction(&self, nft_id: &NftId) -> (r: Result<(), MarketError>)
        requires
            self.wf(),
        ensures
            r == ensure(self.auction.view().contains_key(nft_id@), MarketError::NftNotOnAuction),
    {
        if !self.auction.contains(nft_id) {
            return Err(MarketError::NftNotOnAuction);
        }
        Ok(())
    }

    pub fn require_not_auction_owner(&self, address: &Address, auction_info: &AuctionInfo) -> (r:
        Result<(), MarketError>)
        ensures
            r == ensure(*address != auction_info.owner, MarketError::IsOwner),
    {
        if address.same(&auction_info.owner) {
            return Err(MarketError::IsOwner);
        }
        Ok(())
    }

    pub fn require_owner_or_winner(&self, address: &Address, auction_info: &AuctionInfo) -> (r:
        Result<(), MarketError>)
        ensures
            r == ensure(
                *address == auction_info.owner || *address == auction_info.highest_bidder,
                MarketError::NotOwnerOrWinner,
            ),
    {
        if !(address.same(&auction_info.owner) || address.same(&auction_info.highest_bidder)) {
            return Err(MarketError::NotOwnerOrWinner);
        }
        Ok(())
    }

    pub fn require_auction_owner(&self, address: &Address, auction_info: &AuctionInfo) -> (r:
        Result<(), MarketError>)
        ensures
            r == ensure(*address == auction_info.owner, MarketError::NotOwner),
    {
        if !address.same(&auction_info.owner) {
            return Err(MarketError::NotOwner);
        }
        Ok(())
    }

    pub fn require_is_auction_ongoing(&self, auction_info: &AuctionInfo, now: u64) -> (r: Result<
        (),
        MarketError,
    >)
        ensures
            r == then(
                ensure(auction_info.start_time <= now, MarketError::AuctionNotStarted),
                ensure(now <= auction_info.deadline, MarketError::AuctionEnded),
            ),
    {
        if auction_info.start_time > now {
            return Err(MarketError::AuctionNotStarted);
        }
        if now > auction_info.deadline {
            return Err(MarketError::AuctionEnded);
        }
        Ok(())
    }

    pub fn require_valid_new_bid(&self, new_bid: u128, auction_info: &AuctionInfo) -> (r: Result<
        (),
        MarketError,
    >)
        ensures
            r == then(
                ensure(new_bid >= auction_info.min_bid, MarketError::LowerThanMinBid),
                ensure(new_bid > auction_info.bid, MarketError::LowerThanHighestBid),
            ),
    {
        if new_bid < auction_info.min_bid {
            return Err(MarketError::LowerThanMinBid);
        }
        if new_bid <= auction_info.bid {
            return Err(MarketError::LowerThanHighestBid);
        }
        Ok(())
    }

    pub fn require_deadline_passed(&self, auction_info: &AuctionInfo, now: u64) -> (r: Result<
        (),
        MarketError,
    >)
        ensures
            r == ensure(now > auction_info.deadline, MarketError::DeadlineNotPassed),
    {
        if now <= auction_info.deadline {
            return Err(MarketError::DeadlineNotPassed);
        }
        Ok(())
    }

    pub fn require_auction_has_winner(&self, auction_info: &AuctionInfo) -> (r: Result<
        (),
        MarketError,
    >)
        ensures
            r == ensure(
                auction_info.highest_bidder != Address::zero_spec(),
                MarketError::AuctionHasNoWinner,
            ),
    {
        if auction_info.highest_bidder.is_zero() {
            return Err(MarketError::AuctionHasNoWinner);
        }
        Ok(())
    }
}

} // verus!
