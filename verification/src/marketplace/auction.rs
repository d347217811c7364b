use vstd::prelude::*;

use super::contract::MarketplaceContract;
use super::events::{MarketAction, MarketEvent};
use super::storage::{balance, get_balance, AuctionInfo, NftId};
use super::utils::TokenData;
use super::validation::{ensure, then, MarketError};
use crate::types::{bytes_copy, value_or, Address, TokenIdentifier};

verus! {

/// The first and second URIs logged with a listing: the token's first URI,
/// and the second URI only where it is empty, so always an empty one.
pub fn listing_event_uris(token_data: &TokenData) -> (r: (Vec<u8>, Vec<u8>))
    requires
        token_data.uris@.len() >= 1,
    ensures
        r.0@ == token_data.uris@[0]@,
        r.1@.len() == 0,
{
    let first = bytes_copy(&token_data.uris[0]);
    let mut second: Vec<u8> = Vec::new();
    if token_data.uris.len() > 1 {
        let valid_uri = token_data.uris[1].len() == 0;
        if valid_uri {
            second = bytes_copy(&token_data.uris[1]);
        }
    }
    (first, second)
}

impl MarketplaceContract {
    /// The outcome of putting an NFT on auction.
    pub open spec fn start_auction_check(
        &self,
        now: u64,
        token_id: Seq<u8>,
        nonce: u64,
        amount: u128,
        min_bid: u128,
        deadline: u64,
        start_time: u64,
        token_data: TokenData,
    ) -> Result<(), MarketError> {
        let k = (token_id, nonce);
        then(
            self.trade_check(token_id, nonce),
            then(
                ensure(amount == 1, MarketError::InvalidAmount),
                then(
                    self.price_check(min_bid),
                    then(
                        ensure(!self.auction.view().contains_key(k), MarketError::NftOnAuction),
                        then(
                            ensure(
                                !self.nft_sale_info.view().contains_key(k),
                                MarketError::NftForSale,
                            ),
                            then(
                                then(
                                    ensure(deadline > start_time, MarketError::DeadlineBeforeStart),
                                    ensure(deadline > now, MarketError::DeadlineInPast),
                                ),
                                then(
                                    self.royalties_check(token_data.royalties),
                                    ensure(token_data.uris@.len() != 0, MarketError::EmptyUris),
                                ),
                            ),
                        ),
                    ),
                ),
            ),
        )
    }

    /// Puts the NFT paid with the call on auction from `opt_start_time` (or
    /// now) until `deadline`, with a lowest bid of `min_bid`.
    pub fn start_auction(
        &mut self,
        caller: Address,
        now: u64,
        token_id: TokenIdentifier,
        nonce: u64,
        amount: u128,
        min_bid: u128,
        deadline: u64,
        opt_start_time: Option<u64>,
        token_data: &TokenData,
    ) -> (r: Result<Vec<MarketAction>, MarketError>)
        requires
            old(self).wf(),
            token_data.wf(),
            ({
                let start = match opt_start_time {
                    Some(s) => s,
                    None => now,
                };
                old(self).start_auction_check(
                    now,
                    token_id@,
                    nonce,
                    amount,
                    min_bid,
                    deadline,
                    start,
                    *token_data,
                ) is Ok ==> token_data.uris@.len() >= 2
            }),
        ensures
            final(self).wf(),
            ({
                let start = match opt_start_time {
                    Some(s) => s,
                    None => now,
                };
                let check = old(self).start_auction_check(
                    now,
                    token_id@,
                    nonce,
                    amount,
                    min_bid,
                    deadline,
                    start,
                    *token_data,
                );
                match r {
                    Err(e) => check == Err::<(), MarketError>(e) && *final(self) == *old(self),
                    Ok(actions) => {
                        &&& check is Ok
                        &&& final(self).auction.view() == old(self).auction.view().insert(
                            (token_id@, nonce),
                            AuctionInfo {
                                owner: caller,
                                min_bid,
                                start_time: start,
                                deadline,
                                created_at: now,
                                highest_bidder: Address::zero_spec(),
                                bid: 0,
                            },
                        )
                        &&& *final(self) == (MarketplaceContract {
                            auction: final(self).auction,
                            ..*old(self)
                        })
                        &&& actions@ == seq![
                            MarketAction::Log {
                                event: MarketEvent::StartAuction {
                                    caller,
                                    min_bid,
                                    start_time: start,
                                    deadline,
                                    royalties_percent: token_data.royalties,
                                    timestamp: now,
                                },
                            },
                        ]
                    },
                }
            }),
    {
        self.require_global_op_not_ongoing()?;
        self.require_valid_token_id(&token_id)?;
        self.require_valid_nonce(nonce)?;
        self.require_valid_nft_amount(amount)?;
        self.require_valid_price(min_bid)?;
        let nft_id = NftId::new(token_id, nonce);
        self.require_nft_not_on_auction(&nft_id)?;
        self.require_nft_not_for_sale(&nft_id)?;
        let start_time = match opt_start_time {
            Some(s) => s,
            None => now,
        };
        self.require_valid_deadline(deadline, start_time, now)?;
        self.require_valid_royalties(token_data)?;
        self.require_uris_not_empty(token_data)?;
        let auction = AuctionInfo::new(
            caller,
            min_bid,
            start_time,
            deadline,
            now,
            Address::zero(),
            0,
        );
        self.auction.set(nft_id, auction);
        let mut actions: Vec<MarketAction> = Vec::new();
        actions.push(
            MarketAction::Log {
                event: MarketEvent::StartAuction {
                    caller,
                    min_bid,
                    start_time,
                    deadline,
                    royalties_percent: token_data.royalties,
                    timestamp: now,
                },
            },
        );
        Ok(actions)
    }

    /// The caller's deposit once the highest bid of auction `a` is refunded,
    /// plus the EGLD paid with the call.
    pub open spec fn raised_deposit(&self, a: AuctionInfo, caller: Address, payment: u128) -> int {
        let refunded = self.egld_deposit.view().insert(
            a.highest_bidder,
            (balance(self.egld_deposit.view(), a.highest_bidder) + a.bid) as u128,
        );
        balance(refunded, caller) + payment
    }

    /// The checks of a bid before the bidder's funds are counted.
    pub open spec fn place_bid_pre_check(
        &self,
        caller: Address,
        now: u64,
        token_id: Seq<u8>,
        nonce: u64,
        bid_amount: u128,
    ) -> Result<(), MarketError> {
        let k = (token_id, nonce);
        let a = self.auction.view()[k];
        then(
            self.trade_check(token_id, nonce),
            then(
                self.price_check(bid_amount),
                then(
                    ensure(self.auction.view().contains_key(k), MarketError::NftNotOnAuction),
                    then(
                        ensure(caller != a.owner, MarketError::IsOwner),
                        then(
                            then(
                                ensure(a.start_time <= now, MarketError::AuctionNotStarted),
                                ensure(now <= a.deadline, MarketError::AuctionEnded),
                            ),
                            then(
                                ensure(bid_amount >= a.min_bid, MarketError::LowerThanMinBid),
                                ensure(bid_amount > a.bid, MarketError::LowerThanHighestBid),
                            ),
                        ),
                    ),
                ),
            ),
        )
    }

    /// The outcome of bidding `bid_amount`, paying `payment` with the call.
    pub open spec fn place_bid_check(
        &self,
        caller: Address,
        now: u64,
        payment: u128,
        token_id: Seq<u8>,
        nonce: u64,
        bid_amount: u128,
    ) -> Result<(), MarketError> {
        let a = self.auction.view()[(token_id, nonce)];
        then(
            self.place_bid_pre_check(caller, now, token_id, nonce, bid_amount),
            ensure(
                self.raised_deposit(a, caller, payment) >= bid_amount,
                MarketError::InsufficientDeposit,
            ),
        )
    }

    /// Bids `bid_amount` on an ongoing auction: the previous highest bid goes
    /// back to its bidder's deposit, and the new bid is taken from the
    /// caller's deposit topped up with the EGLD paid with the call.
    pub fn place_bid(
        &mut self,
        caller: Address,
        now: u64,
        payment: u128,
        token_id: TokenIdentifier,
        nonce: u64,
        bid_amount: u128,
    ) -> (r: Result<Vec<MarketAction>, MarketError>)
        requires
            old(self).wf(),
            old(self).place_bid_pre_check(caller, now, token_id@, nonce, bid_amount) is Ok ==> {
                let a = old(self).auction.view()[(token_id@, nonce)];
                &&& balance(old(self).egld_deposit.view(), a.highest_bidder) + a.bid <= u128::MAX
                &&& old(self).raised_deposit(a, caller, payment) <= u128::MAX
            },
        ensures
            final(self).wf(),
            match r {
                Err(e) => old(self).place_bid_check(caller, now, payment, token_id@, nonce, bid_amount)
                    == Err::<(), MarketError>(e) && *final(self) == *old(self),
                Ok(actions) => {
                    let k = (token_id@, nonce);
                    let a = old(self).auction.view()[k];
                    let refunded = (balance(old(self).egld_deposit.view(), a.highest_bidder)
                        + a.bid) as u128;
                    let left = (old(self).raised_deposit(a, caller, payment) - bid_amount) as u128;
                    &&& old(self).place_bid_check(caller, now, payment, token_id@, nonce, bid_amount) is Ok
                    &&& final(self).egld_deposit.view() == old(self).egld_deposit.view().insert(
                        a.highest_bidder,
                        refunded,
                    ).insert(caller, left)
                    &&& final(self).auction.view() == old(self).auction.view().insert(
                        k,
                        AuctionInfo { highest_bidder: caller, bid: bid_amount, ..a },
                    )
                    &&& *final(self) == (MarketplaceContract {
                        egld_deposit: final(self).egld_deposit,
                        auction: final(self).auction,
                        ..*old(self)
                    })
                    &&& actions@ == seq![
                        MarketAction::Log {
                            event: MarketEvent::DepositUpdate {
                                address: a.highest_bidder,
                                amount: refunded,
                            },
                        },
                        MarketAction::Log {
                            event: MarketEvent::DepositUpdate { address: caller, amount: left },
                        },
                        MarketAction::Log {
                            event: MarketEvent::PlaceBid { caller, bid: bid_amount, timestamp: now },
                        },
                    ]
                },
            },
    {
        self.require_global_op_not_ongoing()?;
        self.require_valid_token_id(&token_id)?;
        self.require_valid_nonce(nonce)?;
        self.require_valid_price(bid_amount)?;
        let nft_id = NftId::new(token_id, nonce);
        self.require_nft_on_auction(&nft_id)?;
        let mut auction_info = match self.auction.get(&nft_id) {
            Some(info) => *info,
            None => {
                return Err(MarketError::NftNotOnAuction);
            },
        };
        self.require_not_auction_owner(&caller, &auction_info)?;
        self.require_is_auction_ongoing(&auction_info, now)?;
        self.require_valid_new_bid(bid_amount, &auction_info)?;
        let caller_balance = get_balance(&self.egld_deposit, &caller);
        let refunded_balance = if caller.same(&auction_info.highest_bidder) {
            caller_balance + auction_info.bid
        } else {
            caller_balance
        };
        if refunded_balance + payment < bid_amount {
            return Err(MarketError::InsufficientDeposit);
        }
        let mut actions: Vec<MarketAction> = Vec::new();
        self.increase_deposit(&mut actions, auction_info.highest_bidder, auction_info.bid);
        self.try_increase_decrease_deposit(&mut actions, caller, payment, bid_amount)?;
        auction_info.highest_bidder = caller;
        auction_info.bid = bid_amount;
        self.auction.set(nft_id, auction_info);
        actions.push(
            MarketAction::Log {
                event: MarketEvent::PlaceBid { caller, bid: bid_amount, timestamp: now },
            },
        );
        Ok(actions)
    }

    /// The outcome of ending an auction.
    pub open spec fn end_auction_check(
        &self,
        caller: Address,
        now: u64,
        token_id: Seq<u8>,
        nonce: u64,
    ) -> Result<(), MarketError> {
        let k = (token_id, nonce);
        let a = self.auction.view()[k];
        then(
            self.trade_check(token_id, nonce),
            then(
                ensure(self.auction.view().contains_key(k), MarketError::NftNotOnAuction),
                then(
                    ensure(now > a.deadline, MarketError::DeadlineNotPassed),
                    then(
                        ensure(
                            a.highest_bidder != Address::zero_spec(),
                            MarketError::AuctionHasNoWinner,
                        ),
                        ensure(
                            caller == a.owner || caller == a.highest_bidder,
                            MarketError::NotOwnerOrWinner,
                        ),
                    ),
                ),
            ),
        )
    }

    /// Ends an auction past its deadline with a winner, at the call of its
    /// owner or winner: the NFT goes to the winner and the winning bid, held
    /// since it was placed, is paid out as the proceeds of a sale.
    pub fn end_auction(
        &mut self,
        caller: Address,
        now: u64,
        epoch: u64,
        token_id: TokenIdentifier,
        nonce: u64,
        token_data: &TokenData,
    ) -> (r: Result<Vec<MarketAction>, MarketError>)
        requires
            old(self).wf(),
            token_data.wf(),
            old(self).end_auction_check(caller, now, token_id@, nonce) is Ok ==> {
                let a = old(self).auction.view()[(token_id@, nonce)];
                old(self).proceeds_fit(a.bid, a.owner, *token_data)
            },
        ensures
            final(self).wf(),
            match r {
                Err(e) => old(self).end_auction_check(caller, now, token_id@, nonce) == Err::<
                    (),
                    MarketError,
                >(e) && *final(self) == *old(self),
                Ok(actions) => {
                    let k = (token_id@, nonce);
                    let a = old(self).auction.view()[k];
                    &&& old(self).end_auction_check(caller, now, token_id@, nonce) is Ok
                    &&& Self::proceeds_paid(
                        *old(self),
                        *final(self),
                        a.bid,
                        a.owner,
                        *token_data,
                        epoch,
                    )
                    &&& final(self).auction.view() == old(self).auction.view().remove(k)
                    &&& *final(self) == (MarketplaceContract {
                        creator_last_withdrawal_epoch: final(self).creator_last_withdrawal_epoch,
                        creator_royalties: final(self).creator_royalties,
                        platform_royalties: final(self).platform_royalties,
                        egld_deposit: final(self).egld_deposit,
                        auction: final(self).auction,
                        ..*old(self)
                    })
                    &&& actions@ == seq![
                        MarketAction::Log {
                            event: MarketEvent::DepositUpdate {
                                address: a.owner,
                                amount: (balance(old(self).egld_deposit.view(), a.owner) + old(
                                    self,
                                ).owner_share(a.bid, token_data.royalties)) as u128,
                            },
                        },
                        MarketAction::SendNft { to: a.highest_bidder },
                        MarketAction::Log {
                            event: MarketEvent::EndAuction {
                                caller,
                                winner: a.highest_bidder,
                                bid: a.bid,
                                timestamp: now,
                            },
                        },
                    ]
                },
            },
    {
        self.require_global_op_not_ongoing()?;
        self.require_valid_token_id(&token_id)?;
        self.require_valid_nonce(nonce)?;
        let nft_id = NftId::new(token_id, nonce);
        self.require_nft_on_auction(&nft_id)?;
        let auction_info = match self.auction.get(&nft_id) {
            Some(info) => *info,
            None => {
                return Err(MarketError::NftNotOnAuction);
            },
        };
        self.require_deadline_passed(&auction_info, now)?;
        self.require_auction_has_winner(&auction_info)?;
        self.require_owner_or_winner(&caller, &auction_info)?;
        let mut actions: Vec<MarketAction> = Vec::new();
        self.distribute_proceeds(&mut actions, auction_info.bid, auction_info.owner, token_data, epoch);
        self.send_nft(&mut actions, auction_info.highest_bidder);
        self.auction.remove(&nft_id);
        actions.push(
            MarketAction::Log {
                event: MarketEvent::EndAuction {
                    caller,
                    winner: auction_info.highest_bidder,
                    bid: auction_info.bid,
                    timestamp: now,
                },
            },
        );
        Ok(actions)
    }
}

} // verus!
