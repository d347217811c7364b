use vstd::prelude::*;

use super::contract::MarketplaceContract;
use super::events::{MarketAction, MarketEvent};
use super::storage::{balance, NftId};
use super::validation::{ensure, then, MarketError};
use crate::types::{Address, TokenIdentifier};

verus! {

impl MarketplaceContract {
    /// The outcome of withdrawing an NFT from its sale or auction.
    pub open spec fn withdraw_nft_check(&self, caller: Address, now: u64, token_id: Seq<u8>, nonce: u64) -> Result<
        (),
        MarketError,
    > {
        let k = (token_id, nonce);
        then(
            self.trade_check(token_id, nonce),
            if self.nft_sale_info.view().contains_key(k) {
                ensure(caller == self.nft_sale_info.view()[k].owner, MarketError::NotOwner)
            } else if self.auction.view().contains_key(k) {
                let a = self.auction.view()[k];
                then(
                    ensure(caller == a.owner, MarketError::NotOwner),
                    ensure(
                        !(now > a.deadline && a.highest_bidder != Address::zero_spec()),
                        MarketError::AuctionHasWinner,
                    ),
                )
            } else {
                Err(MarketError::NftNotFound)
            },
        )
    }

    /// Takes an NFT back from its sale or from an auction that has not ended
    /// with a winner, refunding the highest bid of such an auction to the
    /// bidder's deposit.
    pub fn withdraw_nft(&mut self, caller: Address, now: u64, token_id: TokenIdentifier, nonce: u64) -> (r:
        Result<Vec<MarketAction>, MarketError>)
        requires
            old(self).wf(),
            ({
                let k = (token_id@, nonce);
                let a = old(self).auction.view()[k];
                old(self).withdraw_nft_check(caller, now, token_id@, nonce) is Ok
                    && !old(self).nft_sale_info.view().contains_key(k) ==> balance(
                    old(self).egld_deposit.view(),
                    a.highest_bidder,
                ) + a.bid <= u128::MAX
            }),
        ensures
            final(self).wf(),
            match r {
                Err(e) => old(self).withdraw_nft_check(caller, now, token_id@, nonce) == Err::<
                    (),
                    MarketError,
                >(e) && *final(self) == *old(self),
                Ok(actions) => {
                    let k = (token_id@, nonce);
                    &&& old(self).withdraw_nft_check(caller, now, token_id@, nonce) is Ok
                    &&& old(self).nft_sale_info.view().contains_key(k) ==> {
                        &&& final(self).nft_sale_info.view()
                            == old(self).nft_sale_info.view().remove(k)
                        &&& *final(self) == (MarketplaceContract {
                            nft_sale_info: final(self).nft_sale_info,
                            ..*old(self)
                        })
                        &&& actions@ == seq![
                            MarketAction::SendNft { to: caller },
                            MarketAction::Log {
                                event: MarketEvent::WithdrawNft {
                                    owner: caller,
                                    price: old(self).nft_sale_info.view()[k].price,
                                    timestamp: now,
                                },
                            },
                        ]
                    }
                    &&& !old(self).nft_sale_info.view().contains_key(k) ==> {
                        let a = old(self).auction.view()[k];
                        let refunded = (balance(old(self).egld_deposit.view(), a.highest_bidder)
                            + a.bid) as u128;
                        &&& final(self).auction.view() == old(self).auction.view().remove(k)
                        &&& final(self).egld_deposit.view()
                            == old(self).egld_deposit.view().insert(a.highest_bidder, refunded)
                        &&& *final(self) == (MarketplaceContract {
                            auction: final(self).auction,
                            egld_deposit: final(self).egld_deposit,
                            ..*old(self)
                        })
                        &&& actions@ == seq![
                            MarketAction::Log {
                                event: MarketEvent::DepositUpdate {
                                    address: a.highest_bidder,
                                    amount: refunded,
                                },
                            },
                            MarketAction::SendNft { to: caller },
                            MarketAction::Log {
                                event: MarketEvent::WithdrawNft {
                                    owner: caller,
                                    price: a.min_bid,
                                    timestamp: now,
                                },
                            },
                        ]
                    }
                },
            },
    {
        self.require_global_op_not_ongoing()?;
        self.require_valid_token_id(&token_id)?;
        self.require_valid_nonce(nonce)?;
        let nft_id = NftId::new(token_id, nonce);
        if self.is_nft_for_sale(&nft_id) {
            self.withdraw_nft_from_sale(caller, now, nft_id)
        } else if self.is_nft_on_auction(&nft_id) {
            self.withdraw_nft_from_auction(caller, now, nft_id)
        } else {
            self.error_nft_not_found()?;
            Err(MarketError::NftNotFound)
        }
    }

    /// Takes a listed NFT back to its owner.
    pub fn withdraw_nft_from_sale(&mut self, caller: Address, now: u64, nft_id: NftId) -> (r: Result<
        Vec<MarketAction>,
        MarketError,
    >)
        requires
            old(self).wf(),
            old(self).nft_sale_info.view().contains_key(nft_id@),
        ensures
            final(self).wf(),
            ({
                let sale = old(self).nft_sale_info.view()[nft_id@];
                match r {
                    Err(e) => e == MarketError::NotOwner && caller != sale.owner && *final(self)
                        == *old(self),
                    Ok(actions) => {
                        &&& caller == sale.owner
                        &&& final(self).nft_sale_info.view()
                            == old(self).nft_sale_info.view().remove(nft_id@)
                        &&& *final(self) == (MarketplaceContract {
                            nft_sale_info: final(self).nft_sale_info,
                            ..*old(self)
                        })
                        &&& actions@ == seq![
                            MarketAction::SendNft { to: caller },
                            MarketAction::Log {
                                event: MarketEvent::WithdrawNft {
                                    owner: caller,
                                    price: sale.price,
                                    timestamp: now,
                                },
                            },
                        ]
                    },
                }
            }),
    {
        let nft_sale_info = match self.nft_sale_info.get(&nft_id) {
            Some(info) => *info,
            None => {
                return Err(MarketError::NftNotForSale);
            },
        };
        self.require_owns_nft(&caller, &nft_sale_info)?;
        let mut actions: Vec<MarketAction> = Vec::new();
        self.send_nft(&mut actions, caller);
        self.nft_sale_info.remove(&nft_id);
        actions.push(
            MarketAction::Log {
                event: MarketEvent::WithdrawNft {
                    owner: caller,
                    price: nft_sale_info.price,
                    timestamp: now,
                },
            },
        );
        Ok(actions)
    }

    /// Takes an NFT back from an auction that has not ended with a winner,
    /// refunding the highest bid to the bidder's deposit.
    pub fn withdraw_nft_from_auction(&mut self, caller: Address, now: u64, nft_id: NftId) -> (r:
        Result<Vec<MarketAction>, MarketError>)
        requires
            old(self).wf(),
            old(self).auction.view().contains_key(nft_id@),
            ({
                let a = old(self).auction.view()[nft_id@];
                caller == a.owner && !(now > a.deadline && a.highest_bidder
                    != Address::zero_spec()) ==> balance(
                    old(self).egld_deposit.view(),
                    a.highest_bidder,
                ) + a.bid <= u128::MAX
            }),
        ensures
            final(self).wf(),
            ({
                let a = old(self).auction.view()[nft_id@];
                let check = then(
                    ensure(caller == a.owner, MarketError::NotOwner),
                    ensure(
                        !(now > a.deadline && a.highest_bidder != Address::zero_spec()),
                        MarketError::AuctionHasWinner,
                    ),
                );
                let refunded = (balance(old(self).egld_deposit.view(), a.highest_bidder)
                    + a.bid) as u128;
                match r {
                    Err(e) => check == Err::<(), MarketError>(e) && *final(self) == *old(self),
                    Ok(actions) => {
                        &&& check is Ok
                        &&& final(self).auction.view() == old(self).auction.view().remove(nft_id@)
                        &&& final(self).egld_deposit.view()
                            == old(self).egld_deposit.view().insert(a.highest_bidder, refunded)
                        &&& *final(self) == (MarketplaceContract {
                            auction: final(self).auction,
                            egld_deposit: final(self).egld_deposit,
                            ..*old(self)
                        })
                        &&& actions@ == seq![
                            MarketAction::Log {
                                event: MarketEvent::DepositUpdate {
                                    address: a.highest_bidder,
                                    amount: refunded,
                                },
                            },
                            MarketAction::SendNft { to: caller },
                            MarketAction::Log {
                                event: MarketEvent::WithdrawNft {
                                    owner: caller,
                                    price: a.min_bid,
                                    timestamp: now,
                                },
                            },
                        ]
                    },
                }
            }),
    {
        let auction_info = match self.auction.get(&nft_id) {
            Some(info) => *info,
            None => {
                return Err(MarketError::NftNotOnAuction);
            },
        };
        self.require_auction_owner(&caller, &auction_info)?;
        let deadline_passed = now > auction_info.deadline;
        let auction_has_winner = self.auction_has_winner(&auction_info);
        if deadline_passed && auction_has_winner {
            return Err(MarketError::AuctionHasWinner);
        }
        let mut actions: Vec<MarketAction> = Vec::new();
        self.increase_deposit(&mut actions, auction_info.highest_bidder, auction_info.bid);
        self.send_nft(&mut actions, caller);
        self.auction.remove(&nft_id);
        actions.push(
            MarketAction::Log {
                event: MarketEvent::WithdrawNft {
                    owner: caller,
                    price: auction_info.min_bid,
                    timestamp: now,
                },
            },
        );
        Ok(actions)
    }
}

} // verus!
