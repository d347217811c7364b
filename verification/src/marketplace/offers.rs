use vstd::prelude::*;

use super::contract::{MarketplaceContract, SECONDS_IN_YEARS};
use super::events::{MarketAction, MarketEvent};
use super::royalties::epoch_if_empty;
use super::storage::{balance, get_balance, NftId, Offer, OfferKey};
use super::utils::{percent_of, TokenData};
use super::validation::{ensure, then, MarketError};
use crate::types::{Address, TokenIdentifier};

verus! {

impl MarketplaceContract {
    /// What the seller keeps of `amount`: all but the platform's and the
    /// creator's cuts.
    pub open spec fn owner_share(&self, amount: u128, royalties: u64) -> int {
        amount - self.platform_cut(amount) - percent_of(amount as int, royalties as int)
    }

    /// The sums that paying the proceeds of a sale of `amount` to `owner`
    /// makes stay within the range of `u128`, and the cuts fit in `amount`.
    pub open spec fn proceeds_fit(&self, amount: u128, owner: Address, token_data: TokenData) -> bool {
        let cc = percent_of(amount as int, token_data.royalties as int);
        let pc = self.platform_cut(amount);
        &&& pc + cc <= amount
        &&& balance(self.creator_royalties.view(), token_data.creator) + cc <= u128::MAX
        &&& self.platform_royalties + pc <= u128::MAX
        &&& balance(self.egld_deposit.view(), owner) + self.owner_share(amount, token_data.royalties)
            <= u128::MAX
    }

    /// `new` is `old` once the proceeds of a sale of `amount` went to the
    /// creator's royalties, the platform's royalties and the deposit of
    /// `owner`, and the creator's first payment epoch was recorded.
    pub open spec fn proceeds_paid(
        old: MarketplaceContract,
        new: MarketplaceContract,
        amount: u128,
        owner: Address,
        token_data: TokenData,
        epoch: u64,
    ) -> bool {
        let cc = percent_of(amount as int, token_data.royalties as int);
        let pc = old.platform_cut(amount);
        &&& new.creator_last_withdrawal_epoch.view() == epoch_if_empty(
            old.creator_last_withdrawal_epoch.view(),
            token_data.creator,
            epoch,
        )
        &&& new.creator_royalties.view() == old.creator_royalties.view().insert(
            token_data.creator,
            (balance(old.creator_royalties.view(), token_data.creator) + cc) as u128,
        )
        &&& new.platform_royalties == old.platform_royalties + pc
        &&& new.egld_deposit.view() == old.egld_deposit.view().insert(
            owner,
            (balance(old.egld_deposit.view(), owner) + old.owner_share(
                amount,
                token_data.royalties,
            )) as u128,
        )
    }

    /// Pays the proceeds of a sale of `amount`: the creator's cut to its
    /// royalties, the platform's cut to the platform's royalties and the
    /// rest to the deposit of `owner`.
    pub fn distribute_proceeds(
        &mut self,
        actions: &mut Vec<MarketAction>,
        amount: u128,
        owner: Address,
        token_data: &TokenData,
        epoch: u64,
    )
        requires
            old(self).wf(),
            token_data.wf(),
            old(self).proceeds_fit(amount, owner, *token_data),
        ensures
            final(self).wf(),
            Self::proceeds_paid(*old(self), *final(self), amount, owner, *token_data, epoch),
            *final(self) == (MarketplaceContract {
                creator_last_withdrawal_epoch: final(self).creator_last_withdrawal_epoch,
                creator_royalties: final(self).creator_royalties,
                platform_royalties: final(self).platform_royalties,
                egld_deposit: final(self).egld_deposit,
                ..*old(self)
            }),
            final(actions)@ == old(actions)@.push(
                MarketAction::Log {
                    event: MarketEvent::DepositUpdate {
                        address: owner,
                        amount: (balance(old(self).egld_deposit.view(), owner) + old(
                            self,
                        ).owner_share(amount, token_data.royalties)) as u128,
                    },
                },
            ),
    {
        let creator_cut = self.get_creator_cut(amount, token_data);
        self.set_creator_last_withdrawal_epoch_if_empty(token_data.creator, epoch);
        self.increase_creator_royalties(token_data.creator, creator_cut);
        let platform_cut = self.get_platform_cut(amount);
        self.increase_platform_royalties(platform_cut);
        let nft_owner_cut = amount - platform_cut - creator_cut;
        self.increase_deposit(actions, owner, nft_owner_cut);
    }

    /// The time at which the NFT's current listing was made: that of its
    /// sale, else that of its auction.
    pub open spec fn list_timestamp(&self, k: (Seq<u8>, u64)) -> u64 {
        if self.nft_sale_info.view().contains_key(k) {
            self.nft_sale_info.view()[k].timestamp
        } else {
            self.auction.view()[k].created_at
        }
    }

    /// The owner of the NFT's current listing.
    pub open spec fn list_owner(&self, k: (Seq<u8>, u64)) -> Address {
        if self.nft_sale_info.view().contains_key(k) {
            self.nft_sale_info.view()[k].owner
        } else {
            self.auction.view()[k].owner
        }
    }

    /// Whether the NFT is listed, for sale or on auction.
    pub open spec fn is_listed(&self, k: (Seq<u8>, u64)) -> bool {
        self.nft_sale_info.view().contains_key(k) || self.auction.view().contains_key(k)
    }

    /// The outcome of making an offer of `amount` valid until `expire`.
    pub open spec fn make_offer_check(
        &self,
        caller: Address,
        now: u64,
        token_id: Seq<u8>,
        nonce: u64,
        amount: u128,
        expire: u64,
    ) -> Result<(), MarketError> {
        let k = (token_id, nonce);
        then(
            self.trade_check(token_id, nonce),
            then(
                self.price_check(amount),
                then(
                    ensure(expire >= now, MarketError::ExpireInPast),
                    then(
                        ensure(
                            balance(self.egld_deposit.view(), caller) >= amount,
                            MarketError::NotEnoughInDeposit,
                        ),
                        then(
                            ensure(self.is_listed(k), MarketError::NftNotFound),
                            ensure(caller != self.list_owner(k), MarketError::IsOwner),
                        ),
                    ),
                ),
            ),
        )
    }

    /// Offers `amount` for a listed NFT, to be taken from the caller's
    /// deposit when accepted; the offer lasts until `expire_opt`, or a year
    /// where none is given.
    pub fn make_offers(
        &mut self,
        caller: Address,
        now: u64,
        token_id: TokenIdentifier,
        nonce: u64,
        amount: u128,
        expire_opt: Option<u64>,
    ) -> (r: Result<Vec<MarketAction>, MarketError>)
        requires
            old(self).wf(),
            then(old(self).trade_check(token_id@, nonce), old(self).price_check(amount)) is Ok
                ==> now + SECONDS_IN_YEARS <= u64::MAX,
        ensures
            final(self).wf(),
            ({
                let k = (token_id@, nonce);
                let expire = match expire_opt {
                    Some(e) => e,
                    None => (now + SECONDS_IN_YEARS) as u64,
                };
                let check = old(self).make_offer_check(caller, now, token_id@, nonce, amount, expire);
                match r {
                    Err(e) => check == Err::<(), MarketError>(e) && *final(self) == *old(self),
                    Ok(actions) => {
                        &&& check is Ok
                        &&& final(self).offers.view() == old(self).offers.view().insert(
                            (caller, k, old(self).list_timestamp(k)),
                            Offer { amount, expire },
                        )
                        &&& *final(self) == (MarketplaceContract {
                            offers: final(self).offers,
                            ..*old(self)
                        })
                        &&& actions@ == seq![
                            MarketAction::Log {
                                event: MarketEvent::MakeOffer {
                                    offeror: caller,
                                    amount,
                                    expire,
                                    timestamp: now,
                                },
                            },
                        ]
                    },
                }
            }),
    {
        self.require_global_op_not_ongoing()?;
        self.require_valid_token_id(&token_id)?;
        self.require_valid_nonce(nonce)?;
        self.require_valid_price(amount)?;
        let expire = match expire_opt {
            Some(e) => e,
            None => now + SECONDS_IN_YEARS,
        };
        self.require_valid_expire(expire, now)?;
        self.require_has_amount_in_deposit(&caller, amount)?;
        let nft_id = NftId::new(token_id, nonce);
        if self.is_nft_for_sale(&nft_id) {
            self.make_offer_for_nft_on_sale(caller, now, nft_id, amount, expire)
        } else if self.is_nft_on_auction(&nft_id) {
            self.make_offer_for_nft_on_auction(caller, now, nft_id, amount, expire)
        } else {
            self.error_nft_not_found()?;
            Err(MarketError::NftNotFound)
        }
    }

    /// Records an offer for an NFT that is for sale.
    pub fn make_offer_for_nft_on_sale(
        &mut self,
        caller: Address,
        now: u64,
        nft_id: NftId,
        amount: u128,
        expire: u64,
    ) -> (r: Result<Vec<MarketAction>, MarketError>)
        requires
            old(self).wf(),
            old(self).nft_sale_info.view().contains_key(nft_id@),
        ensures
            final(self).wf(),
            ({
                let sale = old(self).nft_sale_info.view()[nft_id@];
                match r {
                    Err(e) => e == MarketError::IsOwner && caller == sale.owner && *final(self)
                        == *old(self),
                    Ok(actions) => {
                        &&& caller != sale.owner
                        &&& final(self).offers.view() == old(self).offers.view().insert(
                            (caller, nft_id@, sale.timestamp),
                            Offer { amount, expire },
                        )
                        &&& *final(self) == (MarketplaceContract {
                            offers: final(self).offers,
                            ..*old(self)
                        })
                        &&& actions@ == seq![
                            MarketAction::Log {
                                event: MarketEvent::MakeOffer {
                                    offeror: caller,
                                    amount,
                                    expire,
                                    timestamp: now,
                                },
                            },
                        ]
                    },
                }
            }),
    {
        let nft_sale_info = match self.nft_sale_info.get(&nft_id) {
            Some(info) => *info,
            None => {
                return Err(MarketError::NftNotForSale);
            },
        };
        self.require_not_owns_nft(&caller, &nft_sale_info)?;
        let list_timestamp = nft_sale_info.timestamp;
        let offer = Offer::new(amount, expire);
        let key = OfferKey::new(caller, &nft_id, list_timestamp);
        self.offers.set(key, offer);
        let mut actions: Vec<MarketAction> = Vec::new();
        actions.push(
            MarketAction::Log {
                event: MarketEvent::MakeOffer { offeror: caller, amount, expire, timestamp: now },
            },
        );
        Ok(actions)
    }

    /// Records an offer for an NFT that is on auction.
    pub fn make_offer_for_nft_on_auction(
        &mut self,
        caller: Address,
        now: u64,
        nft_id: NftId,
        amount: u128,
        expire: u64,
    ) -> (r: Result<Vec<MarketAction>, MarketError>)
        requires
            old(self).wf(),
            old(self).auction.view().contains_key(nft_id@),
        ensures
            final(self).wf(),
            ({
                let a = old(self).auction.view()[nft_id@];
                match r {
                    Err(e) => e == MarketError::IsOwner && caller == a.owner && *final(self) == *old(
                        self,
                    ),
                    Ok(actions) => {
                        &&& caller != a.owner
                        &&& final(self).offers.view() == old(self).offers.view().insert(
                            (caller, nft_id@, a.created_at),
                            Offer { amount, expire },
                        )
                        &&& *final(self) == (MarketplaceContract {
                            offers: final(self).offers,
                            ..*old(self)
                        })
                        &&& actions@ == seq![
                            MarketAction::Log {
                                event: MarketEvent::MakeOffer {
                                    offeror: caller,
                                    amount,
                                    expire,
                                    timestamp: now,
                                },
                            },
                        ]
                    },
                }
            }),
    {
        let auction_info = match self.auction.get(&nft_id) {
            Some(info) => *info,
            None => {
                return Err(MarketError::NftNotOnAuction);
            },
        };
        self.require_not_auction_owner(&caller, &auction_info)?;
        let list_timestamp = auction_info.created_at;
        let offer = Offer::new(amount, expire);
        let key = OfferKey::new(caller, &nft_id, list_timestamp);
        self.offers.set(key, offer);
        let mut actions: Vec<MarketAction> = Vec::new();
        actions.push(
            MarketAction::Log {
                event: MarketEvent::MakeOffer { offeror: caller, amount, expire, timestamp: now },
            },
        );
        Ok(actions)
    }
}


impl MarketplaceContract {
    /// The outcome of checking the offer of `offeror` on the listing of `k`
    /// made at `ts`: it exists, has not expired, is for `amount`, and the
    /// offeror's deposit covers it.
    pub open spec fn offer_check(
        &self,
        offeror: Address,
        k: (Seq<u8>, u64),
        ts: u64,
        amount: u128,
        now: u64,
    ) -> Result<(), MarketError> {
        let key = (offeror, k, ts);
        let o = self.offers.view()[key];
        then(
            ensure(self.offers.view().contains_key(key), MarketError::OfferDoesNotExist),
            then(
                ensure(o.expire >= now, MarketError::OfferExpired),
                then(
                    ensure(amount == o.amount, MarketError::AmountsDiffer),
                    ensure(
                        balance(self.egld_deposit.view(), offeror) >= o.amount,
                        MarketError::InsufficientDeposit,
                    ),
                ),
            ),
        )
    }

    /// The outcome of the seller accepting an offer on an NFT that is for
    /// sale.
    pub open spec fn accept_on_sale_check(
        &self,
        caller: Address,
        now: u64,
        k: (Seq<u8>, u64),
        offeror: Address,
        amount: u128,
    ) -> Result<(), MarketError> {
        let s = self.nft_sale_info.view()[k];
        then(
            ensure(caller == s.owner, MarketError::NotOwner),
            then(
                ensure(offeror != s.owner, MarketError::IsOwner),
                self.offer_check(offeror, k, s.timestamp, amount, now),
            ),
        )
    }

    /// The outcome of the auction's owner accepting an offer: only before
    /// the auction starts, or after it ended without a bid.
    pub open spec fn accept_on_auction_check(
        &self,
        caller: Address,
        now: u64,
        k: (Seq<u8>, u64),
        offeror: Address,
        amount: u128,
    ) -> Result<(), MarketError> {
        let a = self.auction.view()[k];
        then(
            ensure(caller == a.owner, MarketError::NotOwner),
            then(
                ensure(offeror != a.owner, MarketError::IsOwner),
                then(
                    ensure(
                        now < a.start_time || (now > a.deadline && a.highest_bidder
                            == Address::zero_spec()),
                        MarketError::AuctionOngoingOrHasWinner,
                    ),
                    self.offer_check(offeror, k, a.created_at, amount, now),
                ),
            ),
        )
    }

    /// The outcome of accepting an offer.
    pub open spec fn accept_offer_check(
        &self,
        caller: Address,
        now: u64,
        token_id: Seq<u8>,
        nonce: u64,
        offeror: Address,
        amount: u128,
    ) -> Result<(), MarketError> {
        let k = (token_id, nonce);
        then(
            self.trade_check(token_id, nonce),
            then(
                self.price_check(amount),
                if self.nft_sale_info.view().contains_key(k) {
                    self.accept_on_sale_check(caller, now, k, offeror, amount)
                } else if self.auction.view().contains_key(k) {
                    self.accept_on_auction_check(caller, now, k, offeror, amount)
                } else {
                    Err(MarketError::NftNotFound)
                },
            ),
        )
    }

    /// `new` is `old` once the offer of `offeror` for `amount` on the listing
    /// of `k` by `owner` made at `ts` was accepted: the amount left the
    /// offeror's deposit, its proceeds were paid, and the listing and the
    /// offer are gone.
    pub open spec fn offer_accepted(
        old: MarketplaceContract,
        new: MarketplaceContract,
        k: (Seq<u8>, u64),
        offeror: Address,
        amount: u128,
        owner: Address,
        ts: u64,
        token_data: TokenData,
        epoch: u64,
    ) -> bool {
        let cc = percent_of(amount as int, token_data.royalties as int);
        let pc = old.platform_cut(amount);
        &&& new.egld_deposit.view() == old.egld_deposit.view().insert(
            offeror,
            (balance(old.egld_deposit.view(), offeror) - amount) as u128,
        ).insert(
            owner,
            (balance(old.egld_deposit.view(), owner) + old.owner_share(
                amount,
                token_data.royalties,
            )) as u128,
        )
        &&& new.creator_last_withdrawal_epoch.view() == epoch_if_empty(
            old.creator_last_withdrawal_epoch.view(),
            token_data.creator,
            epoch,
        )
        &&& new.creator_royalties.view() == old.creator_royalties.view().insert(
            token_data.creator,
            (balance(old.creator_royalties.view(), token_data.creator) + cc) as u128,
        )
        &&& new.platform_royalties == old.platform_royalties + pc
        &&& new.nft_sale_info.view() == old.nft_sale_info.view().remove(k)
        &&& new.auction.view() == old.auction.view().remove(k)
        &&& new.offers.view() == old.offers.view().remove((offeror, k, ts))
        &&& new == (MarketplaceContract {
            egld_deposit: new.egld_deposit,
            creator_last_withdrawal_epoch: new.creator_last_withdrawal_epoch,
            creator_royalties: new.creator_royalties,
            platform_royalties: new.platform_royalties,
            nft_sale_info: new.nft_sale_info,
            auction: new.auction,
            offers: new.offers,
            ..old
        })
    }

    /// What accepting an offer hands to the chain.
    pub open spec fn accept_actions(
        old: MarketplaceContract,
        caller: Address,
        now: u64,
        offeror: Address,
        amount: u128,
        owner: Address,
        royalties: u64,
    ) -> Seq<MarketAction> {
        seq![
            MarketAction::Log {
                event: MarketEvent::DepositUpdate {
                    address: offeror,
                    amount: (balance(old.egld_deposit.view(), offeror) - amount) as u128,
                },
            },
            MarketAction::Log {
                event: MarketEvent::DepositUpdate {
                    address: owner,
                    amount: (balance(old.egld_deposit.view(), owner) + old.owner_share(
                        amount,
                        royalties,
                    )) as u128,
                },
            },
            MarketAction::SendNft { to: offeror },
            MarketAction::Log {
                event: MarketEvent::AcceptOffer { owner: caller, offeror, amount, timestamp: now },
            },
        ]
    }

    /// Accepts the offer of `offeror` for `amount` on a listed NFT: the
    /// amount leaves the offeror's deposit, the NFT goes to the offeror and
    /// the proceeds are paid as for a sale.
    pub fn accept_offers(
        &mut self,
        caller: Address,
        now: u64,
        epoch: u64,
        token_id: TokenIdentifier,
        nonce: u64,
        offeror: Address,
        amount: u128,
        token_data: &TokenData,
    ) -> (r: Result<Vec<MarketAction>, MarketError>)
        requires
            old(self).wf(),
            token_data.wf(),
            old(self).accept_offer_check(caller, now, token_id@, nonce, offeror, amount) is Ok
                ==> old(self).proceeds_fit(amount, old(self).list_owner((token_id@, nonce)), *token_data),
        ensures
            final(self).wf(),
            match r {
                Err(e) => old(self).accept_offer_check(caller, now, token_id@, nonce, offeror, amount)
                    == Err::<(), MarketError>(e) && *final(self) == *old(self),
                Ok(actions) => {
                    let k = (token_id@, nonce);
                    &&& old(self).accept_offer_check(caller, now, token_id@, nonce, offeror, amount) is Ok
                    &&& Self::offer_accepted(
                        *old(self),
                        *final(self),
                        k,
                        offeror,
                        amount,
                        old(self).list_owner(k),
                        old(self).list_timestamp(k),
                        *token_data,
                        epoch,
                    )
                    &&& actions@ == Self::accept_actions(
                        *old(self),
                        caller,
                        now,
                        offeror,
                        amount,
                        old(self).list_owner(k),
                        token_data.royalties,
                    )
                },
            },
    {
        self.require_global_op_not_ongoing()?;
        self.require_valid_token_id(&token_id)?;
        self.require_valid_nonce(nonce)?;
        self.require_valid_price(amount)?;
        let nft_id = NftId::new(token_id, nonce);
        if self.is_nft_for_sale(&nft_id) {
            self.accept_offer_for_nft_on_sale(caller, now, epoch, nft_id, offeror, amount, token_data)
        } else if self.is_nft_on_auction(&nft_id) {
            self.accept_offer_for_nft_on_auction(
                caller,
                now,
                epoch,
                nft_id,
                offeror,
                amount,
                token_data,
            )
        } else {
            self.error_nft_not_found()?;
            Err(MarketError::NftNotFound)
        }
    }

    /// Takes the offered amount from the offeror's deposit, where it is the
    /// offer's and the deposit covers it, and pays the proceeds.
    fn take_offer(
        &mut self,
        actions: &mut Vec<MarketAction>,
        now: u64,
        epoch: u64,
        key: OfferKey,
        owner: Address,
        amount: u128,
        token_data: &TokenData,
    ) -> (r: Result<(), MarketError>)
        requires
            old(self).wf(),
            token_data.wf(),
            key.offeror != owner,
            old(self).offer_check(key.offeror, key.nft_id@, key.list_timestamp, amount, now) is Ok
                ==> old(self).proceeds_fit(amount, owner, *token_data),
            old(actions)@.len() == 0,
        ensures
            final(self).wf(),
            match r {
                Err(e) => old(self).offer_check(
                    key.offeror,
                    key.nft_id@,
                    key.list_timestamp,
                    amount,
                    now,
                ) == Err::<(), MarketError>(e) && *final(self) == *old(self),
                Ok(_) => {
                    let cc = percent_of(amount as int, token_data.royalties as int);
                    &&& old(self).offer_check(
                        key.offeror,
                        key.nft_id@,
                        key.list_timestamp,
                        amount,
                        now,
                    ) is Ok
                    &&& final(self).egld_deposit.view() == old(self).egld_deposit.view().insert(
                        key.offeror,
                        (balance(old(self).egld_deposit.view(), key.offeror) - amount) as u128,
                    ).insert(
                        owner,
                        (balance(old(self).egld_deposit.view(), owner) + old(self).owner_share(
                            amount,
                            token_data.royalties,
                        )) as u128,
                    )
                    &&& final(self).creator_last_withdrawal_epoch.view() == epoch_if_empty(
                        old(self).creator_last_withdrawal_epoch.view(),
                        token_data.creator,
                        epoch,
                    )
                    &&& final(self).creator_royalties.view()
                        == old(self).creator_royalties.view().insert(
                        token_data.creator,
                        (balance(old(self).creator_royalties.view(), token_data.creator)
                            + cc) as u128,
                    )
                    &&& final(self).platform_royalties == old(self).platform_royalties + old(
                        self,
                    ).platform_cut(amount)
                    &&& final(self).offers.view() == old(self).offers.view().remove(key@)
                    &&& *final(self) == (MarketplaceContract {
                        egld_deposit: final(self).egld_deposit,
                        creator_last_withdrawal_epoch: final(self).creator_last_withdrawal_epoch,
                        creator_royalties: final(self).creator_royalties,
                        platform_royalties: final(self).platform_royalties,
                        offers: final(self).offers,
                        ..*old(self)
                    })
                    &&& final(actions)@ == seq![
                        MarketAction::Log {
                            event: MarketEvent::DepositUpdate {
                                address: key.offeror,
                                amount: (balance(old(self).egld_deposit.view(), key.offeror)
                                    - amount) as u128,
                            },
                        },
                        MarketAction::Log {
                            event: MarketEvent::DepositUpdate {
                                address: owner,
                                amount: (balance(old(self).egld_deposit.view(), owner) + old(
                                    self,
                                ).owner_share(amount, token_data.royalties)) as u128,
                            },
                        },
                    ]
                },
            },
    {
        let offeror = key.offeror;
        let offer = match self.offers.get(&key) {
            Some(o) => *o,
            None => {
                return Err(MarketError::OfferDoesNotExist);
            },
        };
        self.require_not_expired(&offer, now)?;
        let offer_amount = offer.amount;
        self.require_same_amounts(amount, offer_amount)?;
        let ghost before = *self;
        self.try_decrease_deposit(actions, offeror, offer_amount)?;
        assert(balance(self.egld_deposit.view(), owner) == balance(before.egld_deposit.view(), owner));
        self.distribute_proceeds(actions, offer_amount, owner, token_data, epoch);
        self.offers.remove(&key);
        Ok(())
    }

    /// Accepts an offer on an NFT that is for sale.
    pub fn accept_offer_for_nft_on_sale(
        &mut self,
        caller: Address,
        now: u64,
        epoch: u64,
        nft_id: NftId,
        offeror: Address,
        amount: u128,
        token_data: &TokenData,
    ) -> (r: Result<Vec<MarketAction>, MarketError>)
        requires
            old(self).wf(),
            token_data.wf(),
            old(self).nft_sale_info.view().contains_key(nft_id@),
            old(self).accept_on_sale_check(caller, now, nft_id@, offeror, amount) is Ok
                ==> old(self).proceeds_fit(amount, old(self).list_owner(nft_id@), *token_data),
        ensures
            final(self).wf(),
            match r {
                Err(e) => old(self).accept_on_sale_check(caller, now, nft_id@, offeror, amount)
                    == Err::<(), MarketError>(e) && *final(self) == *old(self),
                Ok(actions) => {
                    let k = nft_id@;
                    &&& old(self).accept_on_sale_check(caller, now, nft_id@, offeror, amount) is Ok
                    &&& Self::offer_accepted(
                        *old(self),
                        *final(self),
                        k,
                        offeror,
                        amount,
                        old(self).list_owner(k),
                        old(self).list_timestamp(k),
                        *token_data,
                        epoch,
                    )
                    &&& actions@ == Self::accept_actions(
                        *old(self),
                        caller,
                        now,
                        offeror,
                        amount,
                        old(self).list_owner(k),
                        token_data.royalties,
                    )
                },
            },
    {
        let nft_sale_info = match self.nft_sale_info.get(&nft_id) {
            Some(info) => *info,
            None => {
                return Err(MarketError::NftNotForSale);
            },
        };
        self.require_owns_nft(&caller, &nft_sale_info)?;
        self.require_not_owns_nft(&offeror, &nft_sale_info)?;
        let list_timestamp = nft_sale_info.timestamp;
        let key = OfferKey::new(offeror, &nft_id, list_timestamp);
        let mut actions: Vec<MarketAction> = Vec::new();
        self.take_offer(&mut actions, now, epoch, key, nft_sale_info.owner, amount, token_data)?;
        self.send_nft(&mut actions, offeror);
        self.nft_sale_info.remove(&nft_id);
        proof {
            assert(!old(self).auction.view().contains_key(nft_id@));
            assert(self.auction.view().remove(nft_id@) =~= self.auction.view());
        }
        actions.push(
            MarketAction::Log {
                event: MarketEvent::AcceptOffer { owner: caller, offeror, amount, timestamp: now },
            },
        );
        Ok(actions)
    }

    /// Accepts an offer on an NFT that is on auction, before the auction
    /// starts or after it ended without a bid.
    pub fn accept_offer_for_nft_on_auction(
        &mut self,
        caller: Address,
        now: u64,
        epoch: u64,
        nft_id: NftId,
        offeror: Address,
        amount: u128,
        token_data: &TokenData,
    ) -> (r: Result<Vec<MarketAction>, MarketError>)
        requires
            old(self).wf(),
            token_data.wf(),
            old(self).auction.view().contains_key(nft_id@),
            !old(self).nft_sale_info.view().contains_key(nft_id@),
            old(self).accept_on_auction_check(caller, now, nft_id@, offeror, amount) is Ok
                ==> old(self).proceeds_fit(amount, old(self).list_owner(nft_id@), *token_data),
        ensures
            final(self).wf(),
            match r {
                Err(e) => old(self).accept_on_auction_check(caller, now, nft_id@, offeror, amount)
                    == Err::<(), MarketError>(e) && *final(self) == *old(self),
                Ok(actions) => {
                    let k = nft_id@;
                    &&& old(self).accept_on_auction_check(caller, now, nft_id@, offeror, amount) is Ok
                    &&& Self::offer_accepted(
                        *old(self),
                        *final(self),
                        k,
                        offeror,
                        amount,
                        old(self).list_owner(k),
                        old(self).list_timestamp(k),
                        *token_data,
                        epoch,
                    )
                    &&& actions@ == Self::accept_actions(
                        *old(self),
                        caller,
                        now,
                        offeror,
                        amount,
                        old(self).list_owner(k),
                        token_data.royalties,
                    )
                },
            },
    {
        let auction_info = match self.auction.get(&nft_id) {
            Some(info) => *info,
            None => {
                return Err(MarketError::NftNotOnAuction);
            },
        };
        self.require_auction_owner(&caller, &auction_info)?;
        self.require_not_auction_owner(&offeror, &auction_info)?;
        let auction_not_started = now < auction_info.start_time;
        let deadline_passed = now > auction_info.deadline;
        let has_no_winner = !self.auction_has_winner(&auction_info);
        if !(auction_not_started || (deadline_passed && has_no_winner)) {
            return Err(MarketError::AuctionOngoingOrHasWinner);
        }
        let list_timestamp = auction_info.created_at;
        let key = OfferKey::new(offeror, &nft_id, list_timestamp);
        let mut actions: Vec<MarketAction> = Vec::new();
        self.take_offer(&mut actions, now, epoch, key, auction_info.owner, amount, token_data)?;
        self.send_nft(&mut actions, offeror);
        self.auction.remove(&nft_id);
        proof {
            assert(self.nft_sale_info.view().remove(nft_id@) =~= self.nft_sale_info.view());
        }
        actions.push(
            MarketAction::Log {
                event: MarketEvent::AcceptOffer { owner: caller, offeror, amount, timestamp: now },
            },
        );
        Ok(actions)
    }
}


impl MarketplaceContract {
    /// The outcome of the caller withdrawing its offer on a listed NFT.
    pub open spec fn cancel_offer_check(
        &self,
        caller: Address,
        token_id: Seq<u8>,
        nonce: u64,
        amount: u128,
    ) -> Result<(), MarketError> {
        let k = (token_id, nonce);
        then(
            self.trade_check(token_id, nonce),
            then(
                self.price_check(amount),
                then(
                    ensure(self.is_listed(k), MarketError::NftNotFound),
                    ensure(
                        self.offers.view().contains_key((caller, k, self.list_timestamp(k))),
                        MarketError::OfferDoesNotExist,
                    ),
                ),
            ),
        )
    }

    /// Withdraws the caller's offer on the current listing of an NFT.
    /// `amount` is only logged.
    pub fn cancel_offers(
        &mut self,
        caller: Address,
        now: u64,
        token_id: TokenIdentifier,
        nonce: u64,
        amount: u128,
    ) -> (r: Result<Vec<MarketAction>, MarketError>)
        requires
            old(self).wf(),
        ensures
            final(self).wf(),
            match r {
                Err(e) => old(self).cancel_offer_check(caller, token_id@, nonce, amount) == Err::<
                    (),
                    MarketError,
                >(e) && *final(self) == *old(self),
                Ok(actions) => {
                    let k = (token_id@, nonce);
                    &&& old(self).cancel_offer_check(caller, token_id@, nonce, amount) is Ok
                    &&& final(self).offers.view() == old(self).offers.view().remove(
                        (caller, k, old(self).list_timestamp(k)),
                    )
                    &&& *final(self) == (MarketplaceContract {
                        offers: final(self).offers,
                        ..*old(self)
                    })
                    &&& actions@ == seq![
                        MarketAction::Log {
                            event: MarketEvent::CancelOffer { owner: caller, amount, timestamp: now },
                        },
                    ]
                },
            },
    {
        self.require_global_op_not_ongoing()?;
        self.require_valid_token_id(&token_id)?;
        self.require_valid_nonce(nonce)?;
        self.require_valid_price(amount)?;
        let nft_id = NftId::new(token_id, nonce);
        if self.is_nft_for_sale(&nft_id) {
            self.cancel_offer_for_nft_on_sale(caller, now, nft_id, amount)
        } else if self.is_nft_on_auction(&nft_id) {
            self.cancel_offer_for_nft_on_auction(caller, now, nft_id, amount)
        } else {
            self.error_nft_not_found()?;
            Err(MarketError::NftNotFound)
        }
    }

    /// Withdraws the caller's offer on an NFT that is for sale.
    pub fn cancel_offer_for_nft_on_sale(
        &mut self,
        caller: Address,
        now: u64,
        nft_id: NftId,
        amount: u128,
    ) -> (r: Result<Vec<MarketAction>, MarketError>)
        requires
            old(self).wf(),
            old(self).nft_sale_info.view().contains_key(nft_id@),
        ensures
            final(self).wf(),
            ({
                let key = (caller, nft_id@, old(self).nft_sale_info.view()[nft_id@].timestamp);
                match r {
                    Err(e) => e == MarketError::OfferDoesNotExist
                        && !old(self).offers.view().contains_key(key) && *final(self) == *old(self),
                    Ok(actions) => {
                        &&& old(self).offers.view().contains_key(key)
                        &&& final(self).offers.view() == old(self).offers.view().remove(key)
                        &&& *final(self) == (MarketplaceContract {
                            offers: final(self).offers,
                            ..*old(self)
                        })
                        &&& actions@ == seq![
                            MarketAction::Log {
                                event: MarketEvent::CancelOffer {
                                    owner: caller,
                                    amount,
                                    timestamp: now,
                                },
                            },
                        ]
                    },
                }
            }),
    {
        let list_timestamp = match self.nft_sale_info.get(&nft_id) {
            Some(info) => info.timestamp,
            None => {
                return Err(MarketError::NftNotForSale);
            },
        };
        self.require_offer_exists(&caller, &nft_id, list_timestamp)?;
        let key = OfferKey::new(caller, &nft_id, list_timestamp);
        self.offers.remove(&key);
        let mut actions: Vec<MarketAction> = Vec::new();
        actions.push(
            MarketAction::Log {
                event: MarketEvent::CancelOffer { owner: caller, amount, timestamp: now },
            },
        );
        Ok(actions)
    }

    /// Withdraws the caller's offer on an NFT that is on auction.
    pub fn cancel_offer_for_nft_on_auction(
        &mut self,
        caller: Address,
        now: u64,
        nft_id: NftId,
        amount: u128,
    ) -> (r: Result<Vec<MarketAction>, MarketError>)
        requires
            old(self).wf(),
            old(self).auction.view().contains_key(nft_id@),
        ensures
            final(self).wf(),
            ({
                let key = (caller, nft_id@, old(self).auction.view()[nft_id@].created_at);
                match r {
                    Err(e) => e == MarketError::OfferDoesNotExist
                        && !old(self).offers.view().contains_key(key) && *final(self) == *old(self),
                    Ok(actions) => {
                        &&& old(self).offers.view().contains_key(key)
                        &&& final(self).offers.view() == old(self).offers.view().remove(key)
                        &&& *final(self) == (MarketplaceContract {
                            offers: final(self).offers,
                            ..*old(self)
                        })
                        &&& actions@ == seq![
                            MarketAction::Log {
                                event: MarketEvent::CancelOffer {
                                    owner: caller,
                                    amount,
                                    timestamp: now,
                                },
                            },
                        ]
                    },
                }
            }),
    {
        let list_timestamp = match self.auction.get(&nft_id) {
            Some(info) => info.created_at,
            None => {
                return Err(MarketError::NftNotOnAuction);
            },
        };
        self.require_offer_exists(&caller, &nft_id, list_timestamp)?;
        let key = OfferKey::new(caller, &nft_id, list_timestamp);
        self.offers.remove(&key);
        let mut actions: Vec<MarketAction> = Vec::new();
        actions.push(
            MarketAction::Log {
                event: MarketEvent::CancelOffer { owner: caller, amount, timestamp: now },
            },
        );
        Ok(actions)
    }
}

} // verus!
