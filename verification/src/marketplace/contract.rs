use vstd::prelude::*;

use super::config::{
    platform_fee_check, price_range_check, royalties_max_check, BP, ROYALTIES_MAX_FEE_PERCENT,
};
use super::events::{MarketAction, MarketEvent, Memo};
use super::royalties::epoch_if_empty;
use super::storage::{balance, AuctionInfo, NftId, NftSaleInfo, Offer, OfferKey};
use super::utils::{percent_of, TokenData};
use super::validation::{ensure, then, MarketError};
use crate::staking::storage::StakedPool;
use crate::store::Store;
use crate::types::{bytes_copy, valid_esdt_identifier, Address, TokenIdentifier};

verus! {

/// Offers made without an expiry last this many seconds.
pub const SECONDS_IN_YEARS: u64 = 31_556_952;

/// The storage of the marketplace contract.  A map holds what its storage
/// entries hold; for a balance or an epoch an absent key reads as zero, as
/// an empty storage entry does.
pub struct MarketplaceContract {
    pub platform_fee_percent: u64,
    pub asset_min_price: u128,
    pub asset_max_price: u128,
    pub royalties_max_fee_percent: u64,
    pub creator_withdrawal_waiting_epochs: u64,
    pub creator_blacklist: Store<Address, bool>,
    pub egld_deposit: Store<Address, u128>,
    pub creator_royalties: Store<Address, u128>,
    pub creator_last_withdrawal_epoch: Store<Address, u64>,
    pub platform_royalties: u128,
    pub nft_sale_info: Store<NftId, NftSaleInfo>,
    pub offers: Store<OfferKey, Offer>,
    pub auction: Store<NftId, AuctionInfo>,
    pub global_op_is_ongoing: bool,
    pub admin_pub: Vec<u8>,
    pub version: Vec<u8>,
    pub dao: Address,
    pub staked_pool: Option<StakedPool>,
}

impl MarketplaceContract {
    /// What every reachable storage satisfies: the maps are well formed, the
    /// configuration lies in the ranges its setters accept, and no NFT is at
    /// once for sale and on auction.
    pub open spec fn wf(&self) -> bool {
        &&& self.creator_blacklist.wf()
        &&& self.egld_deposit.wf()
        &&& self.creator_royalties.wf()
        &&& self.creator_last_withdrawal_epoch.wf()
        &&& self.nft_sale_info.wf()
        &&& self.offers.wf()
        &&& self.auction.wf()
        &&& 0 < self.asset_min_price <= self.asset_max_price
        &&& self.platform_fee_percent < BP
        &&& self.royalties_max_fee_percent <= ROYALTIES_MAX_FEE_PERCENT
        &&& forall|k: (Seq<u8>, u64)|
            #[trigger] self.nft_sale_info.view().contains_key(k) ==> !self.auction.view().contains_key(
                k,
            )
    }

    /// The outcome of deploying with these arguments.
    pub open spec fn init_check(
        platform_fee_percent: u64,
        royalties_max_fee_percent: u64,
        asset_min_price: u128,
        asset_max_price: u128,
    ) -> Result<(), MarketError> {
        match platform_fee_check(platform_fee_percent) {
            Err(e) => Err(e),
            Ok(_) => match royalties_max_check(royalties_max_fee_percent) {
                Err(e) => Err(e),
                Ok(_) => price_range_check(asset_min_price, asset_max_price),
            },
        }
    }

    /// Deploys the marketplace: stores the configuration, the DAO address
    /// and the version, and creates an empty staked pool.
    pub fn init(
        platform_fee_percent: u64,
        royalties_max_fee_percent: u64,
        asset_min_price: u128,
        asset_max_price: u128,
        creator_withdrawal_waiting_epochs: u64,
        dao_address: Address,
        version: Vec<u8>,
    ) -> (r: Result<MarketplaceContract, MarketError>)
        ensures
            match r {
                Err(e) => Self::init_check(
                    platform_fee_percent,
                    royalties_max_fee_percent,
                    asset_min_price,
                    asset_max_price,
                ) == Err::<(), MarketError>(e),
                Ok(c) => {
                    &&& Self::init_check(
                        platform_fee_percent,
                        royalties_max_fee_percent,
                        asset_min_price,
                        asset_max_price,
                    ) is Ok
                    &&& c.wf()
                    &&& c.platform_fee_percent == platform_fee_percent
                    &&& c.royalties_max_fee_percent == royalties_max_fee_percent
                    &&& c.asset_min_price == asset_min_price
                    &&& c.asset_max_price == asset_max_price
                    &&& c.creator_withdrawal_waiting_epochs == creator_withdrawal_waiting_epochs
                    &&& c.dao == dao_address
                    &&& c.version == version
                    &&& c.admin_pub@.len() == 0
                    &&& c.platform_royalties == 0
                    &&& !c.global_op_is_ongoing
                    &&& c.staked_pool matches Some(p) && p.array_staked_addresses@.len() == 0
                    &&& c.creator_blacklist.view().is_empty()
                    &&& c.egld_deposit.view().is_empty()
                    &&& c.creator_royalties.view().is_empty()
                    &&& c.creator_last_withdrawal_epoch.view().is_empty()
                    &&& c.nft_sale_info.view().is_empty()
                    &&& c.offers.view().is_empty()
                    &&& c.auction.view().is_empty()
                },
            },
    {
        if platform_fee_percent >= BP {
            return Err(MarketError::FeePercentTooHigh);
        }
        if platform_fee_percent == 0 {
            return Err(MarketError::FeePercentZero);
        }
        if royalties_max_fee_percent > ROYALTIES_MAX_FEE_PERCENT {
            return Err(MarketError::RoyaltiesFeeTooHigh);
        }
        if asset_min_price == 0 {
            return Err(MarketError::MinPriceZero);
        }
        if asset_max_price < asset_min_price {
            return Err(MarketError::MaxLowerThanMin);
        }
        let c = MarketplaceContract {
            platform_fee_percent,
            asset_min_price,
            asset_max_price,
            royalties_max_fee_percent,
            creator_withdrawal_waiting_epochs,
            creator_blacklist: Store::new(),
            egld_deposit: Store::new(),
            creator_royalties: Store::new(),
            creator_last_withdrawal_epoch: Store::new(),
            platform_royalties: 0,
            nft_sale_info: Store::new(),
            offers: Store::new(),
            auction: Store::new(),
            global_op_is_ongoing: false,
            admin_pub: Vec::new(),
            version,
            dao: dao_address,
            staked_pool: Some(StakedPool::new(Vec::new())),
        };
        Ok(c)
    }

    /// Runs the deployment again over existing storage, as an upgrade of
    /// the contract does: the settings take the new values where all of
    /// them are accepted, a staked pool is created where there is none, and
    /// the sales, offers, auctions, deposits and royalties are kept.  A
    /// refused setting leaves the storage as it was.
    pub fn upgrade(
        &mut self,
        platform_fee_percent: u64,
        royalties_max_fee_percent: u64,
        asset_min_price: u128,
        asset_max_price: u128,
        creator_withdrawal_waiting_epochs: u64,
        dao_address: Address,
        version: Vec<u8>,
    ) -> (r: Result<(), MarketError>)
        requires
            old(self).wf(),
        ensures
            final(self).wf(),
            r == Self::init_check(
                platform_fee_percent,
                royalties_max_fee_percent,
                asset_min_price,
                asset_max_price,
            ),
            r is Err ==> *final(self) == *old(self),
            r is Ok ==> *final(self) == (MarketplaceContract {
                platform_fee_percent,
                royalties_max_fee_percent,
                asset_min_price,
                asset_max_price,
                creator_withdrawal_waiting_epochs,
                dao: dao_address,
                version: final(self).version,
                staked_pool: final(self).staked_pool,
                ..*old(self)
            }),
            r is Ok ==> final(self).version@ == version@,
            r is Ok && old(self).staked_pool is Some ==> final(self).staked_pool == old(
                self,
            ).staked_pool,
            r is Ok && old(self).staked_pool is None ==> (final(self).staked_pool matches Some(p)
                && p.array_staked_addresses@.len() == 0),
    {
        if platform_fee_percent >= BP {
            return Err(MarketError::FeePercentTooHigh);
        }
        if platform_fee_percent == 0 {
            return Err(MarketError::FeePercentZero);
        }
        if royalties_max_fee_percent > ROYALTIES_MAX_FEE_PERCENT {
            return Err(MarketError::RoyaltiesFeeTooHigh);
        }
        if asset_min_price == 0 {
            return Err(MarketError::MinPriceZero);
        }
        if asset_max_price < asset_min_price {
            return Err(MarketError::MaxLowerThanMin);
        }
        if self.staked_pool.is_none() {
            self.staked_pool = Some(StakedPool::new(Vec::new()));
        }
        self.version = version;
        self.dao = dao_address;
        self.platform_fee_percent = platform_fee_percent;
        self.royalties_max_fee_percent = royalties_max_fee_percent;
        self.asset_min_price = asset_min_price;
        self.asset_max_price = asset_max_price;
        self.creator_withdrawal_waiting_epochs = creator_withdrawal_waiting_epochs;
        Ok(())
    }

    /// Creates an empty staked pool where there is none yet, at the owner's
    /// call.
    pub fn create_staked_pool(&mut self, caller: Address, owner: Address) -> (r: Result<
        (),
        MarketError,
    >)
        requires
            old(self).wf(),
        ensures
            final(self).wf(),
            r == ensure(caller == owner, MarketError::OnlyOwner),
            r is Err || old(self).staked_pool is Some ==> *final(self) == *old(self),
            r is Ok && old(self).staked_pool is None ==> *final(self) == (MarketplaceContract {
                staked_pool: final(self).staked_pool,
                ..*old(self)
            }) && (final(self).staked_pool matches Some(p) && p.array_staked_addresses@.len()
                == 0),
    {
        self.require_owner(&caller, &owner)?;
        if self.staked_pool.is_none() {
            self.staked_pool = Some(StakedPool::new(Vec::new()));
        }
        Ok(())
    }

    /// Answers a staking deposit with the length of a list that holds the
    /// caller twice.
    pub fn deposit_staking(&self, caller: Address, amount: u128) -> (r: usize)
        ensures
            r == 2,
    {
        let mut list: Vec<Address> = Vec::new();
        list.push(caller);
        list.push(caller);
        list.len()
    }
}


impl MarketplaceContract {
    /// The checks that every trading endpoint makes first: no global
    /// operation, a valid token identifier and a non-zero nonce.
    pub open spec fn trade_check(&self, token_id: Seq<u8>, nonce: u64) -> Result<(), MarketError> {
        then(
            ensure(!self.global_op_is_ongoing, MarketError::GlobalOpOngoing),
            then(
                ensure(valid_esdt_identifier(token_id), MarketError::InvalidTokenId),
                ensure(nonce != 0, MarketError::InvalidNonce),
            ),
        )
    }

    /// The outcome of listing an NFT for sale.
    pub open spec fn put_nft_for_sale_check(
        &self,
        token_id: Seq<u8>,
        nonce: u64,
        amount: u128,
        price: u128,
        token_data: TokenData,
    ) -> Result<(), MarketError> {
        then(
            self.trade_check(token_id, nonce),
            then(
                ensure(amount == 1, MarketError::InvalidAmount),
                then(
                    self.price_check(price),
                    then(
                        self.royalties_check(token_data.royalties),
                        then(
                            ensure(token_data.uris@.len() != 0, MarketError::EmptyUris),
                            then(
                                ensure(
                                    !self.nft_sale_info.view().contains_key((token_id, nonce)),
                                    MarketError::NftForSale,
                                ),
                                ensure(
                                    !self.auction.view().contains_key((token_id, nonce)),
                                    MarketError::NftOnAuction,
                                ),
                            ),
                        ),
                    ),
                ),
            ),
        )
    }

    /// Lists the NFT paid with the call for sale at `price`.
    pub fn put_nft_for_sale(
        &mut self,
        caller: Address,
        now: u64,
        token_id: TokenIdentifier,
        nonce: u64,
        amount: u128,
        price: u128,
        token_data: &TokenData,
    ) -> (r: Result<Vec<MarketAction>, MarketError>)
        requires
            old(self).wf(),
            token_data.wf(),
        ensures
            final(self).wf(),
            match r {
                Err(e) => old(self).put_nft_for_sale_check(token_id@, nonce, amount, price, *token_data)
                    == Err::<(), MarketError>(e) && *final(self) == *old(self),
                Ok(actions) => {
                    &&& old(self).put_nft_for_sale_check(
                        token_id@,
                        nonce,
                        amount,
                        price,
                        *token_data,
                    ) is Ok
                    &&& final(self).nft_sale_info.view() == old(self).nft_sale_info.view().insert(
                        (token_id@, nonce),
                        NftSaleInfo { owner: caller, price, timestamp: now },
                    )
                    &&& *final(self) == (MarketplaceContract {
                        nft_sale_info: final(self).nft_sale_info,
                        ..*old(self)
                    })
                    &&& actions@ == seq![
                        MarketAction::Log {
                            event: MarketEvent::PutNftForSale {
                                caller,
                                price,
                                royalties_percent: token_data.royalties,
                                timestamp: now,
                            },
                        },
                    ]
                },
            },
    {
        self.require_global_op_not_ongoing()?;
        self.require_valid_token_id(&token_id)?;
        self.require_valid_nonce(nonce)?;
        self.require_valid_nft_amount(amount)?;
        self.require_valid_price(price)?;
        self.require_valid_royalties(token_data)?;
        self.require_uris_not_empty(token_data)?;
        let nft_id = NftId::new(token_id, nonce);
        self.require_nft_not_for_sale(&nft_id)?;
        self.require_nft_not_on_auction(&nft_id)?;
        let nft_sale_info = NftSaleInfo::new(caller, price, now);
        self.nft_sale_info.set(nft_id, nft_sale_info);
        let mut actions: Vec<MarketAction> = Vec::new();
        actions.push(
            MarketAction::Log {
                event: MarketEvent::PutNftForSale {
                    caller,
                    price,
                    royalties_percent: token_data.royalties,
                    timestamp: now,
                },
            },
        );
        Ok(actions)
    }

    /// The outcome of buying a listed NFT for `payment`.
    pub open spec fn buy_nft_check(&self, caller: Address, payment: u128, token_id: Seq<u8>, nonce: u64) -> Result<
        (),
        MarketError,
    > {
        let k = (token_id, nonce);
        then(
            self.trade_check(token_id, nonce),
            then(
                ensure(self.nft_sale_info.view().contains_key(k), MarketError::NftNotForSale),
                then(
                    ensure(caller != self.nft_sale_info.view()[k].owner, MarketError::IsOwner),
                    ensure(
                        payment == self.nft_sale_info.view()[k].price,
                        MarketError::WrongPayment,
                    ),
                ),
            ),
        )
    }

    /// Buys a listed NFT with the EGLD paid with the call, which must be its
    /// price: the chain sells the NFT to the caller, the platform's cut goes
    /// to the DAO and the rest, less the creator's cut, to the seller.
    pub fn buy_nft(
        &mut self,
        caller: Address,
        now: u64,
        epoch: u64,
        payment: u128,
        token_id: TokenIdentifier,
        nonce: u64,
        token_data: &TokenData,
    ) -> (r: Result<Vec<MarketAction>, MarketError>)
        requires
            old(self).wf(),
            token_data.wf(),
            old(self).buy_nft_check(caller, payment, token_id@, nonce) is Ok ==> {
                &&& percent_of(payment as int, token_data.royalties as int) * 10 <= u128::MAX
                &&& old(self).platform_cut(payment) + percent_of(
                    payment as int,
                    token_data.royalties as int,
                ) <= payment
            },
        ensures
            final(self).wf(),
            match r {
                Err(e) => old(self).buy_nft_check(caller, payment, token_id@, nonce) == Err::<
                    (),
                    MarketError,
                >(e) && *final(self) == *old(self),
                Ok(actions) => {
                    let k = (token_id@, nonce);
                    let sale = old(self).nft_sale_info.view()[k];
                    let creator_cut = percent_of(payment as int, token_data.royalties as int);
                    let platform_cut = old(self).platform_cut(payment);
                    &&& old(self).buy_nft_check(caller, payment, token_id@, nonce) is Ok
                    &&& final(self).nft_sale_info.view() == old(self).nft_sale_info.view().remove(k)
                    &&& final(self).creator_last_withdrawal_epoch.view() == epoch_if_empty(
                        old(self).creator_last_withdrawal_epoch.view(),
                        token_data.creator,
                        epoch,
                    )
                    &&& *final(self) == (MarketplaceContract {
                        nft_sale_info: final(self).nft_sale_info,
                        creator_last_withdrawal_epoch: final(self).creator_last_withdrawal_epoch,
                        ..*old(self)
                    })
                    &&& actions@ == seq![
                        MarketAction::SellNft {
                            buyer: caller,
                            payment_amount: (creator_cut * 10) as u128,
                        },
                        MarketAction::SendEgld {
                            to: old(self).dao,
                            amount: platform_cut as u128,
                            memo: Memo::DaoCut,
                        },
                        MarketAction::SendEgld {
                            to: sale.owner,
                            amount: (payment - platform_cut - creator_cut) as u128,
                            memo: Memo::SellerCut,
                        },
                        MarketAction::Log {
                            event: MarketEvent::BuyNft {
                                owner: sale.owner,
                                buyer: caller,
                                price: payment,
                                timestamp: now,
                            },
                        },
                    ]
                },
            },
    {
        self.require_global_op_not_ongoing()?;
        self.require_valid_token_id(&token_id)?;
        self.require_valid_nonce(nonce)?;
        let nft_id = NftId::new(token_id, nonce);
        self.require_nft_for_sale(&nft_id)?;
        let nft_sale_info = match self.nft_sale_info.get(&nft_id) {
            Some(info) => *info,
            None => {
                return Err(MarketError::NftNotForSale);
            },
        };
        self.require_not_owns_nft(&caller, &nft_sale_info)?;
        let price = nft_sale_info.price;
        if payment != price {
            return Err(MarketError::WrongPayment);
        }
        let creator_cut = self.get_creator_cut(payment, token_data);
        self.set_creator_last_withdrawal_epoch_if_empty(token_data.creator, epoch);
        let mut actions: Vec<MarketAction> = Vec::new();
        actions.push(MarketAction::SellNft { buyer: caller, payment_amount: creator_cut * 10 });
        let platform_cut = self.get_platform_cut(payment);
        actions.push(
            MarketAction::SendEgld { to: self.dao, amount: platform_cut, memo: Memo::DaoCut },
        );
        let nft_owner_cut = payment - platform_cut - creator_cut;
        actions.push(
            MarketAction::SendEgld {
                to: nft_sale_info.owner,
                amount: nft_owner_cut,
                memo: Memo::SellerCut,
            },
        );
        self.nft_sale_info.remove(&nft_id);
        actions.push(
            MarketAction::Log {
                event: MarketEvent::BuyNft {
                    owner: nft_sale_info.owner,
                    buyer: caller,
                    price: payment,
                    timestamp: now,
                },
            },
        );
        Ok(actions)
    }
}

} // verus!
