use vstd::prelude::*;

use super::contract::MarketplaceContract;
use super::validation::{ensure, then, MarketError};
use crate::types::Address;

verus! {

/// Basis points: a percentage is stored in hundredths of a percent.
pub const BP: u64 = 10_000;

/// The platform fee used while none is stored.
pub const DEFAULT_FEE_PERCENT: u64 = 250;

/// The highest royalties percentage that can be configured, and the one used
/// while none is stored.
pub const ROYALTIES_MAX_FEE_PERCENT: u64 = 1_000;

/// The outcome of setting the platform fee to `fee_percent`.
pub open spec fn platform_fee_check(fee_percent: u64) -> Result<(), MarketError> {
    if fee_percent >= BP {
        Err(MarketError::FeePercentTooHigh)
    } else if fee_percent == 0 {
        Err(MarketError::FeePercentZero)
    } else {
        Ok(())
    }
}

/// The outcome of setting the price range to `[min_price, max_price]`.
pub open spec fn price_range_check(min_price: u128, max_price: u128) -> Result<(), MarketError> {
    if min_price == 0 {
        Err(MarketError::MinPriceZero)
    } else if max_price < min_price {
        Err(MarketError::MaxLowerThanMin)
    } else {
        Ok(())
    }
}

/// The outcome of setting the highest royalties percentage to `fee_percent`.
pub open spec fn royalties_max_check(fee_percent: u64) -> Result<(), MarketError> {
    if fee_percent > ROYALTIES_MAX_FEE_PERCENT {
        Err(MarketError::RoyaltiesFeeTooHigh)
    } else {
        Ok(())
    }
}

impl MarketplaceContract {
    /// Sets the platform fee, at the owner's call.
    pub fn set_platform_fee_percent(&mut self, caller: Address, owner: Address, fee_percent: u64) -> (r:
        Result<(), MarketError>)
        requires
            old(self).wf(),
        ensures
            final(self).wf(),
            r == then(ensure(caller == owner, MarketError::OnlyOwner), platform_fee_check(fee_percent)),
            r is Ok ==> *final(self) == (MarketplaceContract {
                platform_fee_percent: fee_percent,
                ..*old(self)
            }),
            r is Err ==> *final(self) == *old(self),
    {
        self.require_owner(&caller, &owner)?;
        self.try_set_platform_fee_percent(fee_percent)
    }

    /// Sets the highest royalties percentage, at the owner's call.
    pub fn set_royalties_max_fee_percent(&mut self, caller: Address, owner: Address, fee_percent: u64) -> (r:
        Result<(), MarketError>)
        requires
            old(self).wf(),
        ensures
            final(self).wf(),
            r == then(ensure(caller == owner, MarketError::OnlyOwner), royalties_max_check(fee_percent)),
            r is Ok ==> *final(self) == (MarketplaceContract {
                royalties_max_fee_percent: fee_percent,
                ..*old(self)
            }),
            r is Err ==> *final(self) == *old(self),
    {
        self.require_owner(&caller, &owner)?;
        self.try_set_royalties_max_fee_percent(fee_percent)
    }

    /// Sets the range of accepted prices, at the owner's call.
    pub fn set_asset_price_range(
        &mut self,
        caller: Address,
        owner: Address,
        min_price: u128,
        max_price: u128,
    ) -> (r: Result<(), MarketError>)
        requires
            old(self).wf(),
        ensures
            final(self).wf(),
            r == then(
                ensure(caller == owner, MarketError::OnlyOwner),
                price_range_check(min_price, max_price),
            ),
            r is Ok ==> *final(self) == (MarketplaceContract {
                asset_min_price: min_price,
                asset_max_price: max_price,
                ..*old(self)
            }),
            r is Err ==> *final(self) == *old(self),
    {
        self.require_owner(&caller, &owner)?;
        self.try_set_asset_price_range(min_price, max_price)
    }

    /// Sets the epochs a creator waits between withdrawals, at the owner's
    /// call.
    pub fn set_creator_withdrawal_waiting_epochs(&mut self, caller: Address, owner: Address, epochs: u64) -> (r:
        Result<(), MarketError>)
        requires
            old(self).wf(),
        ensures
            final(self).wf(),
            r == ensure(caller == owner, MarketError::OnlyOwner),
            r is Ok ==> *final(self) == (MarketplaceContract {
                creator_withdrawal_waiting_epochs: epochs,
                ..*old(self)
            }),
            r is Err ==> *final(self) == *old(self),
    {
        self.require_owner(&caller, &owner)?;
        self.try_set_creator_withdrawal_waiting_epochs(epochs)?;
        Ok(())
    }

    pub fn blacklist_creator(&mut self, caller: Address, owner: Address, address: Address) -> (r: Result<
        (),
        MarketError,
    >)
        requires
            old(self).wf(),
        ensures
            final(self).wf(),
            r == ensure(caller == owner, MarketError::OnlyOwner),
            r is Err ==> *final(self) == *old(self),
            r is Ok ==> final(self).creator_blacklist.view() == old(self).creator_blacklist.view().insert(
                address,
                true,
            ) && *final(self) == (MarketplaceContract {
                creator_blacklist: final(self).creator_blacklist,
                ..*old(self)
            }),
    {
        self.require_owner(&caller, &owner)?;
        self.creator_blacklist.set(address, true);
        Ok(())
    }

    pub fn remove_creator_from_blacklist(&mut self, caller: Address, owner: Address, address: Address) -> (r: Result<
        (),
        MarketError,
    >)
        requires
            old(self).wf(),
        ensures
            final(self).wf(),
            r == ensure(caller == owner, MarketError::OnlyOwner),
            r is Err ==> *final(self) == *old(self),
            r is Ok ==> final(self).creator_blacklist.view() == old(self).creator_blacklist.view().insert(
                address,
                false,
            ) && *final(self) == (MarketplaceContract {
                creator_blacklist: final(self).creator_blacklist,
                ..*old(self)
            }),
    {
        self.require_owner(&caller, &owner)?;
        self.creator_blacklist.set(address, false);
        Ok(())
    }

    pub fn try_set_platform_fee_percent(&mut self, fee_percent: u64) -> (r: Result<(), MarketError>)
        requires
            old(self).wf(),
        ensures
            final(self).wf(),
            r == platform_fee_check(fee_percent),
            r is Ok ==> *final(self) == (MarketplaceContract {
                platform_fee_percent: fee_percent,
                ..*old(self)
            }),
            r is Err ==> *final(self) == *old(self),
    {
        if fee_percent >= BP {
            return Err(MarketError::FeePercentTooHigh);
        }
        if fee_percent == 0 {
            return Err(MarketError::FeePercentZero);
        }
        self.platform_fee_percent = fee_percent;
        Ok(())
    }

    pub fn try_set_asset_price_range(&mut self, min_price: u128, max_price: u128) -> (r: Result<
        (),
        MarketError,
    >)
        requires
            old(self).wf(),
        ensures
            final(self).wf(),
            r == price_range_check(min_price, max_price),
            r is Ok ==> *final(self) == (MarketplaceContract {
                asset_min_price: min_price,
                asset_max_price: max_price,
                ..*old(self)
            }),
            r is Err ==> *final(self) == *old(self),
    {
        if min_price == 0 {
            return Err(MarketError::MinPriceZero);
        }
        if max_price < min_price {
            return Err(MarketError::MaxLowerThanMin);
        }
        self.asset_min_price = min_price;
        self.asset_max_price = max_price;
        Ok(())
    }

    pub fn try_set_royalties_max_fee_percent(&mut self, fee_percent: u64) -> (r: Result<
        (),
        MarketError,
    >)
        requires
            old(self).wf(),
        ensures
            final(self).wf(),
            r == royalties_max_check(fee_percent),
            r is Ok ==> *final(self) == (MarketplaceContract {
                royalties_max_fee_percent: fee_percent,
                ..*old(self)
            }),
            r is Err ==> *final(self) == *old(self),
    {
        if fee_percent > ROYALTIES_MAX_FEE_PERCENT {
            return Err(MarketError::RoyaltiesFeeTooHigh);
        }
        self.royalties_max_fee_percent = fee_percent;
        Ok(())
    }

    pub fn try_set_creator_withdrawal_waiting_epochs(&mut self, epochs: u64) -> (r: Result<
        (),
        MarketError,
    >)
        requires
            old(self).wf(),
        ensures
            final(self).wf(),
            r is Ok,
            *final(self) == (MarketplaceContract {
                creator_withdrawal_waiting_epochs: epochs,
                ..*old(self)
            }),
    {
        self.creator_withdrawal_waiting_epochs = epochs;
        Ok(())
    }

    pub fn try_set_admin_pub_key(&mut self, pub_key: Vec<u8>) -> (r: Result<(), MarketError>)
        requires
            old(self).wf(),
        ensures
            final(self).wf(),
            r is Ok,
            *final(self) == (MarketplaceContract { admin_pub: pub_key, ..*old(self) }),
    {
        self.admin_pub = pub_key;
        Ok(())
    }
}

} // verus!
