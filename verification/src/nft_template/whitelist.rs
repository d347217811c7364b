use vstd::prelude::*;

use super::contract::{NftTemplate, TemplateError};
use super::minting::ensure;
use crate::types::{value_or, Address};

verus! {

impl NftTemplate {
    /// The buy count of `a`: zero where none is stored.
    pub open spec fn count_of(&self, a: Address) -> u16 {
        value_or(self.buy_count.view(), a, 0u16)
    }

    /// The buy limit of `a`: zero, which means not whitelisted, where none
    /// is stored.
    pub open spec fn limit_of(&self, a: Address) -> u16 {
        value_or(self.buy_limit.view(), a, 0u16)
    }

    fn get_count(&self, a: &Address) -> (r: u16)
        requires
            self.wf(),
        ensures
            r == self.count_of(*a),
    {
        match self.buy_count.get(a) {
            Some(v) => *v,
            None => 0,
        }
    }

    fn get_limit(&self, a: &Address) -> (r: u16)
        requires
            self.wf(),
        ensures
            r == self.limit_of(*a),
    {
        match self.buy_limit.get(a) {
            Some(v) => *v,
            None => 0,
        }
    }

    /// Whitelists `address` with a buy count and a buy limit, unless it is
    /// whitelisted already.
    /// Whitelists `address` with a buy count and a buy limit, at the
    /// owner's call; an address already whitelisted keeps its own.
    pub fn create_buyer_address(
        &mut self,
        caller: Address,
        owner: Address,
        buy_count: u16,
        buy_limit: u16,
        address: Address,
    ) -> (r: Result<(), TemplateError>)
        requires
            old(self).wf(),
        ensures
            final(self).wf(),
            r == ensure(caller == owner, TemplateError::OnlyOwner),
            r is Err ==> *final(self) == *old(self),
            r is Ok && old(self).limit_of(address) == 0 ==> {
                &&& final(self).buy_count.view() == old(self).buy_count.view().insert(
                    address,
                    buy_count,
                )
                &&& final(self).buy_limit.view() == old(self).buy_limit.view().insert(
                    address,
                    buy_limit,
                )
                &&& *final(self) == (NftTemplate {
                    buy_count: final(self).buy_count,
                    buy_limit: final(self).buy_limit,
                    ..*old(self)
                })
            },
            r is Ok && old(self).limit_of(address) != 0 ==> *final(self) == *old(self),
    {
        self.require_owner(&caller, &owner)?;
        if self.get_limit(&address) == 0 {
            self.buy_count.set(address, buy_count);
            self.buy_limit.set(address, buy_limit);
        }
        Ok(())
    }

    pub fn is_caller_address_not_part_of_whitelist(&self, caller: Address) -> (r: bool)
        requires
            self.wf(),
        ensures
            r == (self.limit_of(caller) == 0),
    {
        self.get_limit(&caller) == 0
    }

    /// Whether buying `amount_to_add_to_buy_count` more tokens would take
    /// the caller's buy count over its limit.
    pub fn check_buy_count_is_greater_than_buy_limit_by_adding_amount(
        &self,
        caller: Address,
        amount_to_add_to_buy_count: u16,
    ) -> (r: bool)
        requires
            self.wf(),
            self.count_of(caller) + amount_to_add_to_buy_count <= u16::MAX,
        ensures
            r == (self.count_of(caller) + amount_to_add_to_buy_count > self.limit_of(caller)),
    {
        let buy_limit = self.get_limit(&caller);
        let buy_count = self.get_count(&caller) + amount_to_add_to_buy_count;
        buy_count > buy_limit
    }

    /// Adds `amount` to the caller's buy count, where it is whitelisted.
    pub fn add_to_address_buy_count(&mut self, caller: Address, amount: u16) -> (r: Result<
        (),
        TemplateError,
    >)
        requires
            old(self).wf(),
            old(self).limit_of(caller) != 0 ==> old(self).count_of(caller) + amount <= u16::MAX,
        ensures
            final(self).wf(),
            old(self).limit_of(caller) == 0 ==> r == Err::<(), TemplateError>(
                TemplateError::BuyerNotCreated,
            ) && *final(self) == *old(self),
            old(self).limit_of(caller) != 0 ==> r is Ok && final(self).buy_count.view() == old(
                self,
            ).buy_count.view().insert(caller, (old(self).count_of(caller) + amount) as u16)
                && *final(self) == (NftTemplate { buy_count: final(self).buy_count, ..*old(self) }),
    {
        if self.get_limit(&caller) == 0 {
            return Err(TemplateError::BuyerNotCreated);
        }
        let count = self.get_count(&caller) + amount;
        self.buy_count.set(caller, count);
        Ok(())
    }

    pub fn is_buyer_whitelist_check_enabled(&self) -> (r: bool)
        ensures
            r == (self.buyer_whitelist_check == 1),
    {
        self.buyer_whitelist_check == 1
    }

    /// Turns the whitelist on (1) or off (any other value).
    /// Turns the whitelist on (1) or off, at the owner's call.
    pub fn update_buyer_whitelist_check(&mut self, caller: Address, owner: Address, whitelist_check: i128) -> (r:
        Result<(), TemplateError>)
        requires
            old(self).wf(),
        ensures
            final(self).wf(),
            r == ensure(caller == owner, TemplateError::OnlyOwner),
            r is Err ==> *final(self) == *old(self),
            r is Ok ==> *final(self) == (NftTemplate {
                buyer_whitelist_check: whitelist_check,
                ..*old(self)
            }),
    {
        self.require_owner(&caller, &owner)?;
        self.buyer_whitelist_check = whitelist_check;
        Ok(())
    }
}

} // verus!
